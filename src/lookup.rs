use vstd::prelude::*;

verus! {

/// Position of the first record at or after `i` that the key predicate `p`
/// selects, or -1 when there is none. Records are addressed by a composite key
/// of their identifying fields, so this is where a key "resolves".
pub open spec fn find_from<T>(s: Seq<T>, p: spec_fn(T) -> bool, i: int) -> int
    decreases s.len() - i,
{
    if i < 0 || i >= s.len() {
        -1
    } else if p(s[i]) {
        i
    } else {
        find_from(s, p, i + 1)
    }
}

/// Position of the record selected by `p`, or -1.
pub open spec fn index_of<T>(s: Seq<T>, p: spec_fn(T) -> bool) -> int {
    find_from(s, p, 0)
}

/// A found position is in range and selected by the key.
pub proof fn lemma_find_found<T>(s: Seq<T>, p: spec_fn(T) -> bool, i: int)
    requires
        0 <= i,
    ensures
        find_from(s, p, i) == -1 || (i <= find_from(s, p, i) < s.len() && p(
            s[find_from(s, p, i)],
        )),
    decreases s.len() - i,
{
    if i < s.len() && !p(s[i]) {
        lemma_find_found(s, p, i + 1);
    }
}

/// Appending a record: keys found before still resolve to the same place; a
/// key that was absent resolves to the new record exactly when it selects it.
pub proof fn lemma_find_push<T>(s: Seq<T>, p: spec_fn(T) -> bool, x: T, i: int)
    requires
        0 <= i <= s.len(),
    ensures
        find_from(s.push(x), p, i) == if find_from(s, p, i) != -1 {
            find_from(s, p, i)
        } else if p(x) {
            s.len() as int
        } else {
            -1
        },
    decreases s.len() - i,
{
    if i < s.len() {
        assert(s.push(x)[i] == s[i]);
        if !p(s[i]) {
            lemma_find_push(s, p, x, i + 1);
        }
    } else {
        assert(s.push(x)[i] == x);
        assert(find_from(s.push(x), p, i + 1) == -1);
    }
}

/// Replacing a record by one that the key selects equally leaves every lookup unchanged.
pub proof fn lemma_find_update<T>(s: Seq<T>, p: spec_fn(T) -> bool, j: int, x: T, i: int)
    requires
        0 <= i,
        0 <= j < s.len(),
        p(x) == p(s[j]),
    ensures
        find_from(s.update(j, x), p, i) == find_from(s, p, i),
    decreases s.len() - i,
{
    if i < s.len() {
        if !p(s[i]) {
            lemma_find_update(s, p, j, x, i + 1);
        }
    }
}

} // verus!
