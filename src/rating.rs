use vstd::prelude::*;
use crate::records::ErrorCode;

verus! {

/// Lowest star rating a buyer can give.
pub const MIN_RATING: u8 = 1;

/// Highest star rating a buyer can give.
pub const MAX_RATING: u8 = 5;

/// Whether `rating` is a valid star rating.
pub open spec fn valid_rating(rating: nat) -> bool {
    1 <= rating <= 5
}

/// The running integer mean after folding `rating` into an average `avg` over `count` ratings.
pub open spec fn folded_average(avg: nat, count: nat, rating: nat) -> nat {
    (avg * count + rating) / (count + 1)
}

/// Folds a new rating into a stored `(average, count)` pair.
///
/// Returns the new `(average, count)`, or `Overflow` when the count is already
/// at its largest value.
pub fn fold_rating(avg: u8, count: u64, rating: u8) -> (r: Result<(u8, u64), ErrorCode>)
    requires
        rating <= MAX_RATING,
    ensures
        count == u64::MAX ==> r == Err::<(u8, u64), ErrorCode>(ErrorCode::Overflow),
        count < u64::MAX ==> r is Ok,
        r matches Ok(p) ==> p.1 == count + 1 && p.0 == folded_average(
            avg as nat,
            count as nat,
            rating as nat,
        ),
{
    if count == u64::MAX {
        return Err(ErrorCode::Overflow);
    }
    let new_count: u64 = count + 1;
    proof {
        assert((avg as nat) * (count as nat) <= 255 * 0xffff_ffff_ffff_ffff) by (nonlinear_arith)
            requires
                avg <= 255,
                count <= 0xffff_ffff_ffff_ffff,
        ;
    }
    let total: u128 = (avg as u128) * (count as u128) + (rating as u128);
    proof {
        lemma_folded_average_bounded(avg as nat, count as nat, rating as nat);
    }
    let new_avg: u128 = total / (new_count as u128);
    Ok((new_avg as u8, new_count))
}

/// A folded average never exceeds the larger of the old average and the new rating.
pub proof fn lemma_folded_average_bounded(avg: nat, count: nat, rating: nat)
    ensures
        folded_average(avg, count, rating) <= if avg >= rating { avg } else { rating },
{
    let m: nat = if avg >= rating { avg } else { rating };
    assert(avg * count + rating <= m * (count + 1)) by (nonlinear_arith)
        requires
            avg <= m,
            rating <= m,
    ;
    assert((avg * count + rating) / (count + 1) <= (m * (count + 1)) / (count + 1))
        by (nonlinear_arith)
        requires
            avg * count + rating <= m * (count + 1),
    ;
    assert((m * (count + 1)) / (count + 1) == m) by (nonlinear_arith);
}

} // verus!
