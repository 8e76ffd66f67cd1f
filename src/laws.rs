use vstd::prelude::*;
use crate::address::Address;
use crate::lookup::{lemma_find_found, lemma_find_push, lemma_find_update};
use crate::rating::valid_rating;
use crate::records::{Agent, ErrorCode, Purchase, Skill};
use crate::registry::{bought_by, listed_as, owned_by, SkillRegistry};

verus! {

/// A buyer owns at most one purchase of a skill: once the purchase of
/// `skill_id` by `buyer` has been recorded, a second attempt by the same buyer
/// is refused with `AlreadyExists` (and a refused purchase changes nothing).
pub proof fn lemma_purchase_is_unique(
    before: SkillRegistry,
    after: SkillRegistry,
    buyer: Address,
    skill_id: String,
    now: i64,
)
    requires
        SkillRegistry::purchase_step(before, after, buyer, skill_id, now),
    ensures
        after.purchase_outcome(buyer.bytes@, skill_id@) == Err::<(), ErrorCode>(
            ErrorCode::AlreadyExists,
        ),
{
    let id = skill_id@;
    let si = before.skill_at(id);
    let s = before.skills@[si];
    let ai = before.seller_at(id);
    let a = before.agents@[ai];
    let (fee, seller_amount) = before.quote_of(id);
    lemma_find_found(before.skills@, listed_as(id), 0);
    lemma_find_found(before.agents@, owned_by(s.publisher.bytes@), 0);
    let s1 = Skill {
        total_purchases: (s.total_purchases + 1) as u64,
        total_revenue: (s.total_revenue + s.price_usdc) as u64,
        ..s
    };
    let a1 = Agent {
        skills_sold: (a.skills_sold + 1) as u64,
        total_earnings: (a.total_earnings + seller_amount) as u64,
        ..a
    };
    let p1 = Purchase {
        buyer,
        skill_id,
        price_paid: s.price_usdc,
        fee_paid: fee,
        purchased_at: now,
        rating: 0,
    };
    lemma_find_update(before.skills@, listed_as(id), si, s1, 0);
    assert(after.skill_at(id) == si);
    assert(after.skill_of(id) == s1);
    lemma_find_update(before.agents@, owned_by(s.publisher.bytes@), ai, a1, 0);
    assert(after.seller_at(id) == ai);
    lemma_find_push(before.purchases@, bought_by(buyer.bytes@, id), p1, 0);
    assert(after.purchase_at(buyer.bytes@, id) == before.purchases@.len());
}

/// A rating is written once: after the purchase of `buyer` for the skill `id`
/// has been rated, any further valid rating of it is refused with
/// `AlreadyRated` (and a refused rating changes no average).
pub proof fn lemma_rating_is_write_once(
    before: SkillRegistry,
    after: SkillRegistry,
    caller: Seq<u8>,
    buyer: Seq<u8>,
    id: Seq<char>,
    rating: u8,
    second: u8,
)
    requires
        before.rate_outcome(caller, buyer, id, rating) is Ok,
        SkillRegistry::rate_step(before, after, buyer, id, rating),
        valid_rating(second as nat),
    ensures
        after.rate_outcome(caller, buyer, id, second) == Err::<(), ErrorCode>(
            ErrorCode::AlreadyRated,
        ),
{
    let pi = before.purchase_at(buyer, id);
    let p = before.purchases@[pi];
    let si = before.skill_at(id);
    let s = before.skills@[si];
    let ai = before.seller_at(id);
    let a = before.agents@[ai];
    lemma_find_found(before.purchases@, bought_by(buyer, id), 0);
    lemma_find_found(before.skills@, listed_as(id), 0);
    lemma_find_found(before.agents@, owned_by(s.publisher.bytes@), 0);
    lemma_find_update(before.purchases@, bought_by(buyer, id), pi, Purchase { rating, ..p }, 0);
    assert(after.purchase_at(buyer, id) == pi);
    let s1 = after.skills@[si];
    lemma_find_update(before.skills@, listed_as(id), si, s1, 0);
    assert(after.skill_at(id) == si);
    let a1 = after.agents@[ai];
    lemma_find_update(before.agents@, owned_by(s.publisher.bytes@), ai, a1, 0);
    assert(after.seller_at(id) == ai);
}

/// A withdrawn skill cannot be bought: once the skill `id` has been
/// deactivated, every purchase of it is refused with `SkillNotActive`.
pub proof fn lemma_deactivated_skill_not_purchasable(
    before: SkillRegistry,
    after: SkillRegistry,
    id: Seq<char>,
    now: i64,
    buyer: Seq<u8>,
)
    requires
        before.marketplace is Some,
        SkillRegistry::deactivate_step(before, after, id, now),
    ensures
        after.purchase_outcome(buyer, id) == Err::<(), ErrorCode>(ErrorCode::SkillNotActive),
{
    let si = before.skill_at(id);
    let s = before.skills@[si];
    lemma_find_found(before.skills@, listed_as(id), 0);
    lemma_find_update(before.skills@, listed_as(id), si, Skill { is_active: false, updated_at: now, ..s }, 0);
    assert(after.skill_at(id) == si);
}

/// Only a skill's publisher may change it: any other caller is refused with
/// `Unauthorized`, both for a price update and for a deactivation.
pub proof fn lemma_only_publisher_changes_skill(reg: SkillRegistry, caller: Seq<u8>, id: Seq<char>)
    requires
        reg.skill_at(id) != -1,
        caller != reg.skill_of(id).publisher.bytes@,
    ensures
        reg.publisher_outcome(caller, id) == Err::<(), ErrorCode>(ErrorCode::Unauthorized),
{
}

/// Sales counters never wrap: when a purchase is otherwise allowed but one of
/// the sale counts it raises is already at its largest value, it is refused
/// with `Overflow`.
pub proof fn lemma_purchase_counter_at_max(reg: SkillRegistry, buyer: Seq<u8>, id: Seq<char>)
    requires
        reg.marketplace is Some,
        reg.skill_at(id) != -1,
        reg.skill_of(id).is_active,
        reg.seller_at(id) != -1,
        reg.purchase_at(buyer, id) == -1,
        reg.skill_of(id).total_purchases == u64::MAX || reg.agents@[reg.seller_at(id)].skills_sold
            == u64::MAX || reg.marketplace->Some_0.total_purchases == u64::MAX,
    ensures
        reg.purchase_outcome(buyer, id) == Err::<(), ErrorCode>(ErrorCode::Overflow),
{
}

} // verus!
