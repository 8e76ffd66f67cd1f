use skill_registry::address::Address;
use skill_registry::fee::split_fee;
use skill_registry::rating::fold_rating;
use skill_registry::records::{AuthType, ErrorCode};
use skill_registry::registry::SkillRegistry;
use skill_registry::token::{purchase_transfers, TokenAccounts};

fn addr(b: u8) -> Address {
    Address::new([b; 32])
}

fn s(x: &str) -> String {
    x.to_string()
}

const PUBLISHER: u8 = 1;
const BUYER: u8 = 2;
const ADMIN: u8 = 9;

/// A marketplace at `fee_bps` with one agent and one listed skill "dex-v1".
fn setup(fee_bps: u16, price: u64) -> SkillRegistry {
    let mut reg = SkillRegistry::new();
    reg.initialize_marketplace(addr(ADMIN), fee_bps).unwrap();
    reg.register_agent(addr(PUBLISHER), s("seller"), s("ipfs://seller"), 100).unwrap();
    reg.register_skill(
        addr(PUBLISHER),
        s("dex-v1"),
        s("Dex"),
        s("Token prices"),
        3,
        AuthType::ApiKey,
        price,
        s("ipfs://dex"),
        200,
    )
    .unwrap();
    reg
}

fn buy(reg: &mut SkillRegistry, buyer: u8, id: &str) -> Result<(u64, u64), ErrorCode> {
    reg.purchase_skill(addr(buyer), s(id), 300, true).map(|q| (q.fee, q.seller_amount))
}

#[test]
fn fee_split_at_half_rate_rounds_fee_down() {
    assert_eq!(split_fee(1, 5000), (0, 1));
}

#[test]
fn fee_split_at_two_and_a_half_percent() {
    assert_eq!(split_fee(1_000_000, 250), (25_000, 975_000));
}

#[test]
fn fee_split_on_largest_price_does_not_overflow() {
    let (fee, rest) = split_fee(u64::MAX, 5000);
    assert_eq!(fee, u64::MAX / 2);
    assert_eq!(fee + rest, u64::MAX);
}

#[test]
fn fee_split_with_zero_rate() {
    assert_eq!(split_fee(123, 0), (0, 123));
}

#[test]
fn fold_rating_running_average_sequence() {
    let (a1, c1) = fold_rating(0, 0, 5).unwrap();
    assert_eq!((a1, c1), (5, 1));
    let (a2, c2) = fold_rating(a1, c1, 1).unwrap();
    assert_eq!((a2, c2), (3, 2));
    let (a3, c3) = fold_rating(a2, c2, 4).unwrap();
    assert_eq!((a3, c3), (3, 3));
}

#[test]
fn fold_rating_count_at_max_overflows() {
    assert_eq!(fold_rating(5, u64::MAX, 3), Err(ErrorCode::Overflow));
}

#[test]
fn initialize_sets_zeroed_counters() {
    let mut reg = SkillRegistry::new();
    assert_eq!(reg.initialize_marketplace(addr(ADMIN), 250), Ok(()));
    let m = reg.marketplace.as_ref().unwrap();
    assert!(m.authority.same_as(&addr(ADMIN)));
    assert_eq!(m.fee_bps, 250);
    assert_eq!((m.total_skills, m.total_purchases, m.total_volume_usdc), (0, 0, 0));
}

#[test]
fn initialize_rejects_fee_above_half() {
    let mut reg = SkillRegistry::new();
    assert_eq!(reg.initialize_marketplace(addr(ADMIN), 5001), Err(ErrorCode::FeeTooHigh));
    assert!(reg.marketplace.is_none());
    assert_eq!(reg.initialize_marketplace(addr(ADMIN), 5000), Ok(()));
}

#[test]
fn initialize_twice_already_exists() {
    let mut reg = SkillRegistry::new();
    reg.initialize_marketplace(addr(ADMIN), 100).unwrap();
    assert_eq!(reg.initialize_marketplace(addr(3), 200), Err(ErrorCode::AlreadyExists));
    assert_eq!(reg.marketplace.as_ref().unwrap().fee_bps, 100);
}

#[test]
fn register_agent_twice_already_exists() {
    let mut reg = SkillRegistry::new();
    assert_eq!(reg.register_agent(addr(4), s("a"), s("u"), 7), Ok(()));
    assert_eq!(reg.register_agent(addr(4), s("b"), s("v"), 8), Err(ErrorCode::AlreadyExists));
    let a = reg.agent(&addr(4)).unwrap();
    assert_eq!(a.name, "a");
    assert_eq!(a.created_at, 7);
    assert_eq!(reg.agents.len(), 1);
}

#[test]
fn register_agent_field_bounds() {
    let mut reg = SkillRegistry::new();
    assert_eq!(reg.register_agent(addr(4), "n".repeat(33), s("u"), 0), Err(ErrorCode::NameTooLong));
    assert_eq!(reg.register_agent(addr(4), s("n"), "u".repeat(201), 0), Err(ErrorCode::UriTooLong));
    assert_eq!(reg.register_agent(addr(4), "n".repeat(32), "u".repeat(200), 0), Ok(()));
}

#[test]
fn register_skill_counts_on_agent_and_marketplace() {
    let reg = setup(250, 1_000_000);
    let sk = reg.skill(&s("dex-v1")).unwrap();
    assert!(sk.is_active);
    assert_eq!(sk.price_usdc, 1_000_000);
    assert_eq!(sk.auth_type, AuthType::ApiKey);
    assert_eq!(sk.endpoint_count, 3);
    assert_eq!((sk.created_at, sk.updated_at), (200, 200));
    assert_eq!((sk.total_purchases, sk.total_revenue, sk.avg_rating, sk.total_ratings), (0, 0, 0, 0));
    assert_eq!(reg.agent(&addr(PUBLISHER)).unwrap().skills_published, 1);
    assert_eq!(reg.marketplace.as_ref().unwrap().total_skills, 1);
}

#[test]
fn register_skill_errors() {
    let mut reg = setup(250, 10);
    let mut try_reg = |who: u8, id: String, name: String, desc: String, price: u64| {
        reg.register_skill(addr(who), id, name, desc, 1, AuthType::NoAuth, price, s("u"), 0)
    };
    assert_eq!(try_reg(7, s("x"), s("n"), s("d"), 1), Err(ErrorCode::NotFound));
    assert_eq!(try_reg(PUBLISHER, s("dex-v1"), s("n"), s("d"), 1), Err(ErrorCode::AlreadyExists));
    assert_eq!(try_reg(PUBLISHER, "i".repeat(65), s("n"), s("d"), 1), Err(ErrorCode::SkillIdTooLong));
    assert_eq!(try_reg(PUBLISHER, s("x"), "n".repeat(65), s("d"), 1), Err(ErrorCode::NameTooLong));
    assert_eq!(try_reg(PUBLISHER, s("x"), s("n"), "d".repeat(257), 1), Err(ErrorCode::DescriptionTooLong));
    assert_eq!(try_reg(PUBLISHER, s("x"), s("n"), s("d"), 0), Err(ErrorCode::PriceMustBePositive));
    assert_eq!(reg.skills.len(), 1);
    assert_eq!(reg.agent(&addr(PUBLISHER)).unwrap().skills_published, 1);
}

#[test]
fn register_skill_needs_marketplace() {
    let mut reg = SkillRegistry::new();
    reg.register_agent(addr(PUBLISHER), s("a"), s("u"), 0).unwrap();
    let r = reg.register_skill(addr(PUBLISHER), s("x"), s("n"), s("d"), 1, AuthType::Bearer, 5, s("u"), 0);
    assert_eq!(r, Err(ErrorCode::NotFound));
}

#[test]
fn full_purchase_scenario() {
    let mut reg = setup(250, 1_000_000);
    let q = reg.quote_purchase(&addr(BUYER), &s("dex-v1")).unwrap();
    assert_eq!((q.price, q.fee, q.seller_amount), (1_000_000, 25_000, 975_000));
    assert!(q.seller.same_as(&addr(PUBLISHER)));
    assert_eq!(buy(&mut reg, BUYER, "dex-v1"), Ok((25_000, 975_000)));
    let p = reg.purchase(&addr(BUYER), &s("dex-v1")).unwrap();
    assert_eq!((p.price_paid, p.fee_paid, p.rating, p.purchased_at), (1_000_000, 25_000, 0, 300));
    let a = reg.agent(&addr(PUBLISHER)).unwrap();
    assert_eq!((a.skills_sold, a.total_earnings), (1, 975_000));
    let sk = reg.skill(&s("dex-v1")).unwrap();
    assert_eq!((sk.total_purchases, sk.total_revenue), (1, 1_000_000));
    let m = reg.marketplace.as_ref().unwrap();
    assert_eq!((m.total_purchases, m.total_volume_usdc), (1, 1_000_000));
}

#[test]
fn second_purchase_of_same_pair_already_exists() {
    let mut reg = setup(250, 1_000_000);
    buy(&mut reg, BUYER, "dex-v1").unwrap();
    assert_eq!(buy(&mut reg, BUYER, "dex-v1"), Err(ErrorCode::AlreadyExists));
    assert_eq!(reg.purchases.len(), 1);
    let a = reg.agent(&addr(PUBLISHER)).unwrap();
    assert_eq!((a.skills_sold, a.total_earnings), (1, 975_000));
    let m = reg.marketplace.as_ref().unwrap();
    assert_eq!((m.total_purchases, m.total_volume_usdc), (1, 1_000_000));
    // Another buyer may still purchase.
    assert_eq!(buy(&mut reg, 5, "dex-v1"), Ok((25_000, 975_000)));
}

#[test]
fn failed_transfer_records_nothing() {
    let mut reg = setup(250, 1_000_000);
    let r = reg.purchase_skill(addr(BUYER), s("dex-v1"), 300, false);
    assert_eq!(r.err(), Some(ErrorCode::TransferFailed));
    assert!(reg.purchase(&addr(BUYER), &s("dex-v1")).is_none());
    assert_eq!(reg.marketplace.as_ref().unwrap().total_purchases, 0);
    assert_eq!(reg.skill(&s("dex-v1")).unwrap().total_purchases, 0);
}

#[test]
fn purchase_of_unknown_skill_not_found() {
    let mut reg = setup(250, 10);
    assert_eq!(buy(&mut reg, BUYER, "nope"), Err(ErrorCode::NotFound));
}

#[test]
fn deactivated_skill_cannot_be_purchased() {
    let mut reg = setup(250, 1_000_000);
    assert_eq!(reg.deactivate_skill(&addr(PUBLISHER), &s("dex-v1"), 400), Ok(()));
    assert_eq!(buy(&mut reg, BUYER, "dex-v1"), Err(ErrorCode::SkillNotActive));
    assert!(reg.quote_purchase(&addr(BUYER), &s("dex-v1")).is_err());
    assert!(reg.purchases.is_empty());
    assert_eq!(reg.marketplace.as_ref().unwrap().total_purchases, 0);
    // Deactivating again is accepted.
    assert_eq!(reg.deactivate_skill(&addr(PUBLISHER), &s("dex-v1"), 500), Ok(()));
    assert_eq!(reg.skill(&s("dex-v1")).unwrap().updated_at, 500);
}

#[test]
fn only_publisher_may_change_skill() {
    let mut reg = setup(250, 1_000_000);
    assert_eq!(reg.update_skill_price(&addr(BUYER), &s("dex-v1"), 5, 400), Err(ErrorCode::Unauthorized));
    assert_eq!(reg.deactivate_skill(&addr(BUYER), &s("dex-v1"), 400), Err(ErrorCode::Unauthorized));
    let sk = reg.skill(&s("dex-v1")).unwrap();
    assert_eq!((sk.price_usdc, sk.is_active, sk.updated_at), (1_000_000, true, 200));
}

#[test]
fn publisher_updates_price() {
    let mut reg = setup(250, 1_000_000);
    assert_eq!(reg.update_skill_price(&addr(PUBLISHER), &s("dex-v1"), 0, 400), Err(ErrorCode::PriceMustBePositive));
    assert_eq!(reg.update_skill_price(&addr(PUBLISHER), &s("dex-v1"), 2_000_000, 400), Ok(()));
    let sk = reg.skill(&s("dex-v1")).unwrap();
    assert_eq!((sk.price_usdc, sk.updated_at), (2_000_000, 400));
    assert_eq!(buy(&mut reg, BUYER, "dex-v1"), Ok((50_000, 1_950_000)));
}

#[test]
fn rating_twice_already_rated() {
    let mut reg = setup(250, 1_000_000);
    buy(&mut reg, BUYER, "dex-v1").unwrap();
    assert_eq!(reg.rate_skill(&addr(BUYER), &addr(BUYER), &s("dex-v1"), 4), Ok(()));
    assert_eq!(reg.rate_skill(&addr(BUYER), &addr(BUYER), &s("dex-v1"), 1), Err(ErrorCode::AlreadyRated));
    let sk = reg.skill(&s("dex-v1")).unwrap();
    assert_eq!((sk.avg_rating, sk.total_ratings), (4, 1));
    let a = reg.agent(&addr(PUBLISHER)).unwrap();
    assert_eq!((a.reputation_score, a.total_ratings), (4, 1));
    assert_eq!(reg.purchase(&addr(BUYER), &s("dex-v1")).unwrap().rating, 4);
}

#[test]
fn rating_errors() {
    let mut reg = setup(250, 1_000_000);
    assert_eq!(reg.rate_skill(&addr(BUYER), &addr(BUYER), &s("dex-v1"), 3), Err(ErrorCode::NotFound));
    buy(&mut reg, BUYER, "dex-v1").unwrap();
    assert_eq!(reg.rate_skill(&addr(7), &addr(BUYER), &s("dex-v1"), 3), Err(ErrorCode::Unauthorized));
    assert_eq!(reg.rate_skill(&addr(BUYER), &addr(BUYER), &s("dex-v1"), 0), Err(ErrorCode::InvalidRating));
    assert_eq!(reg.rate_skill(&addr(BUYER), &addr(BUYER), &s("dex-v1"), 6), Err(ErrorCode::InvalidRating));
    assert_eq!(reg.purchase(&addr(BUYER), &s("dex-v1")).unwrap().rating, 0);
}

#[test]
fn ratings_five_one_four_average_five_three_three() {
    let mut reg = setup(250, 1_000_000);
    let mut avgs = Vec::new();
    for (buyer, rating) in [(10u8, 5u8), (11, 1), (12, 4)] {
        buy(&mut reg, buyer, "dex-v1").unwrap();
        reg.rate_skill(&addr(buyer), &addr(buyer), &s("dex-v1"), rating).unwrap();
        avgs.push(reg.skill(&s("dex-v1")).unwrap().avg_rating);
        assert_eq!(reg.agent(&addr(PUBLISHER)).unwrap().reputation_score, *avgs.last().unwrap());
    }
    assert_eq!(avgs, vec![5, 3, 3]);
    assert_eq!(reg.skill(&s("dex-v1")).unwrap().total_ratings, 3);
}

#[test]
fn purchase_counter_at_max_overflows() {
    let mut reg = setup(250, 1_000_000);
    reg.marketplace.as_mut().unwrap().total_purchases = u64::MAX;
    assert_eq!(buy(&mut reg, BUYER, "dex-v1"), Err(ErrorCode::Overflow));
    assert!(reg.purchases.is_empty());
    assert_eq!(reg.agent(&addr(PUBLISHER)).unwrap().skills_sold, 0);
}

#[test]
fn earnings_at_limit_overflow() {
    let mut reg = setup(0, 1_000_000);
    reg.agents[0].total_earnings = u64::MAX - 999_999;
    assert_eq!(buy(&mut reg, BUYER, "dex-v1"), Err(ErrorCode::Overflow));
    reg.agents[0].total_earnings = u64::MAX - 1_000_000;
    assert_eq!(buy(&mut reg, BUYER, "dex-v1"), Ok((0, 1_000_000)));
    assert_eq!(reg.agents[0].total_earnings, u64::MAX);
}

#[test]
fn rating_counter_at_max_overflows() {
    let mut reg = setup(250, 1_000_000);
    buy(&mut reg, BUYER, "dex-v1").unwrap();
    reg.skills[0].total_ratings = u64::MAX;
    assert_eq!(reg.rate_skill(&addr(BUYER), &addr(BUYER), &s("dex-v1"), 5), Err(ErrorCode::Overflow));
    assert_eq!(reg.purchase(&addr(BUYER), &s("dex-v1")).unwrap().rating, 0);
    assert_eq!(reg.agent(&addr(PUBLISHER)).unwrap().total_ratings, 0);
}

#[test]
fn skill_published_counter_at_max_overflows() {
    let mut reg = setup(250, 1);
    reg.agents[0].skills_published = u64::MAX;
    let r = reg.register_skill(addr(PUBLISHER), s("y"), s("n"), s("d"), 1, AuthType::OAuth, 5, s("u"), 0);
    assert_eq!(r, Err(ErrorCode::Overflow));
    assert_eq!(reg.skills.len(), 1);
}

#[test]
fn error_kinds() {
    assert!(ErrorCode::FeeTooHigh.is_invalid_parameter());
    assert!(ErrorCode::InvalidRating.is_invalid_parameter());
    assert!(!ErrorCode::AlreadyExists.is_invalid_parameter());
    assert!(!ErrorCode::Overflow.is_invalid_parameter());
}

#[test]
fn address_comparison_is_bytewise() {
    let mut b = [3u8; 32];
    assert!(addr(3).same_as(&Address::new(b)));
    b[31] = 4;
    assert!(!addr(3).same_as(&Address::new(b)));
    assert_eq!(Address::new(b).to_bytes(), b);
}

fn token_accounts(program: [u8; 32]) -> TokenAccounts {
    TokenAccounts {
        token_program: Address::new(program),
        buyer_token: addr(20),
        seller_token: addr(21),
        treasury_token: addr(22),
    }
}

#[test]
fn purchase_transfers_pay_seller_and_treasury() {
    let reg = setup(250, 1_000_000);
    let q = reg.quote_purchase(&addr(BUYER), &s("dex-v1")).unwrap();
    let ixs = purchase_transfers(&q, &token_accounts(spl_token::id().to_bytes()), &addr(BUYER)).unwrap();
    assert_eq!(ixs.len(), 2);
    let mut seller_data = vec![3u8];
    seller_data.extend_from_slice(&975_000u64.to_le_bytes());
    let mut fee_data = vec![3u8];
    fee_data.extend_from_slice(&25_000u64.to_le_bytes());
    assert_eq!(ixs[0].data, seller_data);
    assert_eq!(ixs[1].data, fee_data);
    assert_eq!(ixs[0].program_id, spl_token::id());
    assert_eq!(ixs[0].accounts[1].pubkey.to_bytes(), [21u8; 32]);
    assert_eq!(ixs[1].accounts[1].pubkey.to_bytes(), [22u8; 32]);
    assert_eq!(ixs[1].accounts[2].pubkey.to_bytes(), [BUYER; 32]);
}

#[test]
fn purchase_transfers_skip_zero_fee() {
    let reg = setup(0, 1_000_000);
    let q = reg.quote_purchase(&addr(BUYER), &s("dex-v1")).unwrap();
    let ixs = purchase_transfers(&q, &token_accounts(spl_token::id().to_bytes()), &addr(BUYER)).unwrap();
    assert_eq!(ixs.len(), 1);
}

#[test]
fn purchase_transfers_need_token_program() {
    let reg = setup(250, 1_000_000);
    let q = reg.quote_purchase(&addr(BUYER), &s("dex-v1")).unwrap();
    let r = purchase_transfers(&q, &token_accounts([7u8; 32]), &addr(BUYER));
    assert_eq!(r.err(), Some(ErrorCode::TransferFailed));
}
