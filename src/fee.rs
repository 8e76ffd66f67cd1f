use vstd::prelude::*;

verus! {

/// Largest marketplace fee rate, in basis points (50%).
pub const MAX_FEE_BPS: u16 = 5000;

/// Basis points in a whole.
pub const BPS_DENOMINATOR: u64 = 10000;

/// The marketplace's cut of a sale: the fee rate applied to the price, rounded down.
pub open spec fn fee_of(price: nat, fee_bps: nat) -> nat {
    (price * fee_bps) / 10000
}

/// Splits a sale price into `(fee, seller_amount)`.
///
/// The fee is computed with a 128-bit intermediate product, so no price
/// overflows; the seller receives exactly what remains of the price.
pub fn split_fee(price: u64, fee_bps: u16) -> (r: (u64, u64))
    requires
        fee_bps <= MAX_FEE_BPS,
    ensures
        r.0 == fee_of(price as nat, fee_bps as nat),
        r.0 + r.1 == price,
{
    proof {
        assert((price as nat) * (fee_bps as nat) <= 0xffff_ffff_ffff_ffff * 5000) by (nonlinear_arith)
            requires
                fee_bps <= 5000,
                price <= 0xffff_ffff_ffff_ffff,
        ;
    }
    let wide: u128 = (price as u128) * (fee_bps as u128);
    let fee_wide: u128 = wide / (BPS_DENOMINATOR as u128);
    proof {
        lemma_fee_at_most_half(price as nat, fee_bps as nat);
    }
    let fee: u64 = fee_wide as u64;
    let seller_amount: u64 = price - fee;
    (fee, seller_amount)
}

/// With a rate of at most 5000 basis points the fee never exceeds half the price.
pub proof fn lemma_fee_at_most_half(price: nat, fee_bps: nat)
    requires
        fee_bps <= 5000,
    ensures
        fee_of(price, fee_bps) <= price / 2,
        fee_of(price, fee_bps) <= price,
{
    assert(price * fee_bps <= price * 5000) by (nonlinear_arith)
        requires
            fee_bps <= 5000,
    ;
    assert((price * fee_bps) / 10000 <= (price * 5000) / 10000) by (nonlinear_arith)
        requires
            price * fee_bps <= price * 5000,
    ;
    assert((price * 5000) / 10000 == price / 2) by (nonlinear_arith);
}

/// Fee splitting is exact: for every admissible rate and positive price, the
/// fee is the rounded-down share and fee plus seller amount is the price.
pub proof fn lemma_split_fee_exact(price: u64, fee_bps: u16)
    requires
        fee_bps <= MAX_FEE_BPS,
        price > 0,
    ensures
        fee_of(price as nat, fee_bps as nat) + (price - fee_of(price as nat, fee_bps as nat))
            == price,
        fee_of(price as nat, fee_bps as nat) == (price as nat * fee_bps as nat) / 10000,
        fee_of(price as nat, fee_bps as nat) < price,
{
    lemma_fee_at_most_half(price as nat, fee_bps as nat);
}

} // verus!
