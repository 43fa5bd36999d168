//! Commission arithmetic: the marketplace's cut of a sale and the artist's
//! payout, with the proof that the split conserves the price exactly.

use vstd::arithmetic::div_mod::{
    lemma_div_is_ordered, lemma_div_multiples_vanish, lemma_div_pos_is_pos,
};
use vstd::arithmetic::mul::{
    lemma_mul_inequality, lemma_mul_is_commutative, lemma_mul_upper_bound,
};
use vstd::prelude::*;

verus! {

/// One whole of a price, in basis points: a commission rate is a share of
/// this scale, so a rate of 1000 means 10%.
pub const BASIS_POINT_SCALE: u16 = 10_000;

/// The marketplace's commission on a sale of `price` at a rate of `rate`
/// basis points: `price * rate / 10_000`, rounded down.
pub open spec fn fee_amount(price: u64, rate: u16) -> int {
    (price * rate) / (BASIS_POINT_SCALE as int)
}

/// The artist's share of a sale: the price less the commission.
pub open spec fn artist_payout(price: u64, rate: u16) -> int {
    price - fee_amount(price, rate)
}

/// A commission rate never exceeds the whole scale, so the fee is never
/// negative and never exceeds the price.
pub proof fn lemma_fee_amount_bounds(price: u64, rate: u16)
    requires
        rate <= BASIS_POINT_SCALE,
    ensures
        0 <= fee_amount(price, rate) <= price,
{
    let p = price as int;
    let r = rate as int;
    let s = BASIS_POINT_SCALE as int;
    lemma_mul_inequality(0, r, p);
    lemma_mul_inequality(r, s, p);
    lemma_mul_is_commutative(p, r);
    lemma_mul_is_commutative(p, s);
    lemma_div_pos_is_pos(p * r, s);
    lemma_div_is_ordered(p * r, s * p, s);
    lemma_div_multiples_vanish(p, s);
}

/// No value is created or destroyed by the payment split: the commission and
/// the artist's payout sum to the price exactly, and each share lies between
/// zero and the price.
pub proof fn lemma_fee_split_conserves_value(price: u64, rate: u16)
    requires
        rate <= BASIS_POINT_SCALE,
    ensures
        fee_amount(price, rate) + artist_payout(price, rate) == price,
        0 <= fee_amount(price, rate) <= price,
        0 <= artist_payout(price, rate) <= price,
{
    lemma_fee_amount_bounds(price, rate);
}

/// Computes the commission on a sale of `price` at `rate` basis points.
pub fn compute_fee(price: u64, rate: u16) -> (fee: u64)
    requires
        rate <= BASIS_POINT_SCALE,
    ensures
        fee == fee_amount(price, rate),
        fee <= price,
{
    proof {
        lemma_fee_amount_bounds(price, rate);
        lemma_mul_upper_bound(price as int, u64::MAX as int, rate as int, 10_000);
    }
    (((price as u128) * (rate as u128)) / (BASIS_POINT_SCALE as u128)) as u64
}

} // verus!
