//! The transfer fee: a rate in basis points of the transfer amount, rounded
//! up, and the remainder that the rounding adds.

use vstd::arithmetic::div_mod::{lemma_fundamental_div_mod, lemma_mod_bound};
use vstd::prelude::*;

verus! {

/// One whole in basis points.
pub const ONE_IN_BASIS_POINTS: u64 = 10_000;

/// The fee on `amount` at `rate` basis points, rounded up: the least `fee`
/// with `fee * 10000 >= amount * rate`.
pub open spec fn raw_fee(amount: u64, rate: u16) -> int {
    (amount * rate + 9999) / 10000
}

/// What rounding the fee up adds, in basis points of a token:
/// `raw_fee * 10000 - amount * rate`.
pub open spec fn fee_delta(amount: u64, rate: u16) -> int {
    raw_fee(amount, rate) * 10000 - amount * rate
}

/// Computes the fee on `amount` at `rate` basis points, rounded up, and the
/// remainder that the rounding adds; `None` when the fee exceeds `u64::MAX`.
pub fn calculate_fee(amount: u64, rate: u16) -> (r: Option<(u64, u64)>)
    ensures
        0 <= fee_delta(amount, rate) < 10000,
        r is Some <==> raw_fee(amount, rate) <= u64::MAX,
        r matches Some(p) ==> p.0 == raw_fee(amount, rate) && p.1 == fee_delta(amount, rate),
{
    assert(amount * rate <= 0xffff_ffff_ffff_ffff * 0xffff) by (nonlinear_arith)
        requires
            amount <= 0xffff_ffff_ffff_ffffu64,
            rate <= 0xffffu16,
            amount >= 0,
            rate >= 0,
    ;
    let numerator: u128 = amount as u128 * rate as u128;
    proof {
        lemma_fundamental_div_mod(numerator + 9999, 10000);
        lemma_mod_bound(numerator + 9999, 10000);
    }
    let fee: u128 = (numerator + 9999) / 10000;
    let delta: u128 = fee * 10000 - numerator;
    if fee > u64::MAX as u128 {
        None
    } else {
        Some((fee as u64, delta as u64))
    }
}

} // verus!
