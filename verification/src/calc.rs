//! Proportional arithmetic: `floor(amount * numerator / denominator)` over
//! 64-bit amounts, computed in 128 bits, with the floor-division bounds that
//! the proportionality and solvency laws rest on.

use vstd::prelude::*;
use vstd::arithmetic::div_mod::{
    lemma_div_is_ordered, lemma_div_multiples_vanish, lemma_div_pos_is_pos,
    lemma_fundamental_div_mod, lemma_mod_bound,
};
use vstd::arithmetic::mul::{lemma_mul_inequality, lemma_mul_is_commutative, lemma_mul_nonnegative};
use crate::error::CalcError;

verus! {

/// `floor(amount * numerator / denominator)` as a 64-bit amount.
/// A zero denominator scales by one (the amount passes through unchanged);
/// a quotient that does not fit in 64 bits is a calculation failure.
pub open spec fn spec_proportional(amount: u64, numerator: u64, denominator: u64) -> Result<
    u64,
    CalcError,
> {
    if denominator == 0 {
        Ok(amount)
    } else if amount * numerator / (denominator as int) > u64::MAX {
        Err(CalcError::CalculationFailure)
    } else {
        Ok((amount * numerator / (denominator as int)) as u64)
    }
}

/// Computes `floor(amount * numerator / denominator)`, carrying the product in
/// 128 bits so the multiplication itself cannot overflow.
pub fn proportional(amount: u64, numerator: u64, denominator: u64) -> (r: Result<u64, CalcError>)
    ensures
        r == spec_proportional(amount, numerator, denominator),
{
    if denominator == 0 {
        return Ok(amount);
    }
    proof {
        assert((amount as int) * (numerator as int) <= u128::MAX) by (nonlinear_arith);
    }
    let product: u128 = (amount as u128) * (numerator as u128);
    let quotient: u128 = product / (denominator as u128);
    if quotient > u64::MAX as u128 {
        Err(CalcError::CalculationFailure)
    } else {
        Ok(quotient as u64)
    }
}

/// Floor division stays within one rounding unit of exact proportionality:
/// with `q = floor(x / d)` and `d > 0`, `q * d <= x < (q + 1) * d`, and `q`
/// is never negative.
pub proof fn lemma_floor_div_bounds(x: int, d: int)
    requires
        0 <= x,
        0 < d,
    ensures
        0 <= x / d,
        (x / d) * d <= x,
        x < (x / d + 1) * d,
{
    lemma_fundamental_div_mod(x, d);
    lemma_mod_bound(x, d);
    lemma_div_pos_is_pos(x, d);
    lemma_mul_is_commutative(x / d, d);
    assert((x / d + 1) * d == (x / d) * d + d) by (nonlinear_arith);
}

/// A proportional share of at most the whole never exceeds the reserve:
/// for `amount <= denominator`, `floor(amount * numerator / denominator)`
/// is at most `numerator`.
pub proof fn lemma_proportional_share_bounded(amount: u64, numerator: u64, denominator: u64)
    requires
        0 < denominator,
        amount <= denominator,
    ensures
        0 <= amount * numerator / (denominator as int) <= numerator,
        spec_proportional(amount, numerator, denominator) == Ok::<u64, CalcError>(
            (amount * numerator / (denominator as int)) as u64,
        ),
{
    let a = amount as int;
    let n = numerator as int;
    let d = denominator as int;
    lemma_mul_nonnegative(a, n);
    lemma_div_pos_is_pos(a * n, d);
    lemma_mul_inequality(a, d, n);
    lemma_div_is_ordered(a * n, d * n, d);
    lemma_mul_is_commutative(d, n);
    lemma_div_multiples_vanish(n, d);
}

} // verus!
