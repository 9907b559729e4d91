//! X64.64 fixed-point arithmetic.
//!
//! Prices are unsigned 128-bit values with 64 integer bits and 64 fractional
//! bits. Multiplying a base amount by such a price and shifting right by 64
//! yields quote units, truncated (floored) toward zero. The truncation
//! direction is part of the settlement rules and is pinned down exactly here.

use vstd::prelude::*;
use vstd::arithmetic::div_mod::lemma_div_is_ordered;
use vstd::arithmetic::div_mod::lemma_div_pos_is_pos;
use vstd::arithmetic::mul::lemma_mul_nonnegative;
use vstd::arithmetic::power2::lemma2_to64_rest;
use vstd::bits::lemma_u128_shr_is_div;

verus! {

/// The product of a base amount and an X64.64 price, floored to whole quote
/// units: `(a * b) / 2^64` over unbounded integers.
pub open spec fn spec_mul_shift(a: u64, b: u128) -> int {
    (a * b) / 0x1_0000_0000_0000_0000
}

/// `spec_mul_shift` never goes negative.
pub proof fn lemma_mul_shift_nonneg(a: u64, b: u128)
    ensures
        0 <= spec_mul_shift(a, b),
{
    lemma_mul_nonnegative(a as int, b as int);
    lemma_div_pos_is_pos(a * b, 0x1_0000_0000_0000_0000);
}

/// When the full product fits in 128 bits, the shifted result fits in 64.
pub proof fn lemma_mul_shift_fits(a: u64, b: u128)
    requires
        a * b <= u128::MAX,
    ensures
        0 <= spec_mul_shift(a, b) <= u64::MAX,
{
    lemma_mul_shift_nonneg(a, b);
    lemma_div_is_ordered(a * b, u128::MAX as int, 0x1_0000_0000_0000_0000);
}

/// A zero base amount prices to zero quote units.
pub proof fn lemma_mul_shift_zero_amount(b: u128)
    ensures
        spec_mul_shift(0, b) == 0,
{
}

/// A zero price prices any amount to zero quote units.
pub proof fn lemma_mul_shift_zero_price(a: u64)
    ensures
        spec_mul_shift(a, 0) == 0,
{
}

/// A price of exactly 1.0 (the X64.64 scale itself) is the identity.
pub proof fn lemma_mul_shift_unit_price(a: u64)
    ensures
        spec_mul_shift(a, 0x1_0000_0000_0000_0000) == a,
{
}

/// The priced value grows with both the amount and the price.
pub proof fn lemma_mul_shift_monotonic(a1: u64, b1: u128, a2: u64, b2: u128)
    requires
        a1 <= a2,
        b1 <= b2,
    ensures
        spec_mul_shift(a1, b1) <= spec_mul_shift(a2, b2),
{
    assert(a1 * b1 <= a2 * b2) by (nonlinear_arith)
        requires
            a1 <= a2,
            b1 <= b2,
            0 <= a1,
            0 <= b1,
    ;
    lemma_div_is_ordered(a1 * b1, a2 * b2, 0x1_0000_0000_0000_0000);
}

/// Multiply a base amount by an X64.64 price and floor to quote units.
///
/// The caller must rule out overflow of the 128-bit intermediate product;
/// settlement never invokes this on inputs that would overflow.
pub fn mul_shift_128(a: u64, b: u128) -> (r: u64)
    requires
        a * b <= u128::MAX,
    ensures
        r == spec_mul_shift(a, b),
{
    let wide: u128 = (a as u128) * b;
    let shifted: u128 = wide >> 64u128;
    proof {
        lemma_u128_shr_is_div(wide, 64);
        lemma2_to64_rest();
        lemma_mul_shift_fits(a, b);
    }
    shifted as u64
}

/// `mul_shift_128` behind an overflow check: `None` exactly when the 128-bit
/// intermediate product would overflow.
pub fn checked_mul_shift_128(a: u64, b: u128) -> (r: Option<u64>)
    ensures
        (match r {
            Some(v) => a * b <= u128::MAX && v == spec_mul_shift(a, b),
            None => a * b > u128::MAX,
        }),
{
    match (a as u128).checked_mul(b) {
        Some(_) => Some(mul_shift_128(a, b)),
        None => None,
    }
}

} // verus!
