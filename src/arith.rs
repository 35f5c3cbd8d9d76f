use vstd::prelude::*;

use vstd::arithmetic::div_mod::{lemma_div_is_ordered, lemma_multiply_divide_le};

verus! {

/// Two 64-bit factors never overflow a 128-bit product.
pub proof fn lemma_mul_fits_u128(a: u64, b: u64)
    ensures
        (a as int) * (b as int) <= u128::MAX,
{
    assert((a as int) * (b as int) <= (u64::MAX as int) * (u64::MAX as int)) by (nonlinear_arith);
}

/// `floor(a * b / d)`, computed in 128 bits so that the product cannot overflow.
pub fn mul_div_floor(a: u64, b: u64, d: u64) -> (r: u128)
    requires
        d > 0,
    ensures
        r as int == (a as int) * (b as int) / (d as int),
{
    proof {
        lemma_mul_fits_u128(a, b);
    }
    let p: u128 = (a as u128) * (b as u128);
    p / (d as u128)
}

/// A quotient is bounded by `c` when the dividend is at most `c` times the divisor.
pub proof fn lemma_quotient_at_most(p: int, q: int, c: int)
    requires
        q > 0,
        p <= c * q,
    ensures
        p / q <= c,
{
    vstd::arithmetic::mul::lemma_mul_is_commutative(c, q);
    lemma_multiply_divide_le(p, q, c);
}

/// Floor division keeps the order of the dividends.
pub proof fn lemma_quotient_ordered(x: int, y: int, d: int)
    requires
        x <= y,
        d > 0,
    ensures
        x / d <= y / d,
{
    lemma_div_is_ordered(x, y, d);
}

/// The floor of a quotient, multiplied back, does not exceed the dividend.
pub proof fn lemma_quotient_times_divisor(x: int, d: int)
    requires
        x >= 0,
        d > 0,
    ensures
        (x / d) * d <= x,
        x < (x / d) * d + d,
        x / d >= 0,
{
    vstd::arithmetic::div_mod::lemma_fundamental_div_mod(x, d);
    vstd::arithmetic::div_mod::lemma_mod_bound(x, d);
    vstd::arithmetic::div_mod::lemma_div_pos_is_pos(x, d);
    vstd::arithmetic::mul::lemma_mul_is_commutative(d, x / d);
}

} // verus!
