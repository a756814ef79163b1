//! Products of two 64-bit amounts, divided and rounded in 128 bits.
//!
//! Every amount the engine computes is a product of two balances divided by a
//! third. The product of two `u64` always fits in a `u128`, so nothing here
//! can wrap.

use vstd::arithmetic::div_mod::{
    lemma_div_pos_is_pos, lemma_fundamental_div_mod, lemma_fundamental_div_mod_converse,
    lemma_mod_bound,
};
use vstd::arithmetic::mul::lemma_mul_is_commutative;
use vstd::prelude::*;

verus! {

/// `a * b / d`, rounded down.
pub open spec fn spec_mul_div_floor(a: int, b: int, d: int) -> int
    recommends
        d > 0,
{
    (a * b) / d
}

/// `a * b / d`, rounded up.
pub open spec fn spec_mul_div_ceil(a: int, b: int, d: int) -> int
    recommends
        d > 0,
{
    (a * b + d - 1) / d
}

/// The product of two 64-bit values fits in 128 bits.
pub proof fn lemma_product_fits(a: u64, b: u64)
    ensures
        0 <= a * b <= 0xffff_ffff_ffff_ffff * 0xffff_ffff_ffff_ffff,
        a * b + 0xffff_ffff_ffff_ffff <= u128::MAX,
{
    assert(0 <= a * b <= 0xffff_ffff_ffff_ffff * 0xffff_ffff_ffff_ffff) by (nonlinear_arith)
        requires
            0 <= a <= 0xffff_ffff_ffff_ffff,
            0 <= b <= 0xffff_ffff_ffff_ffff,
    ;
}

/// Rounding down loses less than one unit: the quotient `q` is the one
/// integer with `q * d <= n < (q + 1) * d`.
pub proof fn lemma_floor_bounds(n: int, d: int)
    requires
        0 <= n,
        0 < d,
    ensures
        0 <= n / d,
        (n / d) * d <= n < (n / d) * d + d,
{
    lemma_fundamental_div_mod(n, d);
    lemma_mod_bound(n, d);
    lemma_div_pos_is_pos(n, d);
    lemma_mul_is_commutative(d, n / d);
}

/// Rounding up adds less than one unit: the quotient `c` is the one integer
/// with `(c - 1) * d < n <= c * d`.
pub proof fn lemma_ceil_bounds(n: int, d: int)
    requires
        0 <= n,
        0 < d,
    ensures
        0 <= (n + d - 1) / d,
        n <= ((n + d - 1) / d) * d < n + d,
{
    lemma_floor_bounds(n + d - 1, d);
}

/// A quotient is the floor exactly when it lies within the floor's bounds.
pub proof fn lemma_floor_unique(n: int, d: int, q: int)
    requires
        0 < d,
        q * d <= n < q * d + d,
    ensures
        n / d == q,
{
    lemma_mul_is_commutative(d, q);
    lemma_fundamental_div_mod_converse(n, d, q, n - q * d);
}

/// `a * b / d` rounded down, computed in 128 bits.
pub fn mul_div_floor(a: u64, b: u64, d: u64) -> (q: u128)
    requires
        d > 0,
    ensures
        q == spec_mul_div_floor(a as int, b as int, d as int),
{
    proof {
        lemma_product_fits(a, b);
    }
    let product: u128 = a as u128 * b as u128;
    product / d as u128
}

/// `a * b / d` rounded up, computed in 128 bits.
pub fn mul_div_ceil(a: u64, b: u64, d: u64) -> (q: u128)
    requires
        d > 0,
    ensures
        q == spec_mul_div_ceil(a as int, b as int, d as int),
{
    proof {
        lemma_product_fits(a, b);
    }
    let product: u128 = a as u128 * b as u128;
    (product + (d as u128 - 1)) / d as u128
}

} // verus!
