//! Fixed-point scalars.
//!
//! Spatial quantities (coordinates, lengths, distances) are signed integers
//! counting units of one millionth of a meter.  Quotients of such quantities
//! are formed with truncating (round-toward-zero) division, which
//! [`div_trunc`] and [`div_signed`] define exactly.

use vstd::prelude::*;

verus! {

/// Number of fixed-point units in one meter.
pub const SCALE: i64 = 1_000_000;

/// Magnitude cap on the coordinates the geometry accepts: 100 meters.
///
/// Keeping inputs under this cap lets every intermediate product fit in
/// `i128` and every projected coordinate fit in `i64`.
pub const COORD_LIMIT: i64 = 100_000_000;

/// Round-toward-zero division, defined for a positive divisor.
pub open spec fn div_trunc(a: int, b: int) -> int {
    if a >= 0 {
        a / b
    } else {
        -((-a) / b)
    }
}

/// Round-toward-zero division for any nonzero divisor.
pub open spec fn div_signed(a: int, b: int) -> int {
    if b >= 0 {
        div_trunc(a, b)
    } else {
        div_trunc(-a, -b)
    }
}

/// Truncating division computes `div_trunc` exactly.
pub fn div_trunc_i128(a: i128, b: i128) -> (q: i128)
    requires
        b > 0,
    ensures
        q == div_trunc(a as int, b as int),
{
    match a.checked_div(b) {
        Some(q) => q,
        None => {
            proof {
                assert(false);
            }
            0
        },
    }
}

/// Truncating division computes `div_signed` exactly.
pub fn div_signed_i128(a: i128, b: i128) -> (q: i128)
    requires
        b != 0,
        a > i128::MIN,
        b > i128::MIN,
    ensures
        q == div_signed(a as int, b as int),
{
    if b > 0 {
        div_trunc_i128(a, b)
    } else {
        div_trunc_i128(-a, -b)
    }
}

/// A product is bounded by the product of its factors' bounds.
pub proof fn lemma_mul_bound(a: int, b: int, ma: int, mb: int)
    by (nonlinear_arith)
    requires
        0 <= ma,
        0 <= mb,
        -ma <= a <= ma,
        -mb <= b <= mb,
    ensures
        -(ma * mb) <= a * b <= ma * mb,
{
}

/// The magnitude of a truncated quotient is at most the magnitude bound of
/// the dividend divided by the divisor.
pub proof fn lemma_div_trunc_bound(a: int, b: int, m: int)
    requires
        b > 0,
        0 <= m,
        -m <= a <= m,
    ensures
        -(m / b) <= div_trunc(a, b) <= m / b,
{
    if a >= 0 {
        vstd::arithmetic::div_mod::lemma_div_is_ordered(a, m, b);
        vstd::arithmetic::div_mod::lemma_div_pos_is_pos(a, b);
    } else {
        vstd::arithmetic::div_mod::lemma_div_is_ordered(-a, m, b);
        vstd::arithmetic::div_mod::lemma_div_pos_is_pos(-a, b);
    }
}

/// Same bound for `div_signed`: only the divisor's sign differs.
pub proof fn lemma_div_signed_bound(a: int, b: int, m: int)
    requires
        b != 0,
        0 <= m,
        -m <= a <= m,
    ensures
        -(m / (vstd::math::abs(b) as int)) <= div_signed(a, b) <= m / (vstd::math::abs(b) as int),
{
    if b > 0 {
        lemma_div_trunc_bound(a, b, m);
    } else {
        lemma_div_trunc_bound(-a, -b, m);
    }
}

} // verus!
