//! 0/1 indicator values and indicator-weighted selection.
//!
//! Every data-dependent decision in the library is expressed through these
//! primitives: a comparison becomes a 0/1 value, and "choose one of two
//! contributions" becomes a product with that value, so evaluation follows a
//! fixed operation sequence for every input.

use vstd::prelude::*;

verus! {

/// Indicator of the strict comparison `a < b`.
pub fn ind_lt(a: u64, b: u64) -> (r: u64)
    ensures
        r <= 1,
        (r == 1) <==> a < b,
{
    if a < b {
        1
    } else {
        0
    }
}

/// Indicator of the equality `a == b`.
pub fn ind_eq(a: u64, b: u64) -> (r: u64)
    ensures
        r <= 1,
        (r == 1) <==> a == b,
{
    if a == b {
        1
    } else {
        0
    }
}

/// Indicator of `a == 0`.
pub fn ind_is_zero(a: u64) -> (r: u64)
    ensures
        r <= 1,
        (r == 1) <==> a == 0,
{
    if a == 0 {
        1
    } else {
        0
    }
}

/// Indicator conjunction, as a product of 0/1 values.
pub fn ind_and(a: u64, b: u64) -> (r: u64)
    requires
        a <= 1,
        b <= 1,
    ensures
        r <= 1,
        (r == 1) <==> (a == 1 && b == 1),
{
    a * b
}

/// Masks `x` by a 0/1 indicator: the product `x * ind`, so a cleared
/// indicator zeroes the contribution without a data-dependent branch.
pub fn mask_u64(x: u64, ind: u64) -> (r: u64)
    requires
        ind <= 1,
    ensures
        r == (if ind == 1 {
            x
        } else {
            0u64
        }),
{
    proof {
        assert(x * 1 == x && x * 0 == 0) by (nonlinear_arith);
    }
    x * ind
}

/// Masks a `u128` value by a 0/1 indicator.
pub fn mask_u128(x: u128, ind: u128) -> (r: u128)
    requires
        ind <= 1,
    ensures
        r == (if ind == 1 {
            x
        } else {
            0u128
        }),
{
    proof {
        assert(x * 1 == x && x * 0 == 0) by (nonlinear_arith);
    }
    x * ind
}

} // verus!
