//! Tiered price scaling by estimated name length.
//!
//! Three mutually exclusive tiers: a length above 4 keeps the full amount, a
//! length of exactly 4 keeps a 1/32 share, a length of exactly 3 keeps a
//! 1/128 share (integer division, remainder discarded). Lengths below 3
//! select no tier, so their scaled price is zero; whether such claims should
//! instead be rejected is left to the caller, which sees the zero
//! contribution stated exactly.

use vstd::prelude::*;

verus! {

/// The scaled price of one claim: the tier selected by `length` applied to
/// `amount`, and `0` where no tier is defined (`length < 3`).
pub open spec fn scaled_price(length: int, amount: int) -> int {
    if length > 4 {
        amount
    } else if length == 4 {
        amount / 32
    } else if length == 3 {
        amount / 128
    } else {
        0
    }
}

/// Selects the tier price by an indicator-weighted sum: exactly one tier
/// indicator is set for any `length >= 3`, and none below.
pub fn tier_price(length: u64, amount: u64) -> (r: u64)
    ensures
        r == scaled_price(length as int, amount as int),
        r <= amount,
{
    let is_full = crate::indicator::ind_lt(4, length);
    let is_four = crate::indicator::ind_eq(length, 4);
    let is_three = crate::indicator::ind_eq(length, 3);
    let four_char_scaled = amount / 32;
    let three_char_scaled = amount / 128;
    crate::indicator::mask_u64(amount, is_full) + crate::indicator::mask_u64(
        four_char_scaled,
        is_four,
    ) + crate::indicator::mask_u64(three_char_scaled, is_three)
}

} // verus!
