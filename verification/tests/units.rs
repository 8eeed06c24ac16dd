//! Component tests: keys, indicators, name-length estimation, pricing.

use ens_referral::batch::{registrar_address, REGISTRAR_ADDRESS_HI, REGISTRAR_ADDRESS_LO};
use ens_referral::indicator::{ind_and, ind_eq, ind_is_zero, ind_lt, mask_u128, mask_u64};
use ens_referral::key::ClaimKey;
use ens_referral::pricing::tier_price;
use ens_referral::strlen::estimate_name_length;

fn prefix(bytes: &[u8]) -> [u8; 24] {
    let mut out = [0u8; 24];
    let mut i = 0;
    while i < bytes.len() && i < 24 {
        out[i] = bytes[i];
        i += 1;
    }
    out
}

#[test]
fn indicators_reflect_comparisons() {
    assert_eq!(ind_lt(3, 4), 1);
    assert_eq!(ind_lt(4, 4), 0);
    assert_eq!(ind_eq(4, 4), 1);
    assert_eq!(ind_eq(4, 5), 0);
    assert_eq!(ind_is_zero(0), 1);
    assert_eq!(ind_is_zero(9), 0);
    assert_eq!(ind_and(1, 1), 1);
    assert_eq!(ind_and(1, 0), 0);
}

#[test]
fn masking_selects_or_zeroes() {
    assert_eq!(mask_u64(55, 1), 55);
    assert_eq!(mask_u64(55, 0), 0);
    assert_eq!(mask_u128(u64::MAX as u128 + 7, 1), u64::MAX as u128 + 7);
    assert_eq!(mask_u128(u64::MAX as u128 + 7, 0), 0);
}

#[test]
fn claim_key_order_is_by_place_value() {
    let a = ClaimKey { block_number: 1, tx_index: 9, log_index: 9 };
    let b = ClaimKey { block_number: 2, tx_index: 0, log_index: 0 };
    assert!(a.lt(&b));
    assert!(!b.lt(&a));
    let c = ClaimKey { block_number: 2, tx_index: 0, log_index: 1 };
    assert!(b.lt(&c));
    let d = ClaimKey { block_number: 2, tx_index: 1, log_index: 0 };
    assert!(c.lt(&d));
    assert!(!d.lt(&d));
}

#[test]
fn claim_key_zero_detection() {
    assert!(ClaimKey::zero().is_zero());
    assert!(!ClaimKey { block_number: 0, tx_index: 0, log_index: 1 }.is_zero());
    let k = ClaimKey { block_number: 3, tx_index: 2, log_index: 1 };
    assert_eq!(k.masked(1), k);
    assert!(k.masked(0).is_zero());
}

#[test]
fn ascii_names_count_every_byte() {
    assert_eq!(estimate_name_length(&prefix(b"hello"), 5), 5);
    assert_eq!(estimate_name_length(&prefix(b""), 0), 0);
    assert_eq!(estimate_name_length(&prefix(b"abcdefghijklmnopqrstuvwx"), 24), 24);
}

#[test]
fn long_names_cap_at_prefix() {
    // True byte length past the 24-byte prefix: only the prefix is counted.
    assert_eq!(estimate_name_length(&prefix(b"abcdefghijklmnopqrstuvwx"), 30), 24);
}

#[test]
fn two_byte_sequence_counts_once() {
    // One two-byte character: lead byte 0xC3, continuation 0xA9.
    assert_eq!(estimate_name_length(&prefix(&[0xC3, 0xA9]), 2), 1);
}

#[test]
fn mixed_width_name_counts_characters() {
    // Three-byte lead 0xE2 consumes two continuation bytes, then one ASCII.
    assert_eq!(estimate_name_length(&prefix(&[0xE2, 0x82, 0xAC, 0x61]), 4), 2);
}

#[test]
fn bytes_past_true_length_do_not_count() {
    // True length 3 within a longer buffer: trailing bytes stay uncounted.
    assert_eq!(estimate_name_length(&prefix(b"abcdef"), 3), 3);
}

#[test]
fn full_price_above_four_characters() {
    assert_eq!(tier_price(5, 1000), 1000);
    assert_eq!(tier_price(24, 1000), 1000);
}

#[test]
fn four_character_tier_divides_by_32() {
    assert_eq!(tier_price(4, 1000), 31);
}

#[test]
fn three_character_tier_divides_by_128() {
    assert_eq!(tier_price(3, 1000), 7);
}

#[test]
fn below_three_characters_no_tier() {
    assert_eq!(tier_price(2, 1000), 0);
    assert_eq!(tier_price(1, 1000), 0);
    assert_eq!(tier_price(0, 1000), 0);
}

#[test]
fn registrar_address_constants_agree() {
    let a = registrar_address();
    assert_eq!(a.hi, REGISTRAR_ADDRESS_HI);
    assert_eq!(a.lo, REGISTRAR_ADDRESS_LO);
    assert_eq!(a.hi, 0x74b4f05c);
    assert_eq!(a.lo, 0x75b47035bfc41bda77440f9c6c05e5ae);
}
