//! Packed claim identity keys.
//!
//! A claim is identified by the log entry it came from: block number,
//! transaction index and log index, packed by 64-bit place value into one
//! combined integer. The packed value needs 192 bits, so the key is kept as
//! its three 64-bit digits and compared digit by digit; the comparison is
//! proved equal to comparing the packed values.

use vstd::prelude::*;

verus! {

/// `2^64`, the radix of the packed key's three digits.
pub open spec fn key_radix() -> int {
    0x1_0000_0000_0000_0000
}

/// Identity key of one claim slot: the packed integer
/// `block_number * 2^128 + tx_index * 2^64 + log_index`, kept as its digits.
#[derive(Clone, Copy, Debug, PartialEq, Eq, Structural)]
pub struct ClaimKey {
    pub block_number: u64,
    pub tx_index: u64,
    pub log_index: u64,
}

impl ClaimKey {
    /// The packed integer value of this key.
    pub open spec fn value(self) -> int {
        self.block_number * key_radix() * key_radix() + self.tx_index * key_radix()
            + self.log_index
    }

    /// The all-zero key, whose packed value is `0`; it marks padding slots.
    pub fn zero() -> (r: ClaimKey)
        ensures
            r == (ClaimKey { block_number: 0, tx_index: 0, log_index: 0 }),
            r.value() == 0,
    {
        ClaimKey { block_number: 0, tx_index: 0, log_index: 0 }
    }

    /// Whether the packed value is `0`.
    pub fn is_zero(&self) -> (r: bool)
        ensures
            r == (self.value() == 0),
    {
        self.block_number == 0 && self.tx_index == 0 && self.log_index == 0
    }

    /// Strict order on packed values, computed digit by digit.
    pub fn lt(&self, other: &ClaimKey) -> (r: bool)
        ensures
            r == (self.value() < other.value()),
    {
        proof {
            lemma_value_order(*self, *other);
        }
        if self.block_number != other.block_number {
            self.block_number < other.block_number
        } else if self.tx_index != other.tx_index {
            self.tx_index < other.tx_index
        } else {
            self.log_index < other.log_index
        }
    }

    /// This key masked by a 0/1 indicator: each digit is multiplied by the
    /// indicator, which masks the packed value as a whole.
    pub fn masked(&self, ind: u64) -> (r: ClaimKey)
        requires
            ind <= 1,
        ensures
            r == (if ind == 1 {
                *self
            } else {
                ClaimKey { block_number: 0, tx_index: 0, log_index: 0 }
            }),
            r.value() == (if ind == 1 {
                self.value()
            } else {
                0int
            }),
    {
        ClaimKey {
            block_number: crate::indicator::mask_u64(self.block_number, ind),
            tx_index: crate::indicator::mask_u64(self.tx_index, ind),
            log_index: crate::indicator::mask_u64(self.log_index, ind),
        }
    }
}

/// Digit-wise lexicographic order of two keys.
pub open spec fn lex_lt(a: ClaimKey, b: ClaimKey) -> bool {
    a.block_number < b.block_number || (a.block_number == b.block_number && (a.tx_index
        < b.tx_index || (a.tx_index == b.tx_index && a.log_index < b.log_index)))
}

/// Packed key values are ordered exactly as their digit sequences: place
/// value with radix `2^64` respects lexicographic order of 64-bit digits.
pub proof fn lemma_value_order(a: ClaimKey, b: ClaimKey)
    ensures
        (a.value() < b.value()) == lex_lt(a, b),
{
    assert(a.tx_index * key_radix() <= (key_radix() - 1) * key_radix());
    assert(b.tx_index * key_radix() <= (key_radix() - 1) * key_radix());
    if a.block_number < b.block_number {
        assert(a.block_number * key_radix() * key_radix() + key_radix() * key_radix()
            <= b.block_number * key_radix() * key_radix());
    } else if a.block_number == b.block_number {
        if a.tx_index < b.tx_index {
            assert(a.tx_index * key_radix() + key_radix() <= b.tx_index * key_radix());
        }
    } else {
        assert(b.block_number * key_radix() * key_radix() + key_radix() * key_radix()
            <= a.block_number * key_radix() * key_radix());
    }
}

} // verus!
