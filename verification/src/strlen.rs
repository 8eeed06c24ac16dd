//! Name-length estimation over a fixed 24-byte prefix.
//!
//! The registrar's character-counting convention is reproduced over the first
//! 24 bytes of a name payload: each byte is classified by how many of the
//! leading-bit thresholds `0x80, 0xE0, 0xF0, 0xF8, 0xFC` it is strictly below,
//! which yields an encoded width of 1 to 6 bytes; a byte starts a character
//! when no earlier character is still being skipped and the byte lies within
//! the payload's true length. Malformed bytes are never rejected, only
//! classified by threshold.

use vstd::prelude::*;

verus! {

/// Encoded width of the character led by `b`: `6` minus the number of the
/// thresholds `0x80, 0xE0, 0xF0, 0xF8, 0xFC` that `b` is strictly below.
pub open spec fn byte_width(b: u8) -> int {
    if b < 0x80 {
        1
    } else if b < 0xE0 {
        2
    } else if b < 0xF0 {
        3
    } else if b < 0xF8 {
        4
    } else if b < 0xFC {
        5
    } else {
        6
    }
}

/// The character count reached from byte position `j` onward, given the
/// count `len` and skip counter `skip` accumulated so far. A byte is counted
/// when `skip == 0` and `j` lies within the true byte length; counting a byte
/// starts skipping the remaining `byte_width - 1` bytes of its character.
pub open spec fn strlen_from(bytes: Seq<u8>, byte_len: int, j: int, len: int, skip: int) -> int
    decreases 24 - j,
{
    if j < 0 || j >= 24 {
        len
    } else if skip == 0 {
        if j < byte_len {
            strlen_from(bytes, byte_len, j + 1, len + 1, byte_width(bytes[j]) - 1)
        } else {
            strlen_from(bytes, byte_len, j + 1, len, byte_width(bytes[j]) - 1)
        }
    } else {
        strlen_from(bytes, byte_len, j + 1, len, skip - 1)
    }
}

/// The estimated character count of a name: the scan of its 24-byte prefix
/// starting with both counters at zero.
pub open spec fn estimated_len(bytes: Seq<u8>, byte_len: int) -> int {
    strlen_from(bytes, byte_len, 0, 0, 0)
}

/// Scans the 24-byte prefix of a name payload and returns the estimated
/// character count. `byte_len` is the payload's true byte length, which may
/// exceed 24; bytes past the prefix are never inspected.
pub fn estimate_name_length(name_bytes: &[u8; 24], byte_len: u64) -> (r: u64)
    ensures
        r == estimated_len(name_bytes@, byte_len as int),
        r <= 24,
{
    let mut len: u64 = 0;
    let mut skip: u64 = 0;
    for j in 0..24usize
        invariant
            len <= j,
            skip <= 5,
            strlen_from(name_bytes@, byte_len as int, j as int, len as int, skip as int)
                == estimated_len(name_bytes@, byte_len as int),
    {
        let b = name_bytes[j] as u64;
        let checks_sum = crate::indicator::ind_lt(b, 0x80) + crate::indicator::ind_lt(b, 0xE0)
            + crate::indicator::ind_lt(b, 0xF0) + crate::indicator::ind_lt(b, 0xF8)
            + crate::indicator::ind_lt(b, 0xFC);
        let width = 6 - checks_sum;
        let in_bounds = crate::indicator::ind_lt(j as u64, byte_len);
        let not_skip = crate::indicator::ind_is_zero(skip);
        let should_add = crate::indicator::ind_and(not_skip, in_bounds);
        assert(width == byte_width(name_bytes@[j as int]));
        skip = skip + crate::indicator::mask_u64(width, not_skip) - 1;
        len = len + should_add;
    }
    len
}

/// Once the scan has passed the payload's true byte length, the character
/// count can no longer grow: the remaining bytes contribute nothing.
pub proof fn lemma_tail_past_length(bytes: Seq<u8>, byte_len: int, j: int, len: int, skip: int)
    requires
        byte_len <= j,
    ensures
        strlen_from(bytes, byte_len, j, len, skip) == len,
    decreases 24 - j,
{
    if 0 <= j < 24 {
        if skip == 0 {
            lemma_tail_past_length(bytes, byte_len, j + 1, len, byte_width(bytes[j]) - 1);
        } else {
            lemma_tail_past_length(bytes, byte_len, j + 1, len, skip - 1);
        }
    }
}

proof fn lemma_ascii_from(bytes: Seq<u8>, byte_len: int, j: int, len: int)
    requires
        bytes.len() == 24,
        0 <= j <= byte_len,
        byte_len <= 24,
        forall|k: int| j <= k < byte_len ==> bytes[k] < 0x80,
    ensures
        strlen_from(bytes, byte_len, j, len, 0) == len + (byte_len - j),
    decreases byte_len - j,
{
    if j == byte_len {
        lemma_tail_past_length(bytes, byte_len, j, len, 0);
    } else {
        assert(bytes[j] < 0x80);
        lemma_ascii_from(bytes, byte_len, j + 1, len + 1);
    }
}

/// An all-ASCII payload (every byte below `0x80`) of true byte length
/// `byte_len <= 24` counts exactly `byte_len` characters.
pub proof fn lemma_ascii_length(bytes: Seq<u8>, byte_len: int)
    requires
        bytes.len() == 24,
        0 <= byte_len <= 24,
        forall|k: int| 0 <= k < byte_len ==> bytes[k] < 0x80,
    ensures
        estimated_len(bytes, byte_len) == byte_len,
{
    lemma_ascii_from(bytes, byte_len, 0, 0);
}

/// A payload of true byte length 2 whose first byte leads a two-byte
/// character (`0x80 <= bytes[0] < 0xE0`) counts as one character: the lead
/// byte is counted and its continuation byte is skipped.
pub proof fn lemma_two_byte_char(bytes: Seq<u8>)
    requires
        bytes.len() == 24,
        0x80 <= bytes[0] < 0xE0,
    ensures
        estimated_len(bytes, 2) == 1,
{
    assert(strlen_from(bytes, 2, 0, 0, 0) == strlen_from(bytes, 2, 1, 1, 1));
    assert(strlen_from(bytes, 2, 1, 1, 1) == strlen_from(bytes, 2, 2, 1, 0));
    lemma_tail_past_length(bytes, 2, 2, 1, 0);
}

} // verus!
