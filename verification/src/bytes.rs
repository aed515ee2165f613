//! Byte order reversal of the unsigned integers.
//!
//! The standard library's `swap_bytes` does the work. This module says what
//! it returns, byte by byte, and gives the result as a closed form over
//! shifts.
use vstd::prelude::*;

verus! {

/// The two bytes of `v` in reverse order.
pub open spec fn reverse_bytes_u16(v: u16) -> u16 {
    (v << 8) | (v >> 8)
}

/// The four bytes of `v` in reverse order: each half reversed, and the
/// halves exchanged.
pub open spec fn reverse_bytes_u32(v: u32) -> u32 {
    ((reverse_bytes_u16(v as u16) as u32) << 16) | (reverse_bytes_u16((v >> 16) as u16) as u32)
}

/// The eight bytes of `v` in reverse order: each half reversed, and the
/// halves exchanged.
pub open spec fn reverse_bytes_u64(v: u64) -> u64 {
    ((reverse_bytes_u32(v as u32) as u64) << 32) | (reverse_bytes_u32((v >> 32) as u32) as u64)
}

/// The sixteen bytes of `v` in reverse order: each half reversed, and the
/// halves exchanged.
pub open spec fn reverse_bytes_u128(v: u128) -> u128 {
    ((reverse_bytes_u64(v as u64) as u128) << 64) | (reverse_bytes_u64((v >> 64) as u64) as u128)
}

/// Byte `k` of `v`, byte 0 being the least significant.
pub open spec fn byte_of_u16(v: u16, k: u16) -> u16 {
    (v >> ((8 * k) as u16)) & 0xff
}

/// Whether `r` holds the two bytes of `v` in reverse order: byte `k` of
/// `r` is byte `1 - k` of `v`.
pub open spec fn is_byte_reversal_u16(v: u16, r: u16) -> bool {
    forall|k: u16| k < 2 ==> #[trigger] byte_of_u16(r, k) == byte_of_u16(v, (1 - k) as u16)
}

/// `u16::swap_bytes` of the standard library reverses the order of the
/// two bytes of its argument.
pub assume_specification[ u16::swap_bytes ](v: u16) -> (r: u16)
    ensures
        is_byte_reversal_u16(v, r),
;

/// The value with each of its bytes taken from `v` in reverse order is
/// `reverse_bytes_u16(v)`.
proof fn lemma_reverse_bytes_each_u16(v: u16, r: u16)
    by (bit_vector)
    requires
        byte_of_u16(r, 0) == byte_of_u16(v, 1),
        byte_of_u16(r, 1) == byte_of_u16(v, 0),
    ensures
        r == reverse_bytes_u16(v),
{
}

/// Only `reverse_bytes_u16(v)` holds the bytes of `v` in reverse order.
pub proof fn lemma_byte_reversal_u16(v: u16, r: u16)
    requires
        is_byte_reversal_u16(v, r),
    ensures
        r == reverse_bytes_u16(v),
{
    lemma_reverse_bytes_each_u16(v, r);
}

/// Byte `k` of `v`, byte 0 being the least significant.
pub open spec fn byte_of_u32(v: u32, k: u32) -> u32 {
    (v >> ((8 * k) as u32)) & 0xff
}

/// Whether `r` holds the four bytes of `v` in reverse order: byte `k` of
/// `r` is byte `3 - k` of `v`.
pub open spec fn is_byte_reversal_u32(v: u32, r: u32) -> bool {
    forall|k: u32| k < 4 ==> #[trigger] byte_of_u32(r, k) == byte_of_u32(v, (3 - k) as u32)
}

/// `u32::swap_bytes` of the standard library reverses the order of the
/// four bytes of its argument.
pub assume_specification[ u32::swap_bytes ](v: u32) -> (r: u32)
    ensures
        is_byte_reversal_u32(v, r),
;

/// The value with each of its bytes taken from `v` in reverse order is
/// `reverse_bytes_u32(v)`.
proof fn lemma_reverse_bytes_each_u32(v: u32, r: u32)
    by (bit_vector)
    requires
        byte_of_u32(r, 0) == byte_of_u32(v, 3),
        byte_of_u32(r, 1) == byte_of_u32(v, 2),
        byte_of_u32(r, 2) == byte_of_u32(v, 1),
        byte_of_u32(r, 3) == byte_of_u32(v, 0),
    ensures
        r == reverse_bytes_u32(v),
{
}

/// Only `reverse_bytes_u32(v)` holds the bytes of `v` in reverse order.
pub proof fn lemma_byte_reversal_u32(v: u32, r: u32)
    requires
        is_byte_reversal_u32(v, r),
    ensures
        r == reverse_bytes_u32(v),
{
    lemma_reverse_bytes_each_u32(v, r);
}

/// Byte `k` of `v`, byte 0 being the least significant.
pub open spec fn byte_of_u64(v: u64, k: u64) -> u64 {
    (v >> ((8 * k) as u64)) & 0xff
}

/// Whether `r` holds the eight bytes of `v` in reverse order: byte `k` of
/// `r` is byte `7 - k` of `v`.
pub open spec fn is_byte_reversal_u64(v: u64, r: u64) -> bool {
    forall|k: u64| k < 8 ==> #[trigger] byte_of_u64(r, k) == byte_of_u64(v, (7 - k) as u64)
}

/// `u64::swap_bytes` of the standard library reverses the order of the
/// eight bytes of its argument.
pub assume_specification[ u64::swap_bytes ](v: u64) -> (r: u64)
    ensures
        is_byte_reversal_u64(v, r),
;

/// The value with each of its bytes taken from `v` in reverse order is
/// `reverse_bytes_u64(v)`.
proof fn lemma_reverse_bytes_each_u64(v: u64, r: u64)
    by (bit_vector)
    requires
        byte_of_u64(r, 0) == byte_of_u64(v, 7),
        byte_of_u64(r, 1) == byte_of_u64(v, 6),
        byte_of_u64(r, 2) == byte_of_u64(v, 5),
        byte_of_u64(r, 3) == byte_of_u64(v, 4),
        byte_of_u64(r, 4) == byte_of_u64(v, 3),
        byte_of_u64(r, 5) == byte_of_u64(v, 2),
        byte_of_u64(r, 6) == byte_of_u64(v, 1),
        byte_of_u64(r, 7) == byte_of_u64(v, 0),
    ensures
        r == reverse_bytes_u64(v),
{
}

/// Only `reverse_bytes_u64(v)` holds the bytes of `v` in reverse order.
pub proof fn lemma_byte_reversal_u64(v: u64, r: u64)
    requires
        is_byte_reversal_u64(v, r),
    ensures
        r == reverse_bytes_u64(v),
{
    lemma_reverse_bytes_each_u64(v, r);
}

/// Byte `k` of `v`, byte 0 being the least significant.
pub open spec fn byte_of_u128(v: u128, k: u128) -> u128 {
    (v >> ((8 * k) as u128)) & 0xff
}

/// Whether `r` holds the sixteen bytes of `v` in reverse order: byte `k` of
/// `r` is byte `15 - k` of `v`.
pub open spec fn is_byte_reversal_u128(v: u128, r: u128) -> bool {
    forall|k: u128| k < 16 ==> #[trigger] byte_of_u128(r, k) == byte_of_u128(v, (15 - k) as u128)
}

/// `u128::swap_bytes` of the standard library reverses the order of the
/// sixteen bytes of its argument.
pub assume_specification[ u128::swap_bytes ](v: u128) -> (r: u128)
    ensures
        is_byte_reversal_u128(v, r),
;

/// The value with each of its bytes taken from `v` in reverse order is
/// `reverse_bytes_u128(v)`.
proof fn lemma_reverse_bytes_each_u128(v: u128, r: u128)
    by (bit_vector)
    requires
        byte_of_u128(r, 0) == byte_of_u128(v, 15),
        byte_of_u128(r, 1) == byte_of_u128(v, 14),
        byte_of_u128(r, 2) == byte_of_u128(v, 13),
        byte_of_u128(r, 3) == byte_of_u128(v, 12),
        byte_of_u128(r, 4) == byte_of_u128(v, 11),
        byte_of_u128(r, 5) == byte_of_u128(v, 10),
        byte_of_u128(r, 6) == byte_of_u128(v, 9),
        byte_of_u128(r, 7) == byte_of_u128(v, 8),
        byte_of_u128(r, 8) == byte_of_u128(v, 7),
        byte_of_u128(r, 9) == byte_of_u128(v, 6),
        byte_of_u128(r, 10) == byte_of_u128(v, 5),
        byte_of_u128(r, 11) == byte_of_u128(v, 4),
        byte_of_u128(r, 12) == byte_of_u128(v, 3),
        byte_of_u128(r, 13) == byte_of_u128(v, 2),
        byte_of_u128(r, 14) == byte_of_u128(v, 1),
        byte_of_u128(r, 15) == byte_of_u128(v, 0),
    ensures
        r == reverse_bytes_u128(v),
{
}

/// Only `reverse_bytes_u128(v)` holds the bytes of `v` in reverse order.
pub proof fn lemma_byte_reversal_u128(v: u128, r: u128)
    requires
        is_byte_reversal_u128(v, r),
    ensures
        r == reverse_bytes_u128(v),
{
    lemma_reverse_bytes_each_u128(v, r);
}

} // verus!
