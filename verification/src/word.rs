//! Bit reversal of the unsigned integers, written with shifts and masks.
//!
//! For each width, `reverse_uN` is a closed form over the machine's own
//! operations, and `lemma_reverse_uN` shows that it computes
//! [`reverse_bits`] at that width.
use crate::bytes::{reverse_bytes_u128, reverse_bytes_u16, reverse_bytes_u32, reverse_bytes_u64};
use crate::model::{bit, lemma_reverse_bits_unique, reverse_bits};
use vstd::bits::*;
use vstd::layout::unsigned_int_max_values;
use vstd::prelude::*;

verus! {

/// The bits of `v` in reverse order: neighbouring bits are exchanged, then
/// neighbouring pairs, then the two nibbles.
pub open spec fn reverse_in_bytes_u8(v: u8) -> u8 {
    let v = ((v >> 1) & 0x55) | ((v & 0x55) << 1);
    let v = ((v >> 2) & 0x33) | ((v & 0x33) << 2);
    ((v >> 4) & 0x0f) | ((v & 0x0f) << 4)
}

/// The eight bits of `v` in reverse order.
pub open spec fn reverse_u8(v: u8) -> u8 {
    reverse_in_bytes_u8(v)
}

/// Whether bit `i` of `v` is set.
pub open spec fn bit_u8(v: u8, i: u8) -> bool {
    (v >> i) % 2 == 1
}

/// Bit `i` of `reverse_u8(v)` is bit `7 - i` of `v`.
pub proof fn lemma_reverse_u8_bit(v: u8)
    by (bit_vector)
    ensures
        forall|i: u8|
            i < 8 ==> #[trigger] bit_u8(reverse_u8(v), i) == bit_u8(v, (7 - i) as u8),
{
}

/// The machine's bit `i` is the model's bit `i`.
pub proof fn lemma_bit_u8(v: u8, i: u8)
    requires
        i < 8,
    ensures
        bit_u8(v, i) == bit(v as nat, i as nat),
{
    lemma_u8_shr_is_div(v, i);
}

/// `reverse_u8` computes the reversal of 8 bits.
pub proof fn lemma_reverse_u8(v: u8)
    ensures
        reverse_u8(v) as nat == reverse_bits(v as nat, 8),
{
    let r = reverse_u8(v);
    unsigned_int_max_values();
    lemma_reverse_u8_bit(v);
    assert forall|i: nat| i < 8 implies bit(r as nat, i) == bit(v as nat, (7 - i) as nat) by {
        lemma_bit_u8(r, i as u8);
        lemma_bit_u8(v, (7 - i) as u8);
        assert(bit_u8(r, i as u8) == bit_u8(v, (7 - i as u8) as u8));
    }
    lemma_reverse_bits_unique(v as nat, r as nat, 8);
}

/// The bits of each byte of `v` in reverse order, the bytes staying in
/// place: neighbouring bits are exchanged, then neighbouring pairs, then the
/// two nibbles of each byte.
pub open spec fn reverse_in_bytes_u16(v: u16) -> u16 {
    let v = ((v >> 1) & 0x5555) | ((v & 0x5555) << 1);
    let v = ((v >> 2) & 0x3333) | ((v & 0x3333) << 2);
    ((v >> 4) & 0x0f0f) | ((v & 0x0f0f) << 4)
}

/// The 16 bits of `v` in reverse order: the bits of each byte reversed,
/// then the bytes.
pub open spec fn reverse_u16(v: u16) -> u16 {
    reverse_bytes_u16(reverse_in_bytes_u16(v))
}

/// Whether bit `i` of `v` is set.
pub open spec fn bit_u16(v: u16, i: u16) -> bool {
    (v >> i) % 2 == 1
}

/// Bit `i` of `reverse_u16(v)` is bit `15 - i` of `v`.
pub proof fn lemma_reverse_u16_bit(v: u16)
    by (bit_vector)
    ensures
        forall|i: u16|
            i < 16 ==> #[trigger] bit_u16(reverse_u16(v), i) == bit_u16(v, (15 - i) as u16),
{
}

/// The machine's bit `i` is the model's bit `i`.
pub proof fn lemma_bit_u16(v: u16, i: u16)
    requires
        i < 16,
    ensures
        bit_u16(v, i) == bit(v as nat, i as nat),
{
    lemma_u16_shr_is_div(v, i);
}

/// `reverse_u16` computes the reversal of 16 bits.
pub proof fn lemma_reverse_u16(v: u16)
    ensures
        reverse_u16(v) as nat == reverse_bits(v as nat, 16),
{
    let r = reverse_u16(v);
    unsigned_int_max_values();
    lemma_reverse_u16_bit(v);
    assert forall|i: nat| i < 16 implies bit(r as nat, i) == bit(v as nat, (15 - i) as nat) by {
        lemma_bit_u16(r, i as u16);
        lemma_bit_u16(v, (15 - i) as u16);
        assert(bit_u16(r, i as u16) == bit_u16(v, (15 - i as u16) as u16));
    }
    lemma_reverse_bits_unique(v as nat, r as nat, 16);
}

/// The bits of each byte of `v` in reverse order, the bytes staying in
/// place: neighbouring bits are exchanged, then neighbouring pairs, then the
/// two nibbles of each byte.
pub open spec fn reverse_in_bytes_u32(v: u32) -> u32 {
    let v = ((v >> 1) & 0x55555555) | ((v & 0x55555555) << 1);
    let v = ((v >> 2) & 0x33333333) | ((v & 0x33333333) << 2);
    ((v >> 4) & 0x0f0f0f0f) | ((v & 0x0f0f0f0f) << 4)
}

/// The 32 bits of `v` in reverse order: the bits of each byte reversed,
/// then the bytes.
pub open spec fn reverse_u32(v: u32) -> u32 {
    reverse_bytes_u32(reverse_in_bytes_u32(v))
}

/// Whether bit `i` of `v` is set.
pub open spec fn bit_u32(v: u32, i: u32) -> bool {
    (v >> i) % 2 == 1
}

/// Bit `i` of `reverse_u32(v)` is bit `31 - i` of `v`.
pub proof fn lemma_reverse_u32_bit(v: u32)
    by (bit_vector)
    ensures
        forall|i: u32|
            i < 32 ==> #[trigger] bit_u32(reverse_u32(v), i) == bit_u32(v, (31 - i) as u32),
{
}

/// The machine's bit `i` is the model's bit `i`.
pub proof fn lemma_bit_u32(v: u32, i: u32)
    requires
        i < 32,
    ensures
        bit_u32(v, i) == bit(v as nat, i as nat),
{
    lemma_u32_shr_is_div(v, i);
}

/// `reverse_u32` computes the reversal of 32 bits.
pub proof fn lemma_reverse_u32(v: u32)
    ensures
        reverse_u32(v) as nat == reverse_bits(v as nat, 32),
{
    let r = reverse_u32(v);
    unsigned_int_max_values();
    lemma_reverse_u32_bit(v);
    assert forall|i: nat| i < 32 implies bit(r as nat, i) == bit(v as nat, (31 - i) as nat) by {
        lemma_bit_u32(r, i as u32);
        lemma_bit_u32(v, (31 - i) as u32);
        assert(bit_u32(r, i as u32) == bit_u32(v, (31 - i as u32) as u32));
    }
    lemma_reverse_bits_unique(v as nat, r as nat, 32);
}

/// The bits of each byte of `v` in reverse order, the bytes staying in
/// place: neighbouring bits are exchanged, then neighbouring pairs, then the
/// two nibbles of each byte.
pub open spec fn reverse_in_bytes_u64(v: u64) -> u64 {
    let v = ((v >> 1) & 0x55555555_55555555) | ((v & 0x55555555_55555555) << 1);
    let v = ((v >> 2) & 0x33333333_33333333) | ((v & 0x33333333_33333333) << 2);
    ((v >> 4) & 0x0f0f0f0f_0f0f0f0f) | ((v & 0x0f0f0f0f_0f0f0f0f) << 4)
}

/// The 64 bits of `v` in reverse order: the bits of each byte reversed,
/// then the bytes.
pub open spec fn reverse_u64(v: u64) -> u64 {
    reverse_bytes_u64(reverse_in_bytes_u64(v))
}

/// Whether bit `i` of `v` is set.
pub open spec fn bit_u64(v: u64, i: u64) -> bool {
    (v >> i) % 2 == 1
}

/// Bit `i` of `reverse_u64(v)` is bit `63 - i` of `v`.
pub proof fn lemma_reverse_u64_bit(v: u64)
    by (bit_vector)
    ensures
        forall|i: u64|
            i < 64 ==> #[trigger] bit_u64(reverse_u64(v), i) == bit_u64(v, (63 - i) as u64),
{
}

/// The machine's bit `i` is the model's bit `i`.
pub proof fn lemma_bit_u64(v: u64, i: u64)
    requires
        i < 64,
    ensures
        bit_u64(v, i) == bit(v as nat, i as nat),
{
    lemma_u64_shr_is_div(v, i);
}

/// `reverse_u64` computes the reversal of 64 bits.
pub proof fn lemma_reverse_u64(v: u64)
    ensures
        reverse_u64(v) as nat == reverse_bits(v as nat, 64),
{
    let r = reverse_u64(v);
    unsigned_int_max_values();
    lemma_reverse_u64_bit(v);
    assert forall|i: nat| i < 64 implies bit(r as nat, i) == bit(v as nat, (63 - i) as nat) by {
        lemma_bit_u64(r, i as u64);
        lemma_bit_u64(v, (63 - i) as u64);
        assert(bit_u64(r, i as u64) == bit_u64(v, (63 - i as u64) as u64));
    }
    lemma_reverse_bits_unique(v as nat, r as nat, 64);
}

/// The bits of each byte of `v` in reverse order, the bytes staying in
/// place: neighbouring bits are exchanged, then neighbouring pairs, then the
/// two nibbles of each byte.
pub open spec fn reverse_in_bytes_u128(v: u128) -> u128 {
    let v = ((v >> 1) & 0x55555555_55555555_55555555_55555555)
        | ((v & 0x55555555_55555555_55555555_55555555) << 1);
    let v = ((v >> 2) & 0x33333333_33333333_33333333_33333333)
        | ((v & 0x33333333_33333333_33333333_33333333) << 2);
    ((v >> 4) & 0x0f0f0f0f_0f0f0f0f_0f0f0f0f_0f0f0f0f)
        | ((v & 0x0f0f0f0f_0f0f0f0f_0f0f0f0f_0f0f0f0f) << 4)
}

/// The 128 bits of `v` in reverse order: the bits of each byte reversed,
/// then the bytes.
pub open spec fn reverse_u128(v: u128) -> u128 {
    reverse_bytes_u128(reverse_in_bytes_u128(v))
}

/// Whether bit `i` of `v` is set.
pub open spec fn bit_u128(v: u128, i: u128) -> bool {
    (v >> i) % 2 == 1
}

/// Bit `i` of `reverse_u128(v)` is bit `127 - i` of `v`.
pub proof fn lemma_reverse_u128_bit(v: u128)
    by (bit_vector)
    ensures
        forall|i: u128|
            i < 128 ==> #[trigger] bit_u128(reverse_u128(v), i) == bit_u128(v, (127 - i) as u128),
{
}

/// The machine's bit `i` is the model's bit `i`.
pub proof fn lemma_bit_u128(v: u128, i: u128)
    requires
        i < 128,
    ensures
        bit_u128(v, i) == bit(v as nat, i as nat),
{
    lemma_u128_shr_is_div(v, i);
}

/// `reverse_u128` computes the reversal of 128 bits.
pub proof fn lemma_reverse_u128(v: u128)
    ensures
        reverse_u128(v) as nat == reverse_bits(v as nat, 128),
{
    let r = reverse_u128(v);
    unsigned_int_max_values();
    lemma_reverse_u128_bit(v);
    assert forall|i: nat| i < 128 implies bit(r as nat, i) == bit(v as nat, (127 - i) as nat) by {
        lemma_bit_u128(r, i as u128);
        lemma_bit_u128(v, (127 - i) as u128);
        assert(bit_u128(r, i as u128) == bit_u128(v, (127 - i as u128) as u128));
    }
    lemma_reverse_bits_unique(v as nat, r as nat, 128);
}

} // verus!
