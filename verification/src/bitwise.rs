//! Reversal one bit at a time.
//!
//! The result starts as the input itself, so that the lowest bit reaches the
//! top once the result has been shifted far enough. Each step moves the next
//! bit of the input in at the bottom. When the rest of the input is zero the
//! loop ends early, and one shift puts the bits gathered so far in place.
//!
//! The early exit makes short work of values whose high bits are zero, and
//! makes the running time depend on the value: it grows with the position of
//! the highest bit that is set. Where the value is a secret, that is a timing
//! side channel; [`ParallelReverse`](crate::ParallelReverse) takes the same
//! time for every value.
use crate::pattern::{reversed, BitPattern};
use crate::signed::{
    i128_from_bits, i128_to_bits, i16_from_bits, i16_to_bits, i32_from_bits, i32_to_bits,
    i64_from_bits, i64_to_bits, i8_from_bits, i8_to_bits, isize_from_bits, isize_to_bits,
    lemma_reversed_through_bits,
};
use crate::word::{
    bit_u128, bit_u16, bit_u32, bit_u64, bit_u8, lemma_reverse_u128, lemma_reverse_u128_bit,
    lemma_reverse_u16, lemma_reverse_u16_bit, lemma_reverse_u32, lemma_reverse_u32_bit,
    lemma_reverse_u64, lemma_reverse_u64_bit, lemma_reverse_u8, lemma_reverse_u8_bit, reverse_u128,
    reverse_u16, reverse_u32, reverse_u64, reverse_u8,
};
use vstd::prelude::*;

verus! {

/// Computes bit reversal by shifting the bits across one after the other.
/// Not constant time: the number of steps depends on the value.
pub trait BitwiseReverse: BitPattern {
    /// Swaps the bits such that bit `i` becomes bit `N - 1 - i`, where `N`
    /// is the width of the type in bits.
    fn swap_bits(self) -> (r: Self)
        ensures
            r == reversed(self),
    ;
}

/// Whether `v` and `r` are what the loop holds for the input `x` when `s`
/// shifts are left: `v` is the part of `x` not yet moved, and the bits of
/// `r` below the top `s` are the top of `rev`, the reversal of `x`.
spec fn bitwise_state_u8(x: u8, rev: u8, v: u8, r: u8, s: u32) -> bool {
    &&& s <= 7
    &&& v == (x >> ((7 - s) as u32)) >> 1
    &&& r & (u8::MAX >> s) == rev >> s
}

/// The loop starts in a state that it can go on from.
proof fn lemma_bitwise_start_u8(x: u8)
    by (bit_vector)
    ensures
        bitwise_state_u8(x, reverse_u8(x), x >> 1, x, 7),
{
}

/// While a part of `x` is left to move, a shift is left to do, and the
/// lowest bit of that part is bit `8 - s` of `x`.
proof fn lemma_bitwise_next_u8(x: u8, v: u8, s: u32)
    by (bit_vector)
    requires
        s <= 7,
        v == (x >> ((7 - s) as u32)) >> 1,
        v != 0,
    ensures
        s >= 1,
        v >> 1 == (x >> ((8 - s) as u32)) >> 1,
        v & 1 <= 1,
        (v & 1 == 1) == bit_u8(x, (8 - s) as u8),
{
}

/// Moving in bit `s - 1` of the reversal at the bottom of `r` gives the top
/// of the reversal with one shift less left to do.
proof fn lemma_bitwise_push_u8(rev: u8, r: u8, b: u8, s: u32)
    by (bit_vector)
    requires
        1 <= s <= 7,
        r & (u8::MAX >> s) == rev >> s,
        b <= 1,
        (b == 1) == bit_u8(rev, (s - 1) as u8),
    ensures
        ((r << 1) | b) & (u8::MAX >> ((s - 1) as u32)) == rev >> ((s - 1) as u32),
{
}

/// Once nothing is left to move, the last shift gives the reversal.
proof fn lemma_bitwise_end_u8(x: u8, r: u8, s: u32)
    by (bit_vector)
    requires
        bitwise_state_u8(x, reverse_u8(x), 0, r, s),
    ensures
        r << s == reverse_u8(x),
{
}

impl BitwiseReverse for u8 {
    fn swap_bits(self) -> (r: u8) {
        let mut v = self >> 1;
        // By initializing the reversal to the value, the lowest bit is
        // already on its way to the top.
        let mut r = self;
        // How many shifts are left to do at the end.
        let mut s: u32 = 7;
        proof {
            lemma_bitwise_start_u8(self);
        }
        while v != 0
            invariant
                bitwise_state_u8(self, reverse_u8(self), v, r, s),
            decreases s,
        {
            proof {
                lemma_bitwise_next_u8(self, v, s);
                lemma_reverse_u8_bit(self);
                lemma_bitwise_push_u8(reverse_u8(self), r, v & 1, s);
            }
            r = r << 1;
            r = r | (v & 1);
            v = v >> 1;
            s = s - 1;
        }
        proof {
            lemma_bitwise_end_u8(self, r, s);
            lemma_reverse_u8(self);
        }
        // Shift the reversal to its place.
        r << s
    }
}

/// Whether `v` and `r` are what the loop holds for the input `x` when `s`
/// shifts are left: `v` is the part of `x` not yet moved, and the bits of
/// `r` below the top `s` are the top of `rev`, the reversal of `x`.
spec fn bitwise_state_u16(x: u16, rev: u16, v: u16, r: u16, s: u32) -> bool {
    &&& s <= 15
    &&& v == (x >> ((15 - s) as u32)) >> 1
    &&& r & (u16::MAX >> s) == rev >> s
}

/// The loop starts in a state that it can go on from.
proof fn lemma_bitwise_start_u16(x: u16)
    by (bit_vector)
    ensures
        bitwise_state_u16(x, reverse_u16(x), x >> 1, x, 15),
{
}

/// While a part of `x` is left to move, a shift is left to do, and the
/// lowest bit of that part is bit `16 - s` of `x`.
proof fn lemma_bitwise_next_u16(x: u16, v: u16, s: u32)
    by (bit_vector)
    requires
        s <= 15,
        v == (x >> ((15 - s) as u32)) >> 1,
        v != 0,
    ensures
        s >= 1,
        v >> 1 == (x >> ((16 - s) as u32)) >> 1,
        v & 1 <= 1,
        (v & 1 == 1) == bit_u16(x, (16 - s) as u16),
{
}

/// Moving in bit `s - 1` of the reversal at the bottom of `r` gives the top
/// of the reversal with one shift less left to do.
proof fn lemma_bitwise_push_u16(rev: u16, r: u16, b: u16, s: u32)
    by (bit_vector)
    requires
        1 <= s <= 15,
        r & (u16::MAX >> s) == rev >> s,
        b <= 1,
        (b == 1) == bit_u16(rev, (s - 1) as u16),
    ensures
        ((r << 1) | b) & (u16::MAX >> ((s - 1) as u32)) == rev >> ((s - 1) as u32),
{
}

/// Once nothing is left to move, the last shift gives the reversal.
proof fn lemma_bitwise_end_u16(x: u16, r: u16, s: u32)
    by (bit_vector)
    requires
        bitwise_state_u16(x, reverse_u16(x), 0, r, s),
    ensures
        r << s == reverse_u16(x),
{
}

impl BitwiseReverse for u16 {
    fn swap_bits(self) -> (r: u16) {
        let mut v = self >> 1;
        // By initializing the reversal to the value, the lowest bit is
        // already on its way to the top.
        let mut r = self;
        // How many shifts are left to do at the end.
        let mut s: u32 = 15;
        proof {
            lemma_bitwise_start_u16(self);
        }
        while v != 0
            invariant
                bitwise_state_u16(self, reverse_u16(self), v, r, s),
            decreases s,
        {
            proof {
                lemma_bitwise_next_u16(self, v, s);
                lemma_reverse_u16_bit(self);
                lemma_bitwise_push_u16(reverse_u16(self), r, v & 1, s);
            }
            r = r << 1;
            r = r | (v & 1);
            v = v >> 1;
            s = s - 1;
        }
        proof {
            lemma_bitwise_end_u16(self, r, s);
            lemma_reverse_u16(self);
        }
        // Shift the reversal to its place.
        r << s
    }
}

/// Whether `v` and `r` are what the loop holds for the input `x` when `s`
/// shifts are left: `v` is the part of `x` not yet moved, and the bits of
/// `r` below the top `s` are the top of `rev`, the reversal of `x`.
spec fn bitwise_state_u32(x: u32, rev: u32, v: u32, r: u32, s: u32) -> bool {
    &&& s <= 31
    &&& v == (x >> ((31 - s) as u32)) >> 1
    &&& r & (u32::MAX >> s) == rev >> s
}

/// The loop starts in a state that it can go on from.
proof fn lemma_bitwise_start_u32(x: u32)
    by (bit_vector)
    ensures
        bitwise_state_u32(x, reverse_u32(x), x >> 1, x, 31),
{
}

/// While a part of `x` is left to move, a shift is left to do, and the
/// lowest bit of that part is bit `32 - s` of `x`.
proof fn lemma_bitwise_next_u32(x: u32, v: u32, s: u32)
    by (bit_vector)
    requires
        s <= 31,
        v == (x >> ((31 - s) as u32)) >> 1,
        v != 0,
    ensures
        s >= 1,
        v >> 1 == (x >> ((32 - s) as u32)) >> 1,
        v & 1 <= 1,
        (v & 1 == 1) == bit_u32(x, (32 - s) as u32),
{
}

/// Moving in bit `s - 1` of the reversal at the bottom of `r` gives the top
/// of the reversal with one shift less left to do.
proof fn lemma_bitwise_push_u32(rev: u32, r: u32, b: u32, s: u32)
    by (bit_vector)
    requires
        1 <= s <= 31,
        r & (u32::MAX >> s) == rev >> s,
        b <= 1,
        (b == 1) == bit_u32(rev, (s - 1) as u32),
    ensures
        ((r << 1) | b) & (u32::MAX >> ((s - 1) as u32)) == rev >> ((s - 1) as u32),
{
}

/// Once nothing is left to move, the last shift gives the reversal.
proof fn lemma_bitwise_end_u32(x: u32, r: u32, s: u32)
    by (bit_vector)
    requires
        bitwise_state_u32(x, reverse_u32(x), 0, r, s),
    ensures
        r << s == reverse_u32(x),
{
}

impl BitwiseReverse for u32 {
    fn swap_bits(self) -> (r: u32) {
        let mut v = self >> 1;
        // By initializing the reversal to the value, the lowest bit is
        // already on its way to the top.
        let mut r = self;
        // How many shifts are left to do at the end.
        let mut s: u32 = 31;
        proof {
            lemma_bitwise_start_u32(self);
        }
        while v != 0
            invariant
                bitwise_state_u32(self, reverse_u32(self), v, r, s),
            decreases s,
        {
            proof {
                lemma_bitwise_next_u32(self, v, s);
                lemma_reverse_u32_bit(self);
                lemma_bitwise_push_u32(reverse_u32(self), r, v & 1, s);
            }
            r = r << 1;
            r = r | (v & 1);
            v = v >> 1;
            s = s - 1;
        }
        proof {
            lemma_bitwise_end_u32(self, r, s);
            lemma_reverse_u32(self);
        }
        // Shift the reversal to its place.
        r << s
    }
}

/// Whether `v` and `r` are what the loop holds for the input `x` when `s`
/// shifts are left: `v` is the part of `x` not yet moved, and the bits of
/// `r` below the top `s` are the top of `rev`, the reversal of `x`.
spec fn bitwise_state_u64(x: u64, rev: u64, v: u64, r: u64, s: u32) -> bool {
    &&& s <= 63
    &&& v == (x >> ((63 - s) as u32)) >> 1
    &&& r & (u64::MAX >> s) == rev >> s
}

/// The loop starts in a state that it can go on from.
proof fn lemma_bitwise_start_u64(x: u64)
    by (bit_vector)
    ensures
        bitwise_state_u64(x, reverse_u64(x), x >> 1, x, 63),
{
}

/// While a part of `x` is left to move, a shift is left to do, and the
/// lowest bit of that part is bit `64 - s` of `x`.
proof fn lemma_bitwise_next_u64(x: u64, v: u64, s: u32)
    by (bit_vector)
    requires
        s <= 63,
        v == (x >> ((63 - s) as u32)) >> 1,
        v != 0,
    ensures
        s >= 1,
        v >> 1 == (x >> ((64 - s) as u32)) >> 1,
        v & 1 <= 1,
        (v & 1 == 1) == bit_u64(x, (64 - s) as u64),
{
}

/// Moving in bit `s - 1` of the reversal at the bottom of `r` gives the top
/// of the reversal with one shift less left to do.
proof fn lemma_bitwise_push_u64(rev: u64, r: u64, b: u64, s: u32)
    by (bit_vector)
    requires
        1 <= s <= 63,
        r & (u64::MAX >> s) == rev >> s,
        b <= 1,
        (b == 1) == bit_u64(rev, (s - 1) as u64),
    ensures
        ((r << 1) | b) & (u64::MAX >> ((s - 1) as u32)) == rev >> ((s - 1) as u32),
{
}

/// Once nothing is left to move, the last shift gives the reversal.
proof fn lemma_bitwise_end_u64(x: u64, r: u64, s: u32)
    by (bit_vector)
    requires
        bitwise_state_u64(x, reverse_u64(x), 0, r, s),
    ensures
        r << s == reverse_u64(x),
{
}

impl BitwiseReverse for u64 {
    fn swap_bits(self) -> (r: u64) {
        let mut v = self >> 1;
        // By initializing the reversal to the value, the lowest bit is
        // already on its way to the top.
        let mut r = self;
        // How many shifts are left to do at the end.
        let mut s: u32 = 63;
        proof {
            lemma_bitwise_start_u64(self);
        }
        while v != 0
            invariant
                bitwise_state_u64(self, reverse_u64(self), v, r, s),
            decreases s,
        {
            proof {
                lemma_bitwise_next_u64(self, v, s);
                lemma_reverse_u64_bit(self);
                lemma_bitwise_push_u64(reverse_u64(self), r, v & 1, s);
            }
            r = r << 1;
            r = r | (v & 1);
            v = v >> 1;
            s = s - 1;
        }
        proof {
            lemma_bitwise_end_u64(self, r, s);
            lemma_reverse_u64(self);
        }
        // Shift the reversal to its place.
        r << s
    }
}

/// Whether `v` and `r` are what the loop holds for the input `x` when `s`
/// shifts are left: `v` is the part of `x` not yet moved, and the bits of
/// `r` below the top `s` are the top of `rev`, the reversal of `x`.
spec fn bitwise_state_u128(x: u128, rev: u128, v: u128, r: u128, s: u32) -> bool {
    &&& s <= 127
    &&& v == (x >> ((127 - s) as u32)) >> 1
    &&& r & (u128::MAX >> s) == rev >> s
}

/// The loop starts in a state that it can go on from.
proof fn lemma_bitwise_start_u128(x: u128)
    by (bit_vector)
    ensures
        bitwise_state_u128(x, reverse_u128(x), x >> 1, x, 127),
{
}

/// While a part of `x` is left to move, a shift is left to do, and the
/// lowest bit of that part is bit `128 - s` of `x`.
#[verifier::rlimit(40)]
proof fn lemma_bitwise_next_u128(x: u128, v: u128, s: u32)
    by (bit_vector)
    requires
        s <= 127,
        v == (x >> ((127 - s) as u32)) >> 1,
        v != 0,
    ensures
        s >= 1,
        v >> 1 == (x >> ((128 - s) as u32)) >> 1,
        v & 1 <= 1,
        (v & 1 == 1) == bit_u128(x, (128 - s) as u128),
{
}

/// Moving in bit `s - 1` of the reversal at the bottom of `r` gives the top
/// of the reversal with one shift less left to do.
#[verifier::rlimit(40)]
proof fn lemma_bitwise_push_u128(rev: u128, r: u128, b: u128, s: u32)
    by (bit_vector)
    requires
        1 <= s <= 127,
        r & (u128::MAX >> s) == rev >> s,
        b <= 1,
        (b == 1) == bit_u128(rev, (s - 1) as u128),
    ensures
        ((r << 1) | b) & (u128::MAX >> ((s - 1) as u32)) == rev >> ((s - 1) as u32),
{
}

/// Once nothing is left to move, the last shift gives the reversal.
#[verifier::rlimit(40)]
proof fn lemma_bitwise_end_u128(x: u128, r: u128, s: u32)
    by (bit_vector)
    requires
        bitwise_state_u128(x, reverse_u128(x), 0, r, s),
    ensures
        r << s == reverse_u128(x),
{
}

impl BitwiseReverse for u128 {
    fn swap_bits(self) -> (r: u128) {
        let mut v = self >> 1;
        // By initializing the reversal to the value, the lowest bit is
        // already on its way to the top.
        let mut r = self;
        // How many shifts are left to do at the end.
        let mut s: u32 = 127;
        proof {
            lemma_bitwise_start_u128(self);
        }
        while v != 0
            invariant
                bitwise_state_u128(self, reverse_u128(self), v, r, s),
            decreases s,
        {
            proof {
                lemma_bitwise_next_u128(self, v, s);
                lemma_reverse_u128_bit(self);
                lemma_bitwise_push_u128(reverse_u128(self), r, v & 1, s);
            }
            r = r << 1;
            r = r | (v & 1);
            v = v >> 1;
            s = s - 1;
        }
        proof {
            lemma_bitwise_end_u128(self, r, s);
            lemma_reverse_u128(self);
        }
        // Shift the reversal to its place.
        r << s
    }
}

impl BitwiseReverse for usize {
    fn swap_bits(self) -> (r: usize) {
        // The width of a pointer is known when the crate is built: the
        // compiler keeps the one branch that applies.
        if usize::BITS == 64 {
            BitwiseReverse::swap_bits(self as u64) as usize
        } else if usize::BITS == 32 {
            BitwiseReverse::swap_bits(self as u32) as usize
        } else {
            BitwiseReverse::swap_bits(self as u16) as usize
        }
    }
}

impl BitwiseReverse for i8 {
    fn swap_bits(self) -> (r: i8) {
        let u = i8_to_bits(self);
        let r = i8_from_bits(BitwiseReverse::swap_bits(u));
        proof {
            lemma_reversed_through_bits(self, u, r);
        }
        r
    }
}

impl BitwiseReverse for i16 {
    fn swap_bits(self) -> (r: i16) {
        let u = i16_to_bits(self);
        let r = i16_from_bits(BitwiseReverse::swap_bits(u));
        proof {
            lemma_reversed_through_bits(self, u, r);
        }
        r
    }
}

impl BitwiseReverse for i32 {
    fn swap_bits(self) -> (r: i32) {
        let u = i32_to_bits(self);
        let r = i32_from_bits(BitwiseReverse::swap_bits(u));
        proof {
            lemma_reversed_through_bits(self, u, r);
        }
        r
    }
}

impl BitwiseReverse for i64 {
    fn swap_bits(self) -> (r: i64) {
        let u = i64_to_bits(self);
        let r = i64_from_bits(BitwiseReverse::swap_bits(u));
        proof {
            lemma_reversed_through_bits(self, u, r);
        }
        r
    }
}

impl BitwiseReverse for i128 {
    fn swap_bits(self) -> (r: i128) {
        let u = i128_to_bits(self);
        let r = i128_from_bits(BitwiseReverse::swap_bits(u));
        proof {
            lemma_reversed_through_bits(self, u, r);
        }
        r
    }
}

impl BitwiseReverse for isize {
    fn swap_bits(self) -> (r: isize) {
        let u = isize_to_bits(self);
        let r = isize_from_bits(BitwiseReverse::swap_bits(u));
        proof {
            lemma_reversed_through_bits(self, u, r);
        }
        r
    }
}

} // verus!
