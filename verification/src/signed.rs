//! Signed integers as their unsigned bit patterns, and back.
//!
//! A signed value and the unsigned value of the same width with the same
//! bits are two readings of one bit pattern. The functions here change the
//! reading and keep the bits.
use crate::pattern::{lemma_pattern_injective, lemma_reversed_same_pattern, reversed, BitPattern};
use vstd::prelude::*;

verus! {

/// How reversal goes through the unsigned reading: where `u` has the bits
/// of `v`, and `r` has the bits of the reversal of `u`, `r` is the reversal
/// of `v`.
pub proof fn lemma_reversed_through_bits<S: BitPattern, U: BitPattern>(v: S, u: U, r: S)
    requires
        S::width() == U::width(),
        u.pattern() == v.pattern(),
        r.pattern() == reversed(u).pattern(),
    ensures
        r == reversed(v),
{
    lemma_reversed_same_pattern(v, u);
    lemma_pattern_injective(r, reversed(v));
}

/// How a cast between `i8` and `u8` maps numbers: it adds or subtracts
/// `2^N`, where `N` is the width, for the values that the target type cannot
/// hold as they are.
proof fn lemma_cast_i8(v: i8, u: u8)
    by (bit_vector)
    ensures
        v >= 0 ==> (v as u8) == v,
        v < 0 ==> (v as u8) == v + u8::MAX + 1,
        u <= i8::MAX ==> (u as i8) == u,
        u > i8::MAX ==> (u as i8) == u - u8::MAX - 1,
{
}

/// The unsigned value with the bits of `v`.
pub fn i8_to_bits(v: i8) -> (u: u8)
    ensures
        u.pattern() == v.pattern(),
{
    proof {
        lemma_cast_i8(v, 0);
    }
    #[verifier::truncate]
    (v as u8)
}

/// The signed value with the bits of `u`.
pub fn i8_from_bits(u: u8) -> (v: i8)
    ensures
        v.pattern() == u.pattern(),
{
    proof {
        lemma_cast_i8(0, u);
    }
    #[verifier::truncate]
    (u as i8)
}

/// How a cast between `i16` and `u16` maps numbers: it adds or subtracts
/// `2^N`, where `N` is the width, for the values that the target type cannot
/// hold as they are.
proof fn lemma_cast_i16(v: i16, u: u16)
    by (bit_vector)
    ensures
        v >= 0 ==> (v as u16) == v,
        v < 0 ==> (v as u16) == v + u16::MAX + 1,
        u <= i16::MAX ==> (u as i16) == u,
        u > i16::MAX ==> (u as i16) == u - u16::MAX - 1,
{
}

/// The unsigned value with the bits of `v`.
pub fn i16_to_bits(v: i16) -> (u: u16)
    ensures
        u.pattern() == v.pattern(),
{
    proof {
        lemma_cast_i16(v, 0);
    }
    #[verifier::truncate]
    (v as u16)
}

/// The signed value with the bits of `u`.
pub fn i16_from_bits(u: u16) -> (v: i16)
    ensures
        v.pattern() == u.pattern(),
{
    proof {
        lemma_cast_i16(0, u);
    }
    #[verifier::truncate]
    (u as i16)
}

/// How a cast between `i32` and `u32` maps numbers: it adds or subtracts
/// `2^N`, where `N` is the width, for the values that the target type cannot
/// hold as they are.
proof fn lemma_cast_i32(v: i32, u: u32)
    by (bit_vector)
    ensures
        v >= 0 ==> (v as u32) == v,
        v < 0 ==> (v as u32) == v + u32::MAX + 1,
        u <= i32::MAX ==> (u as i32) == u,
        u > i32::MAX ==> (u as i32) == u - u32::MAX - 1,
{
}

/// The unsigned value with the bits of `v`.
pub fn i32_to_bits(v: i32) -> (u: u32)
    ensures
        u.pattern() == v.pattern(),
{
    proof {
        lemma_cast_i32(v, 0);
    }
    #[verifier::truncate]
    (v as u32)
}

/// The signed value with the bits of `u`.
pub fn i32_from_bits(u: u32) -> (v: i32)
    ensures
        v.pattern() == u.pattern(),
{
    proof {
        lemma_cast_i32(0, u);
    }
    #[verifier::truncate]
    (u as i32)
}

/// How a cast between `i64` and `u64` maps numbers: it adds or subtracts
/// `2^N`, where `N` is the width, for the values that the target type cannot
/// hold as they are.
proof fn lemma_cast_i64(v: i64, u: u64)
    by (bit_vector)
    ensures
        v >= 0 ==> (v as u64) == v,
        v < 0 ==> (v as u64) == v + u64::MAX + 1,
        u <= i64::MAX ==> (u as i64) == u,
        u > i64::MAX ==> (u as i64) == u - u64::MAX - 1,
{
}

/// The unsigned value with the bits of `v`.
pub fn i64_to_bits(v: i64) -> (u: u64)
    ensures
        u.pattern() == v.pattern(),
{
    proof {
        lemma_cast_i64(v, 0);
    }
    #[verifier::truncate]
    (v as u64)
}

/// The signed value with the bits of `u`.
pub fn i64_from_bits(u: u64) -> (v: i64)
    ensures
        v.pattern() == u.pattern(),
{
    proof {
        lemma_cast_i64(0, u);
    }
    #[verifier::truncate]
    (u as i64)
}

/// How a cast between `i128` and `u128` maps numbers: it adds or subtracts
/// `2^N`, where `N` is the width, for the values that the target type cannot
/// hold as they are.
proof fn lemma_cast_i128(v: i128, u: u128)
    by (bit_vector)
    ensures
        v >= 0 ==> (v as u128) == v,
        v < 0 ==> (v as u128) == v + u128::MAX + 1,
        u <= i128::MAX ==> (u as i128) == u,
        u > i128::MAX ==> (u as i128) == u - u128::MAX - 1,
{
}

/// The unsigned value with the bits of `v`.
pub fn i128_to_bits(v: i128) -> (u: u128)
    ensures
        u.pattern() == v.pattern(),
{
    proof {
        lemma_cast_i128(v, 0);
    }
    #[verifier::truncate]
    (v as u128)
}

/// The signed value with the bits of `u`.
pub fn i128_from_bits(u: u128) -> (v: i128)
    ensures
        v.pattern() == u.pattern(),
{
    proof {
        lemma_cast_i128(0, u);
    }
    #[verifier::truncate]
    (u as i128)
}

/// How a cast between `isize` and `usize` maps numbers: it adds or
/// subtracts `2^N`, where `N` is the width, for the values that the target
/// type cannot hold as they are.
proof fn lemma_cast_isize(v: isize, u: usize)
    by (bit_vector)
    ensures
        v >= 0 ==> (v as usize) == v,
        usize::BITS == 32 && v < 0 ==> (v as usize) == v + 0x1_0000_0000,
        usize::BITS == 64 && v < 0 ==> (v as usize) == v + 0x1_0000_0000_0000_0000,
        usize::BITS == 32 && u < 0x8000_0000 ==> (u as isize) == u,
        usize::BITS == 64 && u < 0x8000_0000_0000_0000 ==> (u as isize) == u,
        usize::BITS == 32 && u >= 0x8000_0000 ==> (u as isize) == u - 0x1_0000_0000,
        usize::BITS == 64 && u >= 0x8000_0000_0000_0000 ==> (u as isize) == u
            - 0x1_0000_0000_0000_0000,
{
}

/// The unsigned value with the bits of `v`.
pub fn isize_to_bits(v: isize) -> (u: usize)
    ensures
        u.pattern() == v.pattern(),
{
    proof {
        lemma_cast_isize(v, 0);
    }
    #[verifier::truncate]
    (v as usize)
}

/// The signed value with the bits of `u`.
pub fn isize_from_bits(u: usize) -> (v: isize)
    ensures
        v.pattern() == u.pattern(),
{
    proof {
        lemma_cast_isize(0, u);
    }
    #[verifier::truncate]
    (u as isize)
}

} // verus!
