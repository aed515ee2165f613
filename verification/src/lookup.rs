//! Reversal by table lookup.
//!
//! Each byte is replaced by its reversal, read from a table of 256 entries,
//! and the bytes are put together in the opposite order.
use crate::model::{lemma_reverse_bits_involution, reverse_bits};
use crate::pattern::{reversed, BitPattern};
use crate::signed::{
    i128_from_bits, i128_to_bits, i16_from_bits, i16_to_bits, i32_from_bits, i32_to_bits,
    i64_from_bits, i64_to_bits, i8_from_bits, i8_to_bits, isize_from_bits, isize_to_bits,
    lemma_reversed_through_bits,
};
use crate::word::{
    lemma_reverse_u128, lemma_reverse_u16, lemma_reverse_u32, lemma_reverse_u64, lemma_reverse_u8,
    reverse_u128, reverse_u16, reverse_u32, reverse_u64, reverse_u8,
};
use vstd::arithmetic::power2::*;
use vstd::prelude::*;

verus! {

/// Computes bit reversal by using a lookup table to map a single byte
/// to its reverse. For multi-byte types, the byte order is swapped to
/// complete the reversal.
pub trait LookupReverse: BitPattern {
    /// Swaps the bits such that bit `i` becomes bit `N - 1 - i`, where `N`
    /// is the width of the type in bits.
    fn swap_bits(self) -> (r: Self)
        ensures
            r == reversed(self),
    ;
}

/// The reversal of every byte, indexed by the byte.
pub const REVERSE_LOOKUP: [u8; 256] = [
    0, 128, 64, 192, 32, 160, 96, 224, 16, 144, 80, 208, 48, 176, 112, 240,
    8, 136, 72, 200, 40, 168, 104, 232, 24, 152, 88, 216, 56, 184, 120, 248,
    4, 132, 68, 196, 36, 164, 100, 228, 20, 148, 84, 212, 52, 180, 116, 244,
    12, 140, 76, 204, 44, 172, 108, 236, 28, 156, 92, 220, 60, 188, 124, 252,
    2, 130, 66, 194, 34, 162, 98, 226, 18, 146, 82, 210, 50, 178, 114, 242,
    10, 138, 74, 202, 42, 170, 106, 234, 26, 154, 90, 218, 58, 186, 122, 250,
    6, 134, 70, 198, 38, 166, 102, 230, 22, 150, 86, 214, 54, 182, 118, 246,
    14, 142, 78, 206, 46, 174, 110, 238, 30, 158, 94, 222, 62, 190, 126, 254,
    1, 129, 65, 193, 33, 161, 97, 225, 17, 145, 81, 209, 49, 177, 113, 241,
    9, 137, 73, 201, 41, 169, 105, 233, 25, 153, 89, 217, 57, 185, 121, 249,
    5, 133, 69, 197, 37, 165, 101, 229, 21, 149, 85, 213, 53, 181, 117, 245,
    13, 141, 77, 205, 45, 173, 109, 237, 29, 157, 93, 221, 61, 189, 125, 253,
    3, 131, 67, 195, 35, 163, 99, 227, 19, 147, 83, 211, 51, 179, 115, 243,
    11, 139, 75, 203, 43, 171, 107, 235, 27, 155, 91, 219, 59, 187, 123, 251,
    7, 135, 71, 199, 39, 167, 103, 231, 23, 151, 87, 215, 55, 183, 119, 247,
    15, 143, 79, 207, 47, 175, 111, 239, 31, 159, 95, 223, 63, 191, 127, 255,
];

/// The reversal of a byte, as the sum of its bits with their new weights.
spec fn weighted_bits(b: nat) -> nat {
    (b % 2) * 128 + (b / 2 % 2) * 64 + (b / 4 % 2) * 32 + (b / 8 % 2) * 16 + (b / 16 % 2) * 8 + (b
        / 32 % 2) * 4 + (b / 64 % 2) * 2 + b / 128 % 2
}

/// The sum of the weighted bits is the reversal of eight bits.
proof fn lemma_weighted_bits(b: nat)
    ensures
        weighted_bits(b) == reverse_bits(b, 8),
{
    lemma2_to64();
    assert(reverse_bits(b / 256, 0) == 0);
    assert(reverse_bits(b / 128, 1) == b / 128 % 2);
    assert(reverse_bits(b / 64, 2) == (b / 64 % 2) * 2 + reverse_bits(b / 128, 1));
    assert(reverse_bits(b / 32, 3) == (b / 32 % 2) * 4 + reverse_bits(b / 64, 2));
    assert(reverse_bits(b / 16, 4) == (b / 16 % 2) * 8 + reverse_bits(b / 32, 3));
    assert(reverse_bits(b / 8, 5) == (b / 8 % 2) * 16 + reverse_bits(b / 16, 4));
    assert(reverse_bits(b / 4, 6) == (b / 4 % 2) * 32 + reverse_bits(b / 8, 5));
    assert(reverse_bits(b / 2, 7) == (b / 2 % 2) * 64 + reverse_bits(b / 4, 6));
    assert(reverse_bits(b, 8) == (b % 2) * 128 + reverse_bits(b / 2, 7));
}

/// Every entry of the table is the sum of the weighted bits of its index.
#[verifier::rlimit(50)]
proof fn lemma_reverse_lookup_entries(b: u8)
    ensures
        REVERSE_LOOKUP[b as int] == weighted_bits(b as nat),
{
    let (high, low) = (b / 16, b % 16);
    assert(b == 16 * high + low);
    assert(high < 16 && low < 16);
}

/// Every entry of the table is the reversal of its index.
pub proof fn lemma_reverse_lookup(b: u8)
    ensures
        REVERSE_LOOKUP[b as int] as nat == reverse_bits(b as nat, 8),
{
    lemma_reverse_lookup_entries(b);
    lemma_weighted_bits(b as nat);
}

/// The reversal of one byte, read from the table.
fn reverse_byte(b: u8) -> (r: u8)
    ensures
        r == reverse_u8(b),
{
    proof {
        lemma_reverse_lookup(b);
        lemma_reverse_u8(b);
    }
    REVERSE_LOOKUP[b as usize]
}

/// The table is its own inverse.
pub proof fn lemma_reverse_lookup_involution(b: u8)
    ensures
        REVERSE_LOOKUP[REVERSE_LOOKUP[b as int] as int] == b,
{
    let r = REVERSE_LOOKUP[b as int];
    lemma_reverse_lookup(b);
    lemma_reverse_lookup(r);
    lemma2_to64();
    lemma_reverse_bits_involution(b as nat, 8);
}

impl LookupReverse for u8 {
    fn swap_bits(self) -> (r: u8) {
        proof {
            lemma_reverse_lookup(self);
        }
        REVERSE_LOOKUP[self as usize]
    }
}

/// The reversed bytes of `v`, put together in the opposite order, are the
/// reversal of `v`.
proof fn lemma_reversed_bytes_u16(v: u16)
    by (bit_vector)
    ensures
        (reverse_u8(v as u8) as u16) << 8
            | (reverse_u8((v >> 8) as u8) as u16) == reverse_u16(v),
{
}

impl LookupReverse for u16 {
    fn swap_bits(self) -> (r: u16) {
        proof {
            lemma_reversed_bytes_u16(self);
            lemma_reverse_u16(self);
        }
        (reverse_byte(#[verifier::truncate] (self as u8)) as u16) << 8
            | (reverse_byte(#[verifier::truncate] ((self >> 8) as u8)) as u16)
    }
}

/// The reversed bytes of `v`, put together in the opposite order, are the
/// reversal of `v`.
proof fn lemma_reversed_bytes_u32(v: u32)
    by (bit_vector)
    ensures
        (reverse_u8(v as u8) as u32) << 24
            | (reverse_u8((v >> 8) as u8) as u32) << 16
            | (reverse_u8((v >> 16) as u8) as u32) << 8
            | (reverse_u8((v >> 24) as u8) as u32) == reverse_u32(v),
{
}

impl LookupReverse for u32 {
    fn swap_bits(self) -> (r: u32) {
        proof {
            lemma_reversed_bytes_u32(self);
            lemma_reverse_u32(self);
        }
        (reverse_byte(#[verifier::truncate] (self as u8)) as u32) << 24
            | (reverse_byte(#[verifier::truncate] ((self >> 8) as u8)) as u32) << 16
            | (reverse_byte(#[verifier::truncate] ((self >> 16) as u8)) as u32) << 8
            | (reverse_byte(#[verifier::truncate] ((self >> 24) as u8)) as u32)
    }
}

/// The reversed bytes of `v`, put together in the opposite order, are the
/// reversal of `v`.
proof fn lemma_reversed_bytes_u64(v: u64)
    by (bit_vector)
    ensures
        (reverse_u8(v as u8) as u64) << 56
            | (reverse_u8((v >> 8) as u8) as u64) << 48
            | (reverse_u8((v >> 16) as u8) as u64) << 40
            | (reverse_u8((v >> 24) as u8) as u64) << 32
            | (reverse_u8((v >> 32) as u8) as u64) << 24
            | (reverse_u8((v >> 40) as u8) as u64) << 16
            | (reverse_u8((v >> 48) as u8) as u64) << 8
            | (reverse_u8((v >> 56) as u8) as u64) == reverse_u64(v),
{
}

impl LookupReverse for u64 {
    fn swap_bits(self) -> (r: u64) {
        proof {
            lemma_reversed_bytes_u64(self);
            lemma_reverse_u64(self);
        }
        (reverse_byte(#[verifier::truncate] (self as u8)) as u64) << 56
            | (reverse_byte(#[verifier::truncate] ((self >> 8) as u8)) as u64) << 48
            | (reverse_byte(#[verifier::truncate] ((self >> 16) as u8)) as u64) << 40
            | (reverse_byte(#[verifier::truncate] ((self >> 24) as u8)) as u64) << 32
            | (reverse_byte(#[verifier::truncate] ((self >> 32) as u8)) as u64) << 24
            | (reverse_byte(#[verifier::truncate] ((self >> 40) as u8)) as u64) << 16
            | (reverse_byte(#[verifier::truncate] ((self >> 48) as u8)) as u64) << 8
            | (reverse_byte(#[verifier::truncate] ((self >> 56) as u8)) as u64)
    }
}

/// The reversed bytes of `v`, put together in the opposite order, are the
/// reversal of `v`.
proof fn lemma_reversed_bytes_u128(v: u128)
    by (bit_vector)
    ensures
        (reverse_u8(v as u8) as u128) << 120
            | (reverse_u8((v >> 8) as u8) as u128) << 112
            | (reverse_u8((v >> 16) as u8) as u128) << 104
            | (reverse_u8((v >> 24) as u8) as u128) << 96
            | (reverse_u8((v >> 32) as u8) as u128) << 88
            | (reverse_u8((v >> 40) as u8) as u128) << 80
            | (reverse_u8((v >> 48) as u8) as u128) << 72
            | (reverse_u8((v >> 56) as u8) as u128) << 64
            | (reverse_u8((v >> 64) as u8) as u128) << 56
            | (reverse_u8((v >> 72) as u8) as u128) << 48
            | (reverse_u8((v >> 80) as u8) as u128) << 40
            | (reverse_u8((v >> 88) as u8) as u128) << 32
            | (reverse_u8((v >> 96) as u8) as u128) << 24
            | (reverse_u8((v >> 104) as u8) as u128) << 16
            | (reverse_u8((v >> 112) as u8) as u128) << 8
            | (reverse_u8((v >> 120) as u8) as u128) == reverse_u128(v),
{
}

impl LookupReverse for u128 {
    fn swap_bits(self) -> (r: u128) {
        proof {
            lemma_reversed_bytes_u128(self);
            lemma_reverse_u128(self);
        }
        (reverse_byte(#[verifier::truncate] (self as u8)) as u128) << 120
            | (reverse_byte(#[verifier::truncate] ((self >> 8) as u8)) as u128) << 112
            | (reverse_byte(#[verifier::truncate] ((self >> 16) as u8)) as u128) << 104
            | (reverse_byte(#[verifier::truncate] ((self >> 24) as u8)) as u128) << 96
            | (reverse_byte(#[verifier::truncate] ((self >> 32) as u8)) as u128) << 88
            | (reverse_byte(#[verifier::truncate] ((self >> 40) as u8)) as u128) << 80
            | (reverse_byte(#[verifier::truncate] ((self >> 48) as u8)) as u128) << 72
            | (reverse_byte(#[verifier::truncate] ((self >> 56) as u8)) as u128) << 64
            | (reverse_byte(#[verifier::truncate] ((self >> 64) as u8)) as u128) << 56
            | (reverse_byte(#[verifier::truncate] ((self >> 72) as u8)) as u128) << 48
            | (reverse_byte(#[verifier::truncate] ((self >> 80) as u8)) as u128) << 40
            | (reverse_byte(#[verifier::truncate] ((self >> 88) as u8)) as u128) << 32
            | (reverse_byte(#[verifier::truncate] ((self >> 96) as u8)) as u128) << 24
            | (reverse_byte(#[verifier::truncate] ((self >> 104) as u8)) as u128) << 16
            | (reverse_byte(#[verifier::truncate] ((self >> 112) as u8)) as u128) << 8
            | (reverse_byte(#[verifier::truncate] ((self >> 120) as u8)) as u128)
    }
}

impl LookupReverse for usize {
    fn swap_bits(self) -> (r: usize) {
        // The width of a pointer is known when the crate is built: the
        // compiler keeps the one branch that applies.
        if usize::BITS == 64 {
            LookupReverse::swap_bits(self as u64) as usize
        } else if usize::BITS == 32 {
            LookupReverse::swap_bits(self as u32) as usize
        } else {
            LookupReverse::swap_bits(self as u16) as usize
        }
    }
}

impl LookupReverse for i8 {
    fn swap_bits(self) -> (r: i8) {
        let u = i8_to_bits(self);
        let r = i8_from_bits(LookupReverse::swap_bits(u));
        proof {
            lemma_reversed_through_bits(self, u, r);
        }
        r
    }
}

impl LookupReverse for i16 {
    fn swap_bits(self) -> (r: i16) {
        let u = i16_to_bits(self);
        let r = i16_from_bits(LookupReverse::swap_bits(u));
        proof {
            lemma_reversed_through_bits(self, u, r);
        }
        r
    }
}

impl LookupReverse for i32 {
    fn swap_bits(self) -> (r: i32) {
        let u = i32_to_bits(self);
        let r = i32_from_bits(LookupReverse::swap_bits(u));
        proof {
            lemma_reversed_through_bits(self, u, r);
        }
        r
    }
}

impl LookupReverse for i64 {
    fn swap_bits(self) -> (r: i64) {
        let u = i64_to_bits(self);
        let r = i64_from_bits(LookupReverse::swap_bits(u));
        proof {
            lemma_reversed_through_bits(self, u, r);
        }
        r
    }
}

impl LookupReverse for i128 {
    fn swap_bits(self) -> (r: i128) {
        let u = i128_to_bits(self);
        let r = i128_from_bits(LookupReverse::swap_bits(u));
        proof {
            lemma_reversed_through_bits(self, u, r);
        }
        r
    }
}

impl LookupReverse for isize {
    fn swap_bits(self) -> (r: isize) {
        let u = isize_to_bits(self);
        let r = isize_from_bits(LookupReverse::swap_bits(u));
        proof {
            lemma_reversed_through_bits(self, u, r);
        }
        r
    }
}

} // verus!
