//! Reversal by divide and conquer.
//!
//! Neighbouring bits are exchanged, then neighbouring pairs of bits, then
//! the two nibbles of each byte, each pass with one mask; a byte swap
//! completes the reversal. The running time does not depend on the value.
use crate::bytes::{
    lemma_byte_reversal_u128, lemma_byte_reversal_u16, lemma_byte_reversal_u32,
    lemma_byte_reversal_u64,
};
use crate::pattern::{reversed, BitPattern};
use crate::signed::{
    i128_from_bits, i128_to_bits, i16_from_bits, i16_to_bits, i32_from_bits, i32_to_bits,
    i64_from_bits, i64_to_bits, i8_from_bits, i8_to_bits, isize_from_bits, isize_to_bits,
    lemma_reversed_through_bits,
};
use crate::word::{
    lemma_reverse_u128, lemma_reverse_u16, lemma_reverse_u32, lemma_reverse_u64, lemma_reverse_u8,
};
use vstd::prelude::*;

verus! {

/// Computes bit reversal by swapping ever larger groups of bits in
/// parallel.
pub trait ParallelReverse: BitPattern {
    /// Swaps the bits such that bit `i` becomes bit `N - 1 - i`, where `N`
    /// is the width of the type in bits.
    fn swap_bits(self) -> (r: Self)
        ensures
            r == reversed(self),
    ;
}

impl ParallelReverse for u8 {
    fn swap_bits(self) -> (r: u8) {
        let mut v = self;
        // Swap odd and even bits
        v = ((v >> 1) & 0x55) | ((v & 0x55) << 1);
        // Swap consecutive pairs
        v = ((v >> 2) & 0x33) | ((v & 0x33) << 2);
        // Swap nibbles
        v = ((v >> 4) & 0x0f) | ((v & 0x0f) << 4);
        proof {
            lemma_reverse_u8(self);
        }
        v
    }
}

impl ParallelReverse for u16 {
    fn swap_bits(self) -> (r: u16) {
        let mut v = self;
        // Swap odd and even bits
        v = ((v >> 1) & 0x5555) | ((v & 0x5555) << 1);
        // Swap consecutive pairs
        v = ((v >> 2) & 0x3333) | ((v & 0x3333) << 2);
        // Swap nibbles
        v = ((v >> 4) & 0x0f0f) | ((v & 0x0f0f) << 4);
        let r = v.swap_bytes();
        proof {
            lemma_byte_reversal_u16(v, r);
            lemma_reverse_u16(self);
        }
        r
    }
}

impl ParallelReverse for u32 {
    fn swap_bits(self) -> (r: u32) {
        let mut v = self;
        // Swap odd and even bits
        v = ((v >> 1) & 0x55555555) | ((v & 0x55555555) << 1);
        // Swap consecutive pairs
        v = ((v >> 2) & 0x33333333) | ((v & 0x33333333) << 2);
        // Swap nibbles
        v = ((v >> 4) & 0x0f0f0f0f) | ((v & 0x0f0f0f0f) << 4);
        let r = v.swap_bytes();
        proof {
            lemma_byte_reversal_u32(v, r);
            lemma_reverse_u32(self);
        }
        r
    }
}

impl ParallelReverse for u64 {
    fn swap_bits(self) -> (r: u64) {
        let mut v = self;
        // Swap odd and even bits
        v = ((v >> 1) & 0x55555555_55555555) | ((v & 0x55555555_55555555) << 1);
        // Swap consecutive pairs
        v = ((v >> 2) & 0x33333333_33333333) | ((v & 0x33333333_33333333) << 2);
        // Swap nibbles
        v = ((v >> 4) & 0x0f0f0f0f_0f0f0f0f) | ((v & 0x0f0f0f0f_0f0f0f0f) << 4);
        let r = v.swap_bytes();
        proof {
            lemma_byte_reversal_u64(v, r);
            lemma_reverse_u64(self);
        }
        r
    }
}

impl ParallelReverse for u128 {
    fn swap_bits(self) -> (r: u128) {
        let mut v = self;
        // Swap odd and even bits
        v = ((v >> 1) & 0x55555555_55555555_55555555_55555555)
            | ((v & 0x55555555_55555555_55555555_55555555) << 1);
        // Swap consecutive pairs
        v = ((v >> 2) & 0x33333333_33333333_33333333_33333333)
            | ((v & 0x33333333_33333333_33333333_33333333) << 2);
        // Swap nibbles
        v = ((v >> 4) & 0x0f0f0f0f_0f0f0f0f_0f0f0f0f_0f0f0f0f)
            | ((v & 0x0f0f0f0f_0f0f0f0f_0f0f0f0f_0f0f0f0f) << 4);
        let r = v.swap_bytes();
        proof {
            lemma_byte_reversal_u128(v, r);
            lemma_reverse_u128(self);
        }
        r
    }
}

impl ParallelReverse for usize {
    fn swap_bits(self) -> (r: usize) {
        // The width of a pointer is known when the crate is built: the
        // compiler keeps the one branch that applies.
        if usize::BITS == 64 {
            ParallelReverse::swap_bits(self as u64) as usize
        } else if usize::BITS == 32 {
            ParallelReverse::swap_bits(self as u32) as usize
        } else {
            ParallelReverse::swap_bits(self as u16) as usize
        }
    }
}

impl ParallelReverse for i8 {
    fn swap_bits(self) -> (r: i8) {
        let u = i8_to_bits(self);
        let r = i8_from_bits(ParallelReverse::swap_bits(u));
        proof {
            lemma_reversed_through_bits(self, u, r);
        }
        r
    }
}

impl ParallelReverse for i16 {
    fn swap_bits(self) -> (r: i16) {
        let u = i16_to_bits(self);
        let r = i16_from_bits(ParallelReverse::swap_bits(u));
        proof {
            lemma_reversed_through_bits(self, u, r);
        }
        r
    }
}

impl ParallelReverse for i32 {
    fn swap_bits(self) -> (r: i32) {
        let u = i32_to_bits(self);
        let r = i32_from_bits(ParallelReverse::swap_bits(u));
        proof {
            lemma_reversed_through_bits(self, u, r);
        }
        r
    }
}

impl ParallelReverse for i64 {
    fn swap_bits(self) -> (r: i64) {
        let u = i64_to_bits(self);
        let r = i64_from_bits(ParallelReverse::swap_bits(u));
        proof {
            lemma_reversed_through_bits(self, u, r);
        }
        r
    }
}

impl ParallelReverse for i128 {
    fn swap_bits(self) -> (r: i128) {
        let u = i128_to_bits(self);
        let r = i128_from_bits(ParallelReverse::swap_bits(u));
        proof {
            lemma_reversed_through_bits(self, u, r);
        }
        r
    }
}

impl ParallelReverse for isize {
    fn swap_bits(self) -> (r: isize) {
        let u = isize_to_bits(self);
        let r = isize_from_bits(ParallelReverse::swap_bits(u));
        proof {
            lemma_reversed_through_bits(self, u, r);
        }
        r
    }
}

} // verus!
