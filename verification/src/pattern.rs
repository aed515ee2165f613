//! Integers as bit patterns.
//!
//! Every primitive integer type is a fixed number of bits. [`BitPattern`]
//! reads a value of such a type as the natural number that its bits spell
//! in binary, which for a signed type is its two's-complement encoding.
use crate::model::{
    bit, lemma_reverse_bits_all_ones, lemma_reverse_bits_bit, lemma_reverse_bits_bound,
    lemma_reverse_bits_involution, lemma_reverse_bits_zero, reverse_bits,
};
use vstd::arithmetic::power2::*;
use vstd::layout::unsigned_int_max_values;
use vstd::prelude::*;

verus! {

/// A fixed-width integer type, seen as a sequence of `width()` bits.
pub trait BitPattern: Sized {
    /// The number of bits in a value of the type.
    spec fn width() -> nat;

    /// The natural number whose binary digits are the bits of `self`.
    spec fn pattern(self) -> nat;

    /// The value whose bits are the binary digits of `p`.
    spec fn from_pattern(p: nat) -> Self;

    /// A pattern fits in `width()` bits, and determines the value.
    proof fn lemma_pattern(self)
        ensures
            self.pattern() < pow2(Self::width()),
            Self::from_pattern(self.pattern()) == self,
    ;

    /// Every number that fits in `width()` bits is the pattern of a value.
    proof fn lemma_from_pattern(p: nat)
        requires
            p < pow2(Self::width()),
        ensures
            Self::from_pattern(p).pattern() == p,
    ;
}

/// The value of the same type whose bits are those of `v` in reverse order.
pub open spec fn reversed<T: BitPattern>(v: T) -> T {
    T::from_pattern(reverse_bits(v.pattern(), T::width()))
}

/// Two values of one type with the same pattern are the same value.
pub proof fn lemma_pattern_injective<T: BitPattern>(a: T, b: T)
    requires
        a.pattern() == b.pattern(),
    ensures
        a == b,
{
    a.lemma_pattern();
    b.lemma_pattern();
}

/// The pattern of the reversed value is the reversal of the pattern.
pub proof fn lemma_reversed_pattern<T: BitPattern>(v: T)
    ensures
        reversed(v).pattern() == reverse_bits(v.pattern(), T::width()),
{
    lemma_reverse_bits_bound(v.pattern(), T::width());
    T::lemma_from_pattern(reverse_bits(v.pattern(), T::width()));
}

/// Bit `i` of the reversed value is bit `width() - 1 - i` of the value.
pub proof fn lemma_reversed_bit<T: BitPattern>(v: T, i: nat)
    requires
        i < T::width(),
    ensures
        bit(reversed(v).pattern(), i) == bit(v.pattern(), (T::width() - 1 - i) as nat),
{
    lemma_reversed_pattern(v);
    lemma_reverse_bits_bit(v.pattern(), T::width(), i);
}

/// Values of two types of one width that have the same pattern have
/// reversed values with the same pattern.
pub proof fn lemma_reversed_same_pattern<S: BitPattern, U: BitPattern>(s: S, u: U)
    requires
        S::width() == U::width(),
        s.pattern() == u.pattern(),
    ensures
        reversed(s).pattern() == reversed(u).pattern(),
{
    lemma_reversed_pattern(s);
    lemma_reversed_pattern(u);
}

/// Reversing twice gives back the value.
pub proof fn lemma_reversed_involution<T: BitPattern>(v: T)
    ensures
        reversed(reversed(v)) == v,
{
    v.lemma_pattern();
    lemma_reversed_pattern(v);
    lemma_reverse_bits_involution(v.pattern(), T::width());
}

/// The value with no bit set is its own reversal.
pub proof fn lemma_reversed_zero<T: BitPattern>(v: T)
    requires
        v.pattern() == 0,
    ensures
        reversed(v) == v,
{
    v.lemma_pattern();
    lemma_reverse_bits_zero(T::width());
}

/// The value with every bit set is its own reversal.
pub proof fn lemma_reversed_all_ones<T: BitPattern>(v: T)
    requires
        v.pattern() == pow2(T::width()) - 1,
    ensures
        reversed(v) == v,
{
    v.lemma_pattern();
    lemma_reverse_bits_all_ones(T::width());
}

/// In every integer type, `0` and the value with all bits set, which is
/// `MAX` of an unsigned type and `-1` of a signed one, are their own
/// reversals.
pub proof fn lemma_reversed_fixed_points()
    ensures
        reversed(0u8) == 0u8 && reversed(u8::MAX) == u8::MAX,
        reversed(0u16) == 0u16 && reversed(u16::MAX) == u16::MAX,
        reversed(0u32) == 0u32 && reversed(u32::MAX) == u32::MAX,
        reversed(0u64) == 0u64 && reversed(u64::MAX) == u64::MAX,
        reversed(0u128) == 0u128 && reversed(u128::MAX) == u128::MAX,
        reversed(0usize) == 0usize && reversed(usize::MAX) == usize::MAX,
        reversed(0i8) == 0i8 && reversed(-1i8) == -1i8,
        reversed(0i16) == 0i16 && reversed(-1i16) == -1i16,
        reversed(0i32) == 0i32 && reversed(-1i32) == -1i32,
        reversed(0i64) == 0i64 && reversed(-1i64) == -1i64,
        reversed(0i128) == 0i128 && reversed(-1i128) == -1i128,
        reversed(0isize) == 0isize && reversed(-1isize) == -1isize,
{
    unsigned_int_max_values();
    lemma_reversed_zero(0u8);
    lemma_reversed_all_ones(u8::MAX);
    lemma_reversed_zero(0u16);
    lemma_reversed_all_ones(u16::MAX);
    lemma_reversed_zero(0u32);
    lemma_reversed_all_ones(u32::MAX);
    lemma_reversed_zero(0u64);
    lemma_reversed_all_ones(u64::MAX);
    lemma_reversed_zero(0u128);
    lemma_reversed_all_ones(u128::MAX);
    lemma_reversed_zero(0usize);
    lemma_reversed_all_ones(usize::MAX);
    lemma_reversed_zero(0i8);
    lemma_reversed_all_ones(-1i8);
    lemma_reversed_zero(0i16);
    lemma_reversed_all_ones(-1i16);
    lemma_reversed_zero(0i32);
    lemma_reversed_all_ones(-1i32);
    lemma_reversed_zero(0i64);
    lemma_reversed_all_ones(-1i64);
    lemma_reversed_zero(0i128);
    lemma_reversed_all_ones(-1i128);
    lemma_reversed_zero(0isize);
    lemma_reversed_all_ones(-1isize);
}

/// A pointer-sized value and the value of the fixed width of a pointer
/// that has the same bits have the same reversal.
pub proof fn lemma_reversed_pointer_width(v: usize, w: isize)
    ensures
        usize::BITS == 32 ==> reversed(v) as u32 == reversed(v as u32),
        usize::BITS == 64 ==> reversed(v) as u64 == reversed(v as u64),
        usize::BITS == 32 ==> reversed(w) as i32 == reversed(w as i32),
        usize::BITS == 64 ==> reversed(w) as i64 == reversed(w as i64),
{
    unsigned_int_max_values();
    if usize::BITS == 32 {
        lemma_reversed_same_pattern(v, v as u32);
        lemma_pattern_injective(reversed(v) as u32, reversed(v as u32));
        lemma_reversed_same_pattern(w, w as i32);
        lemma_pattern_injective(reversed(w) as i32, reversed(w as i32));
    } else {
        lemma_reversed_same_pattern(v, v as u64);
        lemma_pattern_injective(reversed(v) as u64, reversed(v as u64));
        lemma_reversed_same_pattern(w, w as i64);
        lemma_pattern_injective(reversed(w) as i64, reversed(w as i64));
    }
}

impl BitPattern for u8 {
    open spec fn width() -> nat {
        8
    }

    open spec fn pattern(self) -> nat {
        self as nat
    }

    open spec fn from_pattern(p: nat) -> u8 {
        p as u8
    }

    proof fn lemma_pattern(self) {
        unsigned_int_max_values();
    }

    proof fn lemma_from_pattern(p: nat) {
        unsigned_int_max_values();
    }
}

impl BitPattern for u16 {
    open spec fn width() -> nat {
        16
    }

    open spec fn pattern(self) -> nat {
        self as nat
    }

    open spec fn from_pattern(p: nat) -> u16 {
        p as u16
    }

    proof fn lemma_pattern(self) {
        unsigned_int_max_values();
    }

    proof fn lemma_from_pattern(p: nat) {
        unsigned_int_max_values();
    }
}

impl BitPattern for u32 {
    open spec fn width() -> nat {
        32
    }

    open spec fn pattern(self) -> nat {
        self as nat
    }

    open spec fn from_pattern(p: nat) -> u32 {
        p as u32
    }

    proof fn lemma_pattern(self) {
        unsigned_int_max_values();
    }

    proof fn lemma_from_pattern(p: nat) {
        unsigned_int_max_values();
    }
}

impl BitPattern for u64 {
    open spec fn width() -> nat {
        64
    }

    open spec fn pattern(self) -> nat {
        self as nat
    }

    open spec fn from_pattern(p: nat) -> u64 {
        p as u64
    }

    proof fn lemma_pattern(self) {
        unsigned_int_max_values();
    }

    proof fn lemma_from_pattern(p: nat) {
        unsigned_int_max_values();
    }
}

impl BitPattern for u128 {
    open spec fn width() -> nat {
        128
    }

    open spec fn pattern(self) -> nat {
        self as nat
    }

    open spec fn from_pattern(p: nat) -> u128 {
        p as u128
    }

    proof fn lemma_pattern(self) {
        unsigned_int_max_values();
    }

    proof fn lemma_from_pattern(p: nat) {
        unsigned_int_max_values();
    }
}

impl BitPattern for usize {
    open spec fn width() -> nat {
        usize::BITS as nat
    }

    open spec fn pattern(self) -> nat {
        self as nat
    }

    open spec fn from_pattern(p: nat) -> usize {
        p as usize
    }

    proof fn lemma_pattern(self) {
        unsigned_int_max_values();
    }

    proof fn lemma_from_pattern(p: nat) {
        unsigned_int_max_values();
    }
}

impl BitPattern for i8 {
    open spec fn width() -> nat {
        8
    }

    open spec fn pattern(self) -> nat {
        if self >= 0 {
            self as nat
        } else {
            (self + u8::MAX + 1) as nat
        }
    }

    open spec fn from_pattern(p: nat) -> i8 {
        if p <= i8::MAX {
            p as i8
        } else {
            (p - u8::MAX - 1) as i8
        }
    }

    proof fn lemma_pattern(self) {
        unsigned_int_max_values();
    }

    proof fn lemma_from_pattern(p: nat) {
        unsigned_int_max_values();
    }
}

impl BitPattern for i16 {
    open spec fn width() -> nat {
        16
    }

    open spec fn pattern(self) -> nat {
        if self >= 0 {
            self as nat
        } else {
            (self + u16::MAX + 1) as nat
        }
    }

    open spec fn from_pattern(p: nat) -> i16 {
        if p <= i16::MAX {
            p as i16
        } else {
            (p - u16::MAX - 1) as i16
        }
    }

    proof fn lemma_pattern(self) {
        unsigned_int_max_values();
    }

    proof fn lemma_from_pattern(p: nat) {
        unsigned_int_max_values();
    }
}

impl BitPattern for i32 {
    open spec fn width() -> nat {
        32
    }

    open spec fn pattern(self) -> nat {
        if self >= 0 {
            self as nat
        } else {
            (self + u32::MAX + 1) as nat
        }
    }

    open spec fn from_pattern(p: nat) -> i32 {
        if p <= i32::MAX {
            p as i32
        } else {
            (p - u32::MAX - 1) as i32
        }
    }

    proof fn lemma_pattern(self) {
        unsigned_int_max_values();
    }

    proof fn lemma_from_pattern(p: nat) {
        unsigned_int_max_values();
    }
}

impl BitPattern for i64 {
    open spec fn width() -> nat {
        64
    }

    open spec fn pattern(self) -> nat {
        if self >= 0 {
            self as nat
        } else {
            (self + u64::MAX + 1) as nat
        }
    }

    open spec fn from_pattern(p: nat) -> i64 {
        if p <= i64::MAX {
            p as i64
        } else {
            (p - u64::MAX - 1) as i64
        }
    }

    proof fn lemma_pattern(self) {
        unsigned_int_max_values();
    }

    proof fn lemma_from_pattern(p: nat) {
        unsigned_int_max_values();
    }
}

impl BitPattern for i128 {
    open spec fn width() -> nat {
        128
    }

    open spec fn pattern(self) -> nat {
        if self >= 0 {
            self as nat
        } else {
            (self + u128::MAX + 1) as nat
        }
    }

    open spec fn from_pattern(p: nat) -> i128 {
        if p <= i128::MAX {
            p as i128
        } else {
            (p - u128::MAX - 1) as i128
        }
    }

    proof fn lemma_pattern(self) {
        unsigned_int_max_values();
    }

    proof fn lemma_from_pattern(p: nat) {
        unsigned_int_max_values();
    }
}

impl BitPattern for isize {
    open spec fn width() -> nat {
        usize::BITS as nat
    }

    open spec fn pattern(self) -> nat {
        if self >= 0 {
            self as nat
        } else {
            (self + usize::MAX + 1) as nat
        }
    }

    open spec fn from_pattern(p: nat) -> isize {
        if p <= isize::MAX {
            p as isize
        } else {
            (p - usize::MAX - 1) as isize
        }
    }

    proof fn lemma_pattern(self) {
        unsigned_int_max_values();
    }

    proof fn lemma_from_pattern(p: nat) {
        unsigned_int_max_values();
    }
}

} // verus!
