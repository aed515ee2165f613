//! The mathematical model: bits of a natural number and their reversal.
use vstd::arithmetic::div_mod::*;
use vstd::arithmetic::mul::*;
use vstd::arithmetic::power2::*;
use vstd::prelude::*;

verus! {

/// Whether bit `i` of `v` is set, bit 0 being the least significant.
pub open spec fn bit(v: nat, i: nat) -> bool {
    (v / pow2(i)) % 2 == 1
}

/// The number whose lowest `width` bits are those of `v` in reverse order:
/// bit 0 of `v` becomes bit `width - 1`, bit 1 becomes bit `width - 2`, and
/// so on. Bits of `v` at `width` and above are dropped.
pub open spec fn reverse_bits(v: nat, width: nat) -> nat
    decreases width,
{
    if width == 0 {
        0
    } else if v % 2 == 1 {
        pow2((width - 1) as nat) + reverse_bits(v / 2, (width - 1) as nat)
    } else {
        reverse_bits(v / 2, (width - 1) as nat)
    }
}

/// Bit `i + 1` of `v` is bit `i` of `v / 2`.
pub proof fn lemma_bit_of_half(v: nat, i: nat)
    ensures
        bit(v, i + 1) == bit(v / 2, i),
{
    lemma_pow2_unfold(i + 1);
    lemma_pow2_pos(i);
    lemma_div_denominator(v as int, 2, pow2(i) as int);
    lemma_mul_is_commutative(2, pow2(i) as int);
}

/// Bit 0 of `v` is its parity.
pub proof fn lemma_bit_zero(v: nat)
    ensures
        bit(v, 0) == (v % 2 == 1),
{
    lemma2_to64();
}

/// The bits of `high * 2^width + low`, where `low` fits in `width` bits:
/// those of `low` below `width`, and those of `high` from `width` on.
pub proof fn lemma_bit_of_sum(high: nat, low: nat, width: nat, i: nat)
    requires
        low < pow2(width),
    ensures
        i < width ==> bit(high * pow2(width) + low, i) == bit(low, i),
        i >= width ==> bit(high * pow2(width) + low, i) == bit(high, (i - width) as nat),
    decreases i,
{
    let v = high * pow2(width) + low;
    lemma_pow2_pos(width);
    if width == 0 {
        lemma2_to64();
        assert(low == 0);
        assert(v == high) by (nonlinear_arith)
            requires
                v == high * pow2(width) + low,
                pow2(width) == 1,
                low == 0,
        ;
    } else if i == 0 {
        lemma_bit_zero(v);
        lemma_bit_zero(low);
        lemma_pow2_unfold(width);
        let half = pow2((width - 1) as nat);
        assert(v == 2 * (high * half) + low) by (nonlinear_arith)
            requires
                v == high * pow2(width) + low,
                pow2(width) == 2 * half,
        ;
        lemma_mod_multiples_vanish((high * half) as int, low as int, 2);
    } else {
        lemma_pow2_unfold(width);
        let half = pow2((width - 1) as nat);
        assert(v / 2 == high * half + low / 2) by {
            assert(v == 2 * (high * half) + low) by (nonlinear_arith)
                requires
                    v == high * pow2(width) + low,
                    pow2(width) == 2 * half,
            ;
            lemma_div_multiples_vanish_fancy((high * half) as int, (low % 2) as int, 2);
            lemma_fundamental_div_mod(low as int, 2);
            lemma_hoist_over_denominator(low as int, (high * half) as int, 2);
        }
        lemma_bit_of_half(v, (i - 1) as nat);
        lemma_bit_of_half(low, (i - 1) as nat);
        lemma_bit_of_sum(high, low / 2, (width - 1) as nat, (i - 1) as nat);
    }
}

/// The reversal fits in `width` bits.
pub proof fn lemma_reverse_bits_bound(v: nat, width: nat)
    ensures
        reverse_bits(v, width) < pow2(width),
    decreases width,
{
    if width == 0 {
        lemma2_to64();
    } else {
        let rest = (width - 1) as nat;
        lemma_reverse_bits_bound(v / 2, rest);
        lemma_pow2_unfold(width);
    }
}

/// Bit `i` of the reversal is bit `width - 1 - i` of the input.
pub proof fn lemma_reverse_bits_bit(v: nat, width: nat, i: nat)
    requires
        i < width,
    ensures
        bit(reverse_bits(v, width), i) == bit(v, (width - 1 - i) as nat),
    decreases width,
{
    let rest = (width - 1) as nat;
    lemma_reverse_bits_bound(v / 2, rest);
    lemma_bit_of_sum(v % 2, reverse_bits(v / 2, rest), rest, i);
    assert(reverse_bits(v, width) == (v % 2) * pow2(rest) + reverse_bits(v / 2, rest)) by {
        assert(0 * pow2(rest) == 0 && 1 * pow2(rest) == pow2(rest)) by (nonlinear_arith);
    }
    if i < rest {
        lemma_reverse_bits_bit(v / 2, rest, i);
        lemma_bit_of_half(v, (rest - 1 - i) as nat);
    } else {
        lemma_bit_zero(v % 2);
        lemma_bit_zero(v);
        lemma_mod_twice(v as int, 2);
    }
}

/// Two numbers below `2^width` with the same bits are the same number.
pub proof fn lemma_bits_determine(a: nat, b: nat, width: nat)
    requires
        a < pow2(width),
        b < pow2(width),
        forall|i: nat| i < width ==> bit(a, i) == bit(b, i),
    ensures
        a == b,
    decreases width,
{
    if width == 0 {
        lemma2_to64();
    } else {
        let rest = (width - 1) as nat;
        lemma_pow2_unfold(width);
        let (half_a, half_b) = (a / 2, b / 2);
        assert forall|i: nat| i < rest implies bit(half_a, i) == bit(half_b, i) by {
            lemma_bit_of_half(a, i);
            lemma_bit_of_half(b, i);
            assert(bit(a, i + 1) == bit(b, i + 1));
        }
        lemma_bits_determine(half_a, half_b, rest);
        lemma_bit_zero(a);
        lemma_bit_zero(b);
        assert(bit(a, 0) == bit(b, 0));
        lemma_fundamental_div_mod(a as int, 2);
        lemma_fundamental_div_mod(b as int, 2);
    }
}

/// The reversal is the only number below `2^width` whose bit `i` is bit
/// `width - 1 - i` of the input, for every `i` below `width`.
pub proof fn lemma_reverse_bits_unique(v: nat, r: nat, width: nat)
    requires
        r < pow2(width),
        forall|i: nat| i < width ==> bit(r, i) == bit(v, (width - 1 - i) as nat),
    ensures
        r == reverse_bits(v, width),
{
    lemma_reverse_bits_bound(v, width);
    assert forall|i: nat| i < width implies bit(r, i) == bit(reverse_bits(v, width), i) by {
        lemma_reverse_bits_bit(v, width, i);
    }
    lemma_bits_determine(r, reverse_bits(v, width), width);
}

/// Reversing twice gives back a number that fits in `width` bits.
pub proof fn lemma_reverse_bits_involution(v: nat, width: nat)
    requires
        v < pow2(width),
    ensures
        reverse_bits(reverse_bits(v, width), width) == v,
{
    let r = reverse_bits(v, width);
    assert forall|i: nat| i < width implies bit(v, i) == bit(r, (width - 1 - i) as nat) by {
        lemma_reverse_bits_bit(v, width, (width - 1 - i) as nat);
    }
    lemma_reverse_bits_unique(r, v, width);
}

/// Zero is its own reversal at every width.
pub proof fn lemma_reverse_bits_zero(width: nat)
    ensures
        reverse_bits(0, width) == 0,
    decreases width,
{
    if width > 0 {
        lemma_reverse_bits_zero((width - 1) as nat);
    }
}

/// The number with all of its lowest `width` bits set is its own reversal.
pub proof fn lemma_reverse_bits_all_ones(width: nat)
    ensures
        pow2(width) >= 1,
        reverse_bits((pow2(width) - 1) as nat, width) == pow2(width) - 1,
    decreases width,
{
    lemma_pow2_pos(width);
    if width > 0 {
        let rest = (width - 1) as nat;
        lemma_reverse_bits_all_ones(rest);
        lemma_pow2_unfold(width);
        let ones = (pow2(width) - 1) as nat;
        assert(ones == 2 * (pow2(rest) - 1) + 1);
        assert(ones % 2 == 1 && ones / 2 == pow2(rest) - 1) by {
            lemma_fundamental_div_mod_converse(ones as int, 2, pow2(rest) - 1, 1);
        }
    } else {
        lemma2_to64();
    }
}

} // verus!
