//! What the three algorithms have in common.
//!
//! Each `swap_bits` returns [`reversed`] of its argument. The lemmas here
//! draw the consequences for the functions themselves: `call_ensures(f,
//! (v,), r)` says that `r` is a value that `f` may return for `v`.
use crate::bitwise::BitwiseReverse;
use crate::lookup::LookupReverse;
use crate::parallel::ParallelReverse;
use crate::pattern::{lemma_reversed_involution, lemma_reversed_same_pattern, reversed, BitPattern};
use vstd::prelude::*;

verus! {

/// Whatever the three algorithms return for one value is the same value.
pub proof fn lemma_algorithms_agree<T: BitwiseReverse + ParallelReverse + LookupReverse>(
    v: T,
    bitwise: T,
    parallel: T,
    lookup: T,
)
    requires
        call_ensures(<T as BitwiseReverse>::swap_bits, (v,), bitwise),
        call_ensures(<T as ParallelReverse>::swap_bits, (v,), parallel),
        call_ensures(<T as LookupReverse>::swap_bits, (v,), lookup),
    ensures
        bitwise == parallel,
        parallel == lookup,
        lookup == reversed(v),
{
}

/// Two rounds of `BitwiseReverse::swap_bits` give back the value.
pub proof fn lemma_bitwise_involution<T: BitwiseReverse>(v: T, once: T, twice: T)
    requires
        call_ensures(<T as BitwiseReverse>::swap_bits, (v,), once),
        call_ensures(<T as BitwiseReverse>::swap_bits, (once,), twice),
    ensures
        twice == v,
{
    lemma_reversed_involution(v);
}

/// Two rounds of `ParallelReverse::swap_bits` give back the value.
pub proof fn lemma_parallel_involution<T: ParallelReverse>(v: T, once: T, twice: T)
    requires
        call_ensures(<T as ParallelReverse>::swap_bits, (v,), once),
        call_ensures(<T as ParallelReverse>::swap_bits, (once,), twice),
    ensures
        twice == v,
{
    lemma_reversed_involution(v);
}

/// Two rounds of `LookupReverse::swap_bits` give back the value.
pub proof fn lemma_lookup_involution<T: LookupReverse>(v: T, once: T, twice: T)
    requires
        call_ensures(<T as LookupReverse>::swap_bits, (v,), once),
        call_ensures(<T as LookupReverse>::swap_bits, (once,), twice),
    ensures
        twice == v,
{
    lemma_reversed_involution(v);
}

/// Where two values have the same bits, be it a signed and an unsigned one
/// or a pointer-sized one and one of the fixed width of a pointer, so have
/// the values that `BitwiseReverse::swap_bits` returns for them.
pub proof fn lemma_bitwise_same_pattern<S: BitwiseReverse, U: BitwiseReverse>(
    s: S,
    u: U,
    rs: S,
    ru: U,
)
    requires
        S::width() == U::width(),
        s.pattern() == u.pattern(),
        call_ensures(<S as BitwiseReverse>::swap_bits, (s,), rs),
        call_ensures(<U as BitwiseReverse>::swap_bits, (u,), ru),
    ensures
        rs.pattern() == ru.pattern(),
{
    lemma_reversed_same_pattern(s, u);
}

/// Where two values have the same bits, be it a signed and an unsigned one
/// or a pointer-sized one and one of the fixed width of a pointer, so have
/// the values that `ParallelReverse::swap_bits` returns for them.
pub proof fn lemma_parallel_same_pattern<S: ParallelReverse, U: ParallelReverse>(
    s: S,
    u: U,
    rs: S,
    ru: U,
)
    requires
        S::width() == U::width(),
        s.pattern() == u.pattern(),
        call_ensures(<S as ParallelReverse>::swap_bits, (s,), rs),
        call_ensures(<U as ParallelReverse>::swap_bits, (u,), ru),
    ensures
        rs.pattern() == ru.pattern(),
{
    lemma_reversed_same_pattern(s, u);
}

/// Where two values have the same bits, be it a signed and an unsigned one
/// or a pointer-sized one and one of the fixed width of a pointer, so have
/// the values that `LookupReverse::swap_bits` returns for them.
pub proof fn lemma_lookup_same_pattern<S: LookupReverse, U: LookupReverse>(
    s: S,
    u: U,
    rs: S,
    ru: U,
)
    requires
        S::width() == U::width(),
        s.pattern() == u.pattern(),
        call_ensures(<S as LookupReverse>::swap_bits, (s,), rs),
        call_ensures(<U as LookupReverse>::swap_bits, (u,), ru),
    ensures
        rs.pattern() == ru.pattern(),
{
    lemma_reversed_same_pattern(s, u);
}

} // verus!
