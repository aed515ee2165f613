//! Bit reversal of the primitive integers.
//!
//! Three algorithms compute the same permutation of a value's bits: bit `i`
//! of the result is bit `N - 1 - i` of the input, where `N` is the width of
//! the type.
//!
//! * [`BitwiseReverse`] moves one bit per step and stops early once the
//!   remaining input bits are all zero.
//! * [`ParallelReverse`] swaps neighbouring bits, pairs and nibbles with
//!   masks, then swaps the bytes.
//! * [`LookupReverse`] reverses each byte through a 256-entry table and
//!   swaps the bytes.
//!
//! Every `swap_bits` is proved to return [`model::reverse_bits`] of its
//! argument's bit pattern.
pub mod agreement;
pub mod bitwise;
pub mod bytes;
pub mod lookup;
pub mod model;
pub mod parallel;
pub mod pattern;
pub mod signed;
pub mod word;

pub use bitwise::BitwiseReverse;
pub use lookup::LookupReverse;
pub use parallel::ParallelReverse;
