use bit_reverse::lookup::REVERSE_LOOKUP;
use bit_reverse::signed::{
    i128_from_bits, i128_to_bits, i16_from_bits, i16_to_bits, i32_from_bits, i32_to_bits,
    i64_from_bits, i64_to_bits, i8_from_bits, i8_to_bits, isize_from_bits, isize_to_bits,
};
use bit_reverse::{BitwiseReverse, LookupReverse, ParallelReverse};

#[test]
fn algorithms_agree_on_every_u16() {
    for v in 0..=u16::MAX {
        let bitwise = BitwiseReverse::swap_bits(v);
        assert_eq!(bitwise, ParallelReverse::swap_bits(v));
        assert_eq!(bitwise, LookupReverse::swap_bits(v));
        let b = v as u8;
        let bitwise = BitwiseReverse::swap_bits(b);
        assert_eq!(bitwise, ParallelReverse::swap_bits(b));
        assert_eq!(bitwise, LookupReverse::swap_bits(b));
    }
}

#[test]
fn algorithms_agree_on_wide_samples() {
    let mut x: u128 = 0xFEEDFACE;
    for _ in 0..2000 {
        x = x.wrapping_mul(0x2360ED051FC65DA4_4385DF649FCCF645).wrapping_add(1);
        let a = x as u32;
        assert_eq!(BitwiseReverse::swap_bits(a), ParallelReverse::swap_bits(a));
        assert_eq!(BitwiseReverse::swap_bits(a), LookupReverse::swap_bits(a));
        let b = x as u64;
        assert_eq!(BitwiseReverse::swap_bits(b), ParallelReverse::swap_bits(b));
        assert_eq!(BitwiseReverse::swap_bits(b), LookupReverse::swap_bits(b));
        assert_eq!(BitwiseReverse::swap_bits(x), ParallelReverse::swap_bits(x));
        assert_eq!(BitwiseReverse::swap_bits(x), LookupReverse::swap_bits(x));
        let c = x as isize;
        assert_eq!(BitwiseReverse::swap_bits(c), ParallelReverse::swap_bits(c));
        assert_eq!(BitwiseReverse::swap_bits(c), LookupReverse::swap_bits(c));
        let d = x as i128;
        assert_eq!(BitwiseReverse::swap_bits(d), ParallelReverse::swap_bits(d));
        assert_eq!(BitwiseReverse::swap_bits(d), LookupReverse::swap_bits(d));
    }
}

#[test]
fn algorithms_agree_on_literals() {
    assert_eq!(BitwiseReverse::swap_bits(0xABu8), 0xD5);
    assert_eq!(ParallelReverse::swap_bits(0xABu8), 0xD5);
    assert_eq!(LookupReverse::swap_bits(0xABu8), 0xD5);
    assert_eq!(BitwiseReverse::swap_bits(0xABCD2345u32), 0xA2C4B3D5);
    assert_eq!(ParallelReverse::swap_bits(0xABCD2345u32), 0xA2C4B3D5);
    assert_eq!(LookupReverse::swap_bits(0xABCD2345u32), 0xA2C4B3D5);
}

#[test]
fn lookup_table_reverses_every_byte() {
    assert_eq!(REVERSE_LOOKUP.len(), 256);
    for b in 0..=u8::MAX {
        assert_eq!(REVERSE_LOOKUP[b as usize], b.reverse_bits());
    }
}

#[test]
fn lookup_table_is_its_own_inverse() {
    for b in 0..=u8::MAX {
        assert_eq!(REVERSE_LOOKUP[REVERSE_LOOKUP[b as usize] as usize], b);
    }
}

#[test]
fn signed_to_bits_keeps_the_pattern() {
    assert_eq!(i8_to_bits(0), 0);
    assert_eq!(i8_to_bits(1), 1);
    assert_eq!(i8_to_bits(-1), 0xFF);
    assert_eq!(i8_to_bits(i8::MIN), 0x80);
    assert_eq!(i8_to_bits(i8::MAX), 0x7F);
    assert_eq!(i16_to_bits(-2), 0xFFFE);
    assert_eq!(i16_to_bits(i16::MIN), 0x8000);
    assert_eq!(i32_to_bits(-1), u32::MAX);
    assert_eq!(i32_to_bits(i32::MIN), 0x8000_0000);
    assert_eq!(i64_to_bits(-1), u64::MAX);
    assert_eq!(i64_to_bits(i64::MIN), 0x8000_0000_0000_0000);
    assert_eq!(i128_to_bits(-1), u128::MAX);
    assert_eq!(i128_to_bits(i128::MIN), 1u128 << 127);
    assert_eq!(isize_to_bits(-1), usize::MAX);
    assert_eq!(isize_to_bits(isize::MIN), 1usize << (usize::BITS - 1));
    assert_eq!(isize_to_bits(5), 5);
}

#[test]
fn signed_from_bits_keeps_the_pattern() {
    assert_eq!(i8_from_bits(0), 0);
    assert_eq!(i8_from_bits(0x7F), i8::MAX);
    assert_eq!(i8_from_bits(0x80), i8::MIN);
    assert_eq!(i8_from_bits(0xFF), -1);
    assert_eq!(i16_from_bits(0xFFFE), -2);
    assert_eq!(i32_from_bits(u32::MAX), -1);
    assert_eq!(i32_from_bits(0x8000_0000), i32::MIN);
    assert_eq!(i64_from_bits(u64::MAX), -1);
    assert_eq!(i128_from_bits(u128::MAX), -1);
    assert_eq!(i128_from_bits(1u128 << 127), i128::MIN);
    assert_eq!(isize_from_bits(usize::MAX), -1);
    assert_eq!(isize_from_bits(5), 5);
}

#[test]
fn signed_round_trip() {
    for v in i16::MIN..=i16::MAX {
        assert_eq!(i16_from_bits(i16_to_bits(v)), v);
        assert_eq!(i8_from_bits(i8_to_bits(v as i8)), v as i8);
    }
    for u in 0..=u16::MAX {
        assert_eq!(i16_to_bits(i16_from_bits(u)), u);
    }
}
