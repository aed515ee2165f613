use bit_reverse::LookupReverse;

#[test]
fn lookup_reverse_u8() {
    assert_eq!(0xABu8.swap_bits(), 0xD5u8);
}

#[test]
fn lookup_reverse_u16() {
    assert_eq!(0xABCDu16.swap_bits(), 0xB3D5u16);
}

#[test]
fn lookup_reverse_u32() {
    assert_eq!(0xABCD2345u32.swap_bits(), 0xA2C4B3D5u32);
}

#[test]
fn lookup_reverse_u64() {
    assert_eq!(0x0123456789ABCDEFu64.swap_bits(), 0xF7B3D591E6A2C480u64);
}

#[test]
fn lookup_reverse_u128() {
    assert_eq!(
        0x0123456789ABCDEF0123456789ABCDEFu128.swap_bits(),
        0xF7B3D591E6A2C480F7B3D591E6A2C480u128
    );
}

#[test]
fn lookup_reverse_usize() {
    assert_eq!(0xFFusize.swap_bits(), 0xFFusize.swap_bytes());
}

#[test]
fn lookup_reverse_i8() {
    assert_eq!((0xABu8 as i8).swap_bits(), 0xD5u8 as i8);
}

#[test]
fn lookup_reverse_i16() {
    assert_eq!((0xABCDu16 as i16).swap_bits(), 0xB3D5u16 as i16);
}

#[test]
fn lookup_reverse_i32() {
    assert_eq!((0xABCD2345u32 as i32).swap_bits(), 0xA2C4B3D5u32 as i32);
}

#[test]
fn lookup_reverse_i64() {
    assert_eq!((0x0123456789ABCDEFu64 as i64).swap_bits(), 0xF7B3D591E6A2C480u64 as i64);
}

#[test]
fn lookup_reverse_i128() {
    assert_eq!(
        (0x0123456789ABCDEF0123456789ABCDEFu128 as i128).swap_bits(),
        0xF7B3D591E6A2C480F7B3D591E6A2C480u128 as i128
    );
}

#[test]
fn lookup_reverse_isize() {
    assert_eq!(0xFFisize.swap_bits(), 0xFFisize.swap_bytes());
}

#[test]
fn lookup_reverse_single_bits() {
    assert_eq!(0x01u8.swap_bits(), 0x80u8);
    assert_eq!(0x80u8.swap_bits(), 0x01u8);
    assert_eq!(0xA0u8.swap_bits(), 0x05u8);
    assert_eq!(1u16.swap_bits(), 0x8000u16);
    assert_eq!(1u32.swap_bits(), 0x8000_0000u32);
    assert_eq!(1u64.swap_bits(), 0x8000_0000_0000_0000u64);
    assert_eq!(1u128.swap_bits(), 1u128 << 127);
    assert_eq!((1u128 << 127).swap_bits(), 1u128);
    assert_eq!(1usize.swap_bits(), 1usize << (usize::BITS - 1));
    assert_eq!(1i8.swap_bits(), i8::MIN);
    assert_eq!(i8::MIN.swap_bits(), 1i8);
    assert_eq!(1i64.swap_bits(), i64::MIN);
    assert_eq!(1isize.swap_bits(), isize::MIN);
}

#[test]
fn lookup_zero_and_all_ones_are_fixed() {
    assert_eq!(0u8.swap_bits(), 0);
    assert_eq!(u8::MAX.swap_bits(), u8::MAX);
    assert_eq!(0u16.swap_bits(), 0);
    assert_eq!(u16::MAX.swap_bits(), u16::MAX);
    assert_eq!(0u32.swap_bits(), 0);
    assert_eq!(u32::MAX.swap_bits(), u32::MAX);
    assert_eq!(0u64.swap_bits(), 0);
    assert_eq!(u64::MAX.swap_bits(), u64::MAX);
    assert_eq!(0u128.swap_bits(), 0);
    assert_eq!(u128::MAX.swap_bits(), u128::MAX);
    assert_eq!(0usize.swap_bits(), 0);
    assert_eq!(usize::MAX.swap_bits(), usize::MAX);
    assert_eq!(0i8.swap_bits(), 0);
    assert_eq!((-1i8).swap_bits(), -1);
    assert_eq!(0i16.swap_bits(), 0);
    assert_eq!((-1i16).swap_bits(), -1);
    assert_eq!(0i32.swap_bits(), 0);
    assert_eq!((-1i32).swap_bits(), -1);
    assert_eq!(0i64.swap_bits(), 0);
    assert_eq!((-1i64).swap_bits(), -1);
    assert_eq!(0i128.swap_bits(), 0);
    assert_eq!((-1i128).swap_bits(), -1);
    assert_eq!(0isize.swap_bits(), 0);
    assert_eq!((-1isize).swap_bits(), -1);
}

#[test]
fn lookup_matches_std_on_every_u8() {
    for v in 0..=u8::MAX {
        assert_eq!(v.swap_bits(), v.reverse_bits());
        assert_eq!((v as i8).swap_bits(), (v as i8).reverse_bits());
    }
}

#[test]
fn lookup_matches_std_on_every_u16() {
    for v in 0..=u16::MAX {
        assert_eq!(v.swap_bits(), v.reverse_bits());
        assert_eq!((v as i16).swap_bits(), (v as i16).reverse_bits());
    }
}

#[test]
fn lookup_matches_std_on_wide_samples() {
    let mut x: u128 = 0x0123456789ABCDEF_0F1E2D3C4B5A6978;
    for _ in 0..2000 {
        x = x.wrapping_mul(0x2360ED051FC65DA4_4385DF649FCCF645).wrapping_add(0x5851F42D4C957F2D);
        let (a, b, c) = (x as u32, x as u64, x as usize);
        assert_eq!(a.swap_bits(), a.reverse_bits());
        assert_eq!(b.swap_bits(), b.reverse_bits());
        assert_eq!(c.swap_bits(), c.reverse_bits());
        assert_eq!(x.swap_bits(), x.reverse_bits());
        assert_eq!((a as i32).swap_bits(), (a as i32).reverse_bits());
        assert_eq!((b as i64).swap_bits(), (b as i64).reverse_bits());
        assert_eq!((c as isize).swap_bits(), (c as isize).reverse_bits());
        assert_eq!((x as i128).swap_bits(), (x as i128).reverse_bits());
    }
}

#[test]
fn lookup_is_an_involution() {
    for v in 0..=u16::MAX {
        assert_eq!(v.swap_bits().swap_bits(), v);
        assert_eq!((v as u8).swap_bits().swap_bits(), v as u8);
        assert_eq!((v as i16).swap_bits().swap_bits(), v as i16);
    }
    let mut x: u128 = 0xDEADBEEF;
    for _ in 0..1000 {
        x = x.wrapping_mul(0x2360ED051FC65DA4_4385DF649FCCF645).wrapping_add(1);
        assert_eq!((x as u32).swap_bits().swap_bits(), x as u32);
        assert_eq!((x as u64).swap_bits().swap_bits(), x as u64);
        assert_eq!(x.swap_bits().swap_bits(), x);
        assert_eq!((x as usize).swap_bits().swap_bits(), x as usize);
        assert_eq!((x as i64).swap_bits().swap_bits(), x as i64);
        assert_eq!((x as i128).swap_bits().swap_bits(), x as i128);
    }
}

#[test]
fn lookup_signed_agrees_with_unsigned() {
    for v in 0..=u16::MAX {
        assert_eq!((v as i16).swap_bits() as u16, v.swap_bits());
        assert_eq!((v as u8 as i8).swap_bits() as u8, (v as u8).swap_bits());
    }
    let mut x: u128 = 7;
    for _ in 0..1000 {
        x = x.wrapping_mul(0x2360ED051FC65DA4_4385DF649FCCF645).wrapping_add(1);
        assert_eq!((x as i32).swap_bits() as u32, (x as u32).swap_bits());
        assert_eq!((x as i64).swap_bits() as u64, (x as u64).swap_bits());
        assert_eq!((x as i128).swap_bits() as u128, x.swap_bits());
        assert_eq!((x as isize).swap_bits() as usize, (x as usize).swap_bits());
    }
}

#[test]
fn lookup_pointer_width_matches_fixed_width() {
    let mut x: u128 = 99;
    for _ in 0..1000 {
        x = x.wrapping_mul(0x2360ED051FC65DA4_4385DF649FCCF645).wrapping_add(1);
        let v = x as usize;
        if usize::BITS == 64 {
            assert_eq!(v.swap_bits() as u64, (v as u64).swap_bits());
            assert_eq!((v as isize).swap_bits() as i64, (v as i64).swap_bits());
        } else if usize::BITS == 32 {
            assert_eq!(v.swap_bits() as u32, (v as u32).swap_bits());
            assert_eq!((v as isize).swap_bits() as i32, (v as i32).swap_bits());
        }
    }
}
