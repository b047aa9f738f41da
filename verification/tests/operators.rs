use ux::{i1, i2, i3, i4, i5, i7, i9, u1, u10, u12, u127, u2, u3, u4, u5, u7, u9};

#[test]
fn test_masking() {
    let new = |x| u4::new_unchecked(x);
    let newi = |x| i4::new_unchecked(x);
    assert_eq!(new(0b11000110).mask().storage(), 0b00000110);
    assert_eq!(new(0b00001000).mask().storage(), 0b00001000);
    assert_eq!(new(0b00001110).mask().storage(), 0b00001110);

    assert_eq!(newi(0b11000110u8 as i8).mask().storage(), 0b00000110u8 as i8);
    assert_eq!(newi(0b00001000u8 as i8).mask().storage(), 0b11111000u8 as i8);
    assert_eq!(newi(0b00001110u8 as i8).mask().storage(), 0b11111110u8 as i8);
}

#[test]
fn min_max_values() {
    assert_eq!(u2::max_value(), u2::new(3));
    assert_eq!(u3::max_value(), u3::new(7));
    assert_eq!(u7::max_value(), u7::new(127));
    assert_eq!(u9::max_value(), u9::new(511));

    assert_eq!(i2::max_value(), i2::new(1));
    assert_eq!(i3::max_value(), i3::new(3));
    assert_eq!(i7::max_value(), i7::new(63));
    assert_eq!(i9::max_value(), i9::new(255));

    assert_eq!(u1::min_value(), u1::new(0));
    assert_eq!(u2::min_value(), u2::new(0));
    assert_eq!(u3::min_value(), u3::new(0));
    assert_eq!(u7::min_value(), u7::new(0));
    assert_eq!(u9::min_value(), u9::new(0));
    assert_eq!(u127::min_value(), u127::new(0));

    assert_eq!(i1::min_value(), i1::new(-1));
    assert_eq!(i2::min_value(), i2::new(-2));
    assert_eq!(i3::min_value(), i3::new(-4));
    assert_eq!(i7::min_value(), i7::new(-64));
    assert_eq!(i9::min_value(), i9::new(-256));
}

#[test]
fn test_wrapping_add() {
    assert_eq!(u1::max_value().wrapping_add(u1::new(1)), u1::new(0));
    assert_eq!(u1::max_value().wrapping_add(u1::new(0)), u1::new(1));

    assert_eq!(u5::max_value().wrapping_add(u5::new(1)), u5::new(0));
    assert_eq!(u5::max_value().wrapping_add(u5::new(4)), u5::new(3));

    assert_eq!(u127::max_value().wrapping_add(u127::new(100)), u127::new(99));
    assert_eq!(u127::max_value().wrapping_add(u127::new(1)), u127::new(0));

    assert_eq!(i1::max_value().wrapping_add(i1::new(0)), i1::new(0));
    assert_eq!(i1::max_value().wrapping_add(i1::new(-1)), i1::new(-1));

    assert_eq!(i7::max_value().wrapping_add(i7::new(1)), i7::min_value());
    assert_eq!(i7::max_value().wrapping_add(i7::new(4)), i7::new(-61));
}

#[test]
fn test_add() {
    assert_eq!(u5::new(1) + u5::new(2), u5::new(3));

    assert_eq!(i7::max_value() + i7::min_value(), i7::new(-1));
    assert_eq!(i7::new(4) + i7::new(-3), i7::new(1));
    assert_eq!(i7::new(-4) + i7::new(3), i7::new(-1));
    assert_eq!(i7::new(-3) + i7::new(-20), i7::new(-23));
}

#[test]
fn test_sub() {
    assert_eq!(u5::new(1) - u5::new(1), u5::new(0));
    assert_eq!(u5::new(3) - u5::new(2), u5::new(1));

    assert_eq!(i1::new(-1) - i1::new(-1), i1::new(0));
    assert_eq!(i7::min_value() - i7::min_value(), i7::new(0));
    assert_eq!(i7::new(4) - i7::new(-3), i7::new(7));
    assert_eq!(i7::new(-4) - i7::new(3), i7::new(-7));
    assert_eq!(i7::new(-3) - i7::new(-20), i7::new(17));
}

#[test]
fn test_shr() {
    assert_eq!(u5::new(8) >> 1usize, u5::new(4));
    assert_eq!(u5::new(8) >> 1u8, u5::new(4));
    assert_eq!(u5::new(8) >> 1u16, u5::new(4));
    assert_eq!(u5::new(8) >> 1u32, u5::new(4));
    assert_eq!(u5::new(8) >> 1u64, u5::new(4));
    assert_eq!(u5::new(8) >> 1isize, u5::new(4));
    assert_eq!(u5::new(8) >> 1i8, u5::new(4));
    assert_eq!(u5::new(8) >> 1i16, u5::new(4));
    assert_eq!(u5::new(8) >> 1i32, u5::new(4));
    assert_eq!(u5::new(8) >> 1i64, u5::new(4));

    assert_eq!(u5::max_value() >> 4, u5::new(1));

    assert_eq!(i7::new(-1) >> 5, i7::new(-1));
}

#[test]
fn test_shl() {
    let new = |x| u5::new_unchecked(x);
    let newi = |x| i5::new_unchecked(x);
    let newi2 = |x| i7::new_unchecked(x);
    assert_eq!(new(16) << 1usize, new(32));
    assert_eq!(new(16) << 1u8, new(32));
    assert_eq!(new(16) << 1u16, new(32));
    assert_eq!(new(16) << 1u32, new(32));
    assert_eq!(new(16) << 1u64, new(32));
    assert_eq!(new(16) << 1isize, new(32));
    assert_eq!(new(16) << 1i8, new(32));
    assert_eq!(new(16) << 1i16, new(32));
    assert_eq!(new(16) << 1i32, new(32));
    assert_eq!(new(16) << 1i64, new(32));

    assert_eq!(u5::max_value() << 4, new(16));

    assert_eq!(newi(16) << 1, newi(0));
    assert_eq!(newi2(1) << 3, newi2(8));
}

#[test]
fn test_shr_assign() {
    let mut x = u10::new(512);
    x >>= 1usize;
    assert_eq!(x, u10::new(256));
    x >>= 1isize;
    assert_eq!(x, u10::new(128));
    x >>= 1u8;
    assert_eq!(x, u10::new(64));
    x >>= 1i8;
    assert_eq!(x, u10::new(32));
    x >>= 2u64;
    assert_eq!(x, u10::new(8));
    x >>= 3i32;
    assert_eq!(x, u10::new(1));
}

#[test]
fn test_shl_assign() {
    let mut x = u9::new(1);
    x <<= 3i32;
    assert_eq!(x, u9::new(8));
    x <<= 2u64;
    assert_eq!(x, u9::new(32));
    x <<= 1usize;
    assert_eq!(x, u9::new(64));
    x <<= 1isize;
    assert_eq!(x, u9::new(128));
    x <<= 1u8;
    assert_eq!(x, u9::new(256));
}

#[test]
fn test_bitor() {
    assert_eq!(u9::new(1) | u9::new(8), u9::new(9));
    assert_eq!(&u9::new(1) | u9::new(8), u9::new(9));
    assert_eq!(u9::new(1) | &u9::new(8), u9::new(9));
    assert_eq!(&u9::new(1) | &u9::new(8), u9::new(9));
}

#[test]
fn test_bitor_assign() {
    let mut x = u12::new(4);
    x |= u12::new(1);
    assert_eq!(x, u12::new(5));
    x |= u12::new(128);
    assert_eq!(x, u12::new(133));
    x = u12::new(1);
    x |= u12::new(127);
    assert_eq!(x, u12::new(127));
}

#[test]
fn test_bitxor() {
    assert_eq!(u7::new(0x7F) ^ u7::new(42), u7::new(85));
    assert_eq!(&u7::new(0) ^ u7::new(42), u7::new(42));
    assert_eq!(u7::new(0x10) ^ &u7::new(0x1), u7::new(0x11));
    assert_eq!(&u7::new(11) ^ &u7::new(1), u7::new(10));
}

#[test]
fn test_bitxor_assign() {
    let mut x = u12::new(4);
    x ^= u12::new(1);
    assert_eq!(x, u12::new(5));
    x ^= u12::new(128);
    assert_eq!(x, u12::new(133));
    x ^= u12::new(1);
    assert_eq!(x, u12::new(132));
    x ^= u12::new(127);
    assert_eq!(x, u12::new(251));
}

#[test]
fn test_bitand() {
    assert_eq!(u9::new(8) & u9::new(9), u9::new(8));
    assert_eq!(&u9::new(8) & u9::new(9), u9::new(8));
    assert_eq!(u9::new(8) & &u9::new(9), u9::new(8));
    assert_eq!(&u9::new(8) & &u9::new(9), u9::new(8));
}

#[test]
fn test_bitand_assign() {
    let mut x = u12::new(255);
    x &= u12::new(127);
    assert_eq!(x, u12::new(127));
    x &= u12::new(7);
    assert_eq!(x, u12::new(7));
    x &= u12::new(127);
    assert_eq!(x, u12::new(7));
    x &= u12::new(4);
    assert_eq!(x, u12::new(4));
}

#[test]
fn test_not() {
    assert_eq!(!u7::new(42), u7::new(85));
    assert_eq!(!u7::new(0x7F), u7::new(0));
    assert_eq!(!u7::new(0), u7::new(0x7F));
    assert_eq!(!u7::new(56), u7::new(71));
}
