use ux::{i5, i7, i9, u127, u5, u9};

#[test]
fn bitwise_operators_on_every_pair() {
    for a in 0u8..=31 {
        for b in 0u8..=31 {
            assert_eq!((u5::new(a) & u5::new(b)).storage(), a & b);
            assert_eq!((u5::new(a) | u5::new(b)).storage(), a | b);
            assert_eq!((u5::new(a) ^ u5::new(b)).storage(), a ^ b);
        }
    }
    for a in -16i8..=15 {
        for b in -16i8..=15 {
            assert_eq!((i5::new(a) & i5::new(b)).storage(), a & b);
            assert_eq!((i5::new(a) | i5::new(b)).storage(), a | b);
            assert_eq!((i5::new(a) ^ i5::new(b)).storage(), a ^ b);
        }
    }
}

#[test]
fn bitwise_operators_mask_their_operands() {
    let dirty = u5::new_unchecked(0b1110_0101);
    assert_eq!((dirty & u5::new(0b11111)).storage(), 0b00101);
    assert_eq!((dirty | u5::new(0b00010)).storage(), 0b00111);
    assert_eq!((dirty ^ u5::new(0b00001)).storage(), 0b00100);
    assert_eq!((!dirty).storage(), 0b11010);
    assert_eq!((dirty << 1).storage(), 0b01010);
    assert_eq!((dirty >> 1).storage(), 0b00010);

    let dirty = i5::new_unchecked(0b0101_0101);
    assert_eq!((dirty & i5::new(-1)).storage(), -11);
    assert_eq!((dirty | i5::new(0)).storage(), -11);
    assert_eq!((dirty ^ i5::new(0)).storage(), -11);
    assert_eq!((!dirty).storage(), 10);
    assert_eq!((dirty >> 1).storage(), -6);
    assert_eq!((dirty << 1).storage(), 10);
}

#[test]
fn signed_operators_in_every_calling_form() {
    assert_eq!(i9::new(-7) & i9::new(-9), i9::new(-15));
    assert_eq!(&i9::new(-7) & i9::new(-9), i9::new(-15));
    assert_eq!(i9::new(-7) & &i9::new(-9), i9::new(-15));
    assert_eq!(&i9::new(-7) & &i9::new(-9), i9::new(-15));

    assert_eq!(i9::new(-7) | i9::new(8), i9::new(-7));
    assert_eq!(&i9::new(1) | i9::new(-256), i9::new(-255));
    assert_eq!(i9::new(1) | &i9::new(8), i9::new(9));
    assert_eq!(&i9::new(1) | &i9::new(8), i9::new(9));

    assert_eq!(i7::new(-1) ^ i7::new(42), i7::new(-43));
    assert_eq!(&i7::new(0) ^ i7::new(-42), i7::new(-42));
    assert_eq!(i7::new(0x10) ^ &i7::new(0x1), i7::new(0x11));
    assert_eq!(&i7::new(11) ^ &i7::new(1), i7::new(10));

    assert_eq!(!i7::new(42), i7::new(-43));
    assert_eq!(!&i7::new(-64), i7::new(63));
    assert_eq!(!&u9::new(1), u9::new(510));
}

#[test]
fn signed_assignment_operators() {
    let mut x = i9::new(-256);
    x |= i9::new(1);
    assert_eq!(x, i9::new(-255));
    x &= i9::new(255);
    assert_eq!(x, i9::new(1));
    x ^= i9::new(-1);
    assert_eq!(x, i9::new(-2));
    x <<= 7u8;
    assert_eq!(x, i9::new(-256));
    x >>= 8i64;
    assert_eq!(x, i9::new(-1));
    x <<= 9usize;
    assert_eq!(x, i9::new(0));
}

#[test]
fn shifts_near_the_width_of_the_storage() {
    assert_eq!((u5::new(1) << 7).storage(), 0);
    assert_eq!((u5::new(1) << 4).storage(), 16);
    assert_eq!((u5::new(31) >> 7).storage(), 0);
    assert_eq!((i5::new(-16) >> 7).storage(), -1);
    assert_eq!((i5::new(15) >> 7).storage(), 0);
    assert_eq!((i5::new(1) << 4).storage(), -16);
    assert_eq!((u127::new(1) << 126).storage(), 1u128 << 126);
    assert_eq!((u127::new(1) << 127).storage(), 0);
    assert_eq!((u127::max_value() >> 126).storage(), 1);
    assert_eq!((u9::new(511) << 15u16).storage(), 0);
    assert_eq!((u9::new(511) << 8u16).storage(), 256);
}
