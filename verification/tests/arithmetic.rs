use ux::{i1, i17, i23, i5, i7, i96, u1, u127, u5, u7, Signed, Unsigned};

#[test]
#[should_panic]
fn test_add_overflow_u5() {
    let _s = u5::max_value().checked_add(u5::new(1)).expect("overflow");
}

#[test]
#[should_panic]
fn test_add_overflow_u127() {
    let _s = u127::max_value().checked_add(u127::new(1)).expect("overflow");
}

#[test]
#[should_panic]
fn test_add_overflow_i96() {
    let _s = i96::max_value().checked_add(i96::new(100)).expect("overflow");
}

#[test]
#[should_panic]
fn test_add_underflow_i96() {
    let _s = i96::min_value().checked_add(i96::new(-100)).expect("overflow");
}

#[test]
#[should_panic]
fn test_add_underflow_i17() {
    let _s = i17::min_value().checked_add(i17::new(-1)).expect("overflow");
}

#[test]
#[should_panic]
fn test_sub_overflow_i23() {
    let _s = i23::min_value().checked_sub(i23::max_value()).expect("overflow");
}

#[test]
#[should_panic]
fn test_sub_underflow_u5() {
    let _s = u5::min_value().checked_sub(u5::new(1)).expect("overflow");
}

#[test]
#[should_panic]
fn test_sub_underflow_i5() {
    let _s = i5::min_value().checked_sub(i5::new(1)).expect("overflow");
}

#[test]
fn checked_add_is_the_sum_where_it_fits() {
    for a in 0u8..=31 {
        for b in 0u8..=31 {
            let sum = u5::new(a).checked_add(u5::new(b));
            if a + b <= 31 {
                assert_eq!(sum, Some(u5::new(a + b)));
            } else {
                assert_eq!(sum, None);
            }
        }
    }
    for a in -16i8..=15 {
        for b in -16i8..=15 {
            let sum = i5::new(a).checked_add(i5::new(b));
            if -16 <= a + b && a + b <= 15 {
                assert_eq!(sum, Some(i5::new(a + b)));
            } else {
                assert_eq!(sum, None);
            }
        }
    }
}

#[test]
fn checked_sub_is_the_difference_where_it_fits() {
    for a in 0u8..=31 {
        for b in 0u8..=31 {
            let difference = u5::new(a).checked_sub(u5::new(b));
            if a >= b {
                assert_eq!(difference, Some(u5::new(a - b)));
            } else {
                assert_eq!(difference, None);
            }
        }
    }
    for a in -16i8..=15 {
        for b in -16i8..=15 {
            let difference = i5::new(a).checked_sub(i5::new(b));
            if -16 <= a - b && a - b <= 15 {
                assert_eq!(difference, Some(i5::new(a - b)));
            } else {
                assert_eq!(difference, None);
            }
        }
    }
}

#[test]
fn checked_arithmetic_at_the_width_of_the_storage() {
    type Byte = Unsigned<8, u8>;
    type Char = Signed<8, i8>;
    assert_eq!(Byte::new(200).checked_add(Byte::new(55)), Some(Byte::new(255)));
    assert_eq!(Byte::new(200).checked_add(Byte::new(56)), None);
    assert_eq!(Byte::new(0).checked_sub(Byte::new(1)), None);
    assert_eq!(Char::new(100).checked_add(Char::new(27)), Some(Char::new(127)));
    assert_eq!(Char::new(100).checked_add(Char::new(28)), None);
    assert_eq!(Char::new(-100).checked_add(Char::new(-28)), Some(Char::new(-128)));
    assert_eq!(Char::new(-100).checked_add(Char::new(-29)), None);
    assert_eq!(Char::new(-128).checked_sub(Char::new(127)), None);
    assert_eq!(Char::new(127).checked_sub(Char::new(-1)), None);
    assert_eq!(Char::new(127).checked_sub(Char::new(127)), Some(Char::new(0)));
    assert_eq!(Char::new(-128).checked_sub(Char::new(-128)), Some(Char::new(0)));
    assert_eq!(Char::new(-1).checked_sub(Char::new(127)), Some(Char::new(-128)));
}

#[test]
fn wrapping_arithmetic_is_modular() {
    for a in 0u8..=31 {
        for b in 0u8..=31 {
            assert_eq!(u5::new(a).wrapping_add(u5::new(b)).storage(), (a + b) % 32);
            assert_eq!(u5::new(a).wrapping_sub(u5::new(b)).storage(), (32 + a - b) % 32);
        }
    }
    for a in -16i32..=15 {
        for b in -16i32..=15 {
            let wrap = |v: i32| {
                let low = v.rem_euclid(32);
                if low < 16 { low } else { low - 32 }
            };
            let x = i5::new(a as i8);
            let y = i5::new(b as i8);
            assert_eq!(x.wrapping_add(y).storage() as i32, wrap(a + b));
            assert_eq!(x.wrapping_sub(y).storage() as i32, wrap(a - b));
        }
    }
}

#[test]
fn wrapping_sub_examples() {
    assert_eq!(i5::min_value().wrapping_sub(i5::new(1)), i5::max_value());
    assert_eq!(i5::new(-10).wrapping_sub(i5::new(5)), i5::new(-15));
    assert_eq!(i5::new(-15).wrapping_sub(i5::new(5)), i5::new(12));
    assert_eq!(i5::new(10).wrapping_add(i5::new(5)), i5::new(15));
    assert_eq!(i5::new(15).wrapping_add(i5::new(5)), i5::new(-12));
    assert_eq!(u5::new(0).wrapping_sub(u5::new(1)), u5::new(31));
}

#[test]
fn wrapping_arithmetic_repairs_unchecked_operands() {
    let dirty = u5::new_unchecked(0b1110_0001);
    assert_eq!(dirty.wrapping_add(u5::new(1)), u5::new(2));
    assert_eq!(dirty.wrapping_add(u5::new(1)).storage(), 2);
    assert_eq!(dirty.wrapping_sub(u5::new(2)).storage(), 31);
}

#[test]
fn truncating_new_keeps_the_low_bits() {
    assert_eq!(u7::truncating_new(255), u7::new(127));
    assert_eq!(u7::truncating_new(255).storage(), 127);
    assert_eq!(u7::truncating_new(128).storage(), 0);
    assert_eq!(i7::truncating_new(127), i7::new(-1));
    assert_eq!(i7::truncating_new(127).storage(), -1);
    assert_eq!(i7::truncating_new(64).storage(), -64);
    assert_eq!(i7::truncating_new(63).storage(), 63);
    assert_eq!(i7::truncating_new(-128).storage(), 0);
    assert_eq!(u1::truncating_new(3).storage(), 1);
    assert_eq!(i1::truncating_new(3).storage(), -1);
    assert_eq!(i1::truncating_new(2).storage(), 0);
}

#[test]
fn new_unchecked_keeps_the_storage_word() {
    assert_eq!(u5::new_unchecked(0xE5).storage(), 0xE5);
    assert_eq!(i5::new_unchecked(0x55).storage(), 0x55);
    assert_eq!(u5::new_unchecked(0xE5).into_native(), 5);
    assert_eq!(i5::new_unchecked(0x55).into_native(), -11);
}

#[test]
fn bounds_of_each_storage() {
    assert_eq!(Unsigned::<8, u8>::max_value().storage(), u8::MAX);
    assert_eq!(Unsigned::<16, u16>::max_value().storage(), u16::MAX);
    assert_eq!(Unsigned::<32, u32>::max_value().storage(), u32::MAX);
    assert_eq!(Unsigned::<64, u64>::max_value().storage(), u64::MAX);
    assert_eq!(Unsigned::<128, u128>::max_value().storage(), u128::MAX);
    assert_eq!(Signed::<8, i8>::max_value().storage(), i8::MAX);
    assert_eq!(Signed::<8, i8>::min_value().storage(), i8::MIN);
    assert_eq!(Signed::<16, i16>::max_value().storage(), i16::MAX);
    assert_eq!(Signed::<16, i16>::min_value().storage(), i16::MIN);
    assert_eq!(Signed::<32, i32>::max_value().storage(), i32::MAX);
    assert_eq!(Signed::<32, i32>::min_value().storage(), i32::MIN);
    assert_eq!(Signed::<64, i64>::max_value().storage(), i64::MAX);
    assert_eq!(Signed::<64, i64>::min_value().storage(), i64::MIN);
    assert_eq!(Signed::<128, i128>::max_value().storage(), i128::MAX);
    assert_eq!(Signed::<128, i128>::min_value().storage(), i128::MIN);
    assert_eq!(u1::max_value().storage(), 1);
    assert_eq!(i1::max_value().storage(), 0);
    assert_eq!(i1::min_value().storage(), -1);
    assert_eq!(u127::max_value().storage(), u128::MAX >> 1);
}

#[test]
fn mask_at_the_width_of_the_storage_changes_nothing() {
    for raw in 0u8..=255 {
        assert_eq!(Unsigned::<8, u8>::new_unchecked(raw).mask().storage(), raw);
    }
    for raw in i8::MIN..=i8::MAX {
        assert_eq!(Signed::<8, i8>::new_unchecked(raw).mask().storage(), raw);
    }
    assert_eq!(Unsigned::<128, u128>::new_unchecked(u128::MAX).mask().storage(), u128::MAX);
    assert_eq!(Signed::<128, i128>::new_unchecked(i128::MIN).mask().storage(), i128::MIN);
    assert_eq!(
        Unsigned::<8, u8>::new(255).wrapping_add(Unsigned::<8, u8>::new(1)).storage(),
        0
    );
    assert_eq!(
        Signed::<8, i8>::new(127).wrapping_add(Signed::<8, i8>::new(1)).storage(),
        -128
    );
}
