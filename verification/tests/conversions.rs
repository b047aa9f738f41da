use ux::{i127, i17, i33, i65, i7, i9, u127, u31, u5, u7, u9, Identity, OverflowError};

#[test]
fn from_a_narrower_native_integer() {
    assert_eq!(u31::new(64), u31::from(64u8));
    assert_eq!(u31::from(40_000u16).storage(), 40_000);
    assert_eq!(u9::from(200u8).storage(), 200);
    assert_eq!(u127::from(u64::MAX).storage(), u64::MAX as u128);
    assert_eq!(u5::from(31u8).storage(), 31);
}

#[test]
fn into_the_native_integer() {
    assert_eq!(i8::from(i7::new(-3)), -3);
    assert_eq!(i16::from(i9::new(200)), 200);
    assert_eq!(i32::from(i17::new(-65536)), -65536);
    assert_eq!(i64::from(i33::new(1 << 31)), 1 << 31);
    assert_eq!(i128::from(i65::new(-(1 << 64))), -(1 << 64));
    let native: i8 = i7::new_unchecked(0b0100_0000).into();
    assert_eq!(native, -64);
    assert_eq!(u7::new_unchecked(0xFF).into_native(), 0x7F);
}

#[test]
fn try_from_reports_what_does_not_fit() {
    assert_eq!(i7::try_from(63i8), Ok(i7::new(63)));
    assert_eq!(i7::try_from(-64i8), Ok(i7::new(-64)));
    assert_eq!(i7::try_from(64i8), Err(OverflowError));
    assert_eq!(i7::try_from(-65i8), Err(OverflowError));
    assert_eq!(i9::try_from(255i16), Ok(i9::new(255)));
    assert_eq!(i9::try_from(256i16), Err(OverflowError));
    assert_eq!(i17::try_from(-65537i32), Err(OverflowError));
    assert_eq!(i33::try_from(i64::MAX), Err(OverflowError));
    assert_eq!(i127::try_from(i128::MIN), Err(OverflowError));
    assert_eq!(i127::try_from(i128::MIN / 2), Ok(i127::min_value()));
    assert_eq!(i7::try_from_native(5), Ok(i7::new(5)));
}

#[test]
fn try_from_for_the_unsigned_integers() {
    assert_eq!(u5::try_from(31u8), Ok(u5::new(31)));
    assert_eq!(u5::try_from(32u8), Err(OverflowError));
    assert_eq!(u9::try_from(511u16), Ok(u9::new(511)));
    assert_eq!(u9::try_from(512u16), Err(OverflowError));
    assert_eq!(u31::try_from(u32::MAX), Err(OverflowError));
    assert_eq!(u127::try_from(u128::MAX), Err(OverflowError));
    assert_eq!(u127::try_from(u128::MAX >> 1), Ok(u127::max_value()));
    assert_eq!(u7::try_from_native(0), Ok(u7::min_value()));
}

#[test]
fn identities_of_the_native_integers() {
    assert_eq!(<u8 as Identity>::ZERO, 0);
    assert_eq!(<u8 as Identity>::ONE, 1);
    assert_eq!(<i128 as Identity>::ZERO, 0);
    assert_eq!(<i128 as Identity>::ONE, 1);
    assert_eq!(<usize as Identity>::ONE, 1);
    assert_eq!(<isize as Identity>::ZERO, 0);
    assert_eq!(<u64 as Identity>::ONE + <u64 as Identity>::ZERO, 1);
}

#[test]
fn clone_and_copy_keep_the_value() {
    let x = u5::new(17);
    let y = x;
    assert_eq!(x.clone(), y);
    let z = i7::new(-17);
    assert_eq!(z.clone().storage(), -17);
}
