use ux::{i7, i9, u127, u5, u7, u9};

#[test]
fn unsigned_text_in_each_base() {
    assert_eq!(u5::new(10).to_string(), "10");
    assert_eq!(u5::new(10).to_lower_hex(), "a");
    assert_eq!(u5::new(10).to_upper_hex(), "A");
    assert_eq!(u5::new(10).to_octal(), "12");
    assert_eq!(u5::new(10).to_binary(), "1010");
    assert_eq!(u9::new(511).to_string(), "511");
    assert_eq!(u9::new(511).to_lower_hex(), "1ff");
    assert_eq!(u9::new(511).to_upper_hex(), "1FF");
    assert_eq!(u9::new(0).to_binary(), "0");
    assert_eq!(
        u127::max_value().to_string(),
        "170141183460469231731687303715884105727"
    );
    assert_eq!(u127::max_value().to_upper_hex(), "7FFFFFFFFFFFFFFFFFFFFFFFFFFFFFFF");
}

#[test]
fn text_never_shows_the_bits_above() {
    assert_eq!(u7::new_unchecked(0xFF).to_string(), "127");
    assert_eq!(u7::new_unchecked(0xFF).to_lower_hex(), "7f");
    assert_eq!(u7::new_unchecked(0x80).to_binary(), "0");
    assert_eq!(i7::new_unchecked(0b0100_0000).to_string(), "-64");
}

#[test]
fn signed_text_in_each_base() {
    assert_eq!(i7::new(-1).to_string(), "-1");
    assert_eq!(i7::new(63).to_string(), "63");
    assert_eq!(i7::new(5).to_binary(), "101");
    assert_eq!(i7::new(5).to_lower_hex(), "5");
    assert_eq!(i7::new(-1).to_lower_hex(), "ff");
    assert_eq!(i9::new(-1).to_upper_hex(), "FFFF");
    assert_eq!(i7::new(-64).to_octal(), "300");
    assert_eq!(i7::new(-64).to_binary(), "11000000");
    assert_eq!(i9::new(-256).to_string(), "-256");
}
