use std::cmp::Ordering;
use std::collections::hash_map::DefaultHasher;
use std::hash::{Hash, Hasher};
use ux::{i1, i127, i17, i33, i5, i65, i7, i9, u1, u127, u17, u33, u5, u65, u9};

fn hash_of<T: Hash>(value: &T) -> u64 {
    let mut hasher = DefaultHasher::new();
    value.hash(&mut hasher);
    hasher.finish()
}

#[test]
fn mask_keeps_every_canonical_value() {
    for v in 0u8..=31 {
        assert_eq!(u5::new(v).mask().storage(), v);
        assert_eq!(u5::new_unchecked(v).mask().storage(), v);
    }
    for v in -16i8..=15 {
        assert_eq!(i5::new(v).mask().storage(), v);
        assert_eq!(i5::new_unchecked(v).mask().storage(), v);
    }
}

#[test]
fn mask_of_every_storage_word_is_canonical() {
    for raw in 0u8..=255 {
        let masked = u5::new_unchecked(raw).mask();
        assert_eq!(masked.storage(), raw % 32);
        assert_eq!(masked.mask().storage(), masked.storage());
    }
    for raw in i8::MIN..=i8::MAX {
        let masked = i5::new_unchecked(raw).mask();
        let low = (raw as i32).rem_euclid(32);
        let expected = if low < 16 { low } else { low - 32 };
        assert_eq!(masked.storage() as i32, expected);
        assert_eq!(masked.mask().storage(), masked.storage());
    }
}

#[test]
fn one_more_than_the_largest_is_the_smallest() {
    assert_eq!(u1::max_value().wrapping_add(u1::new(1)), u1::min_value());
    assert_eq!(u5::max_value().wrapping_add(u5::new(1)), u5::min_value());
    assert_eq!(u9::max_value().wrapping_add(u9::new(1)), u9::min_value());
    assert_eq!(u17::max_value().wrapping_add(u17::new(1)), u17::min_value());
    assert_eq!(u33::max_value().wrapping_add(u33::new(1)), u33::min_value());
    assert_eq!(u65::max_value().wrapping_add(u65::new(1)), u65::min_value());
    assert_eq!(u127::max_value().wrapping_add(u127::new(1)), u127::min_value());

    assert_eq!(i1::max_value().wrapping_add(i1::new_unchecked(1)), i1::min_value());
    assert_eq!(i7::max_value().wrapping_add(i7::new(1)), i7::min_value());
    assert_eq!(i9::max_value().wrapping_add(i9::new(1)), i9::min_value());
    assert_eq!(i17::max_value().wrapping_add(i17::new(1)), i17::min_value());
    assert_eq!(i33::max_value().wrapping_add(i33::new(1)), i33::min_value());
    assert_eq!(i65::max_value().wrapping_add(i65::new(1)), i65::min_value());
    assert_eq!(i127::max_value().wrapping_add(i127::new(1)), i127::min_value());
}

#[test]
fn one_less_than_the_smallest_is_the_largest() {
    assert_eq!(u5::min_value().wrapping_sub(u5::new(1)), u5::max_value());
    assert_eq!(u127::min_value().wrapping_sub(u127::new(1)), u127::max_value());
    assert_eq!(i5::min_value().wrapping_sub(i5::new(1)), i5::max_value());
    assert_eq!(i127::min_value().wrapping_sub(i127::new(1)), i127::max_value());
}

#[test]
fn new_then_into_native_is_the_identity() {
    for v in 0u8..=31 {
        assert_eq!(u5::new(v).into_native(), v);
    }
    for v in -16i8..=15 {
        assert_eq!(i5::new(v).into_native(), v);
    }
    assert_eq!(u127::new((1u128 << 127) - 1).into_native(), (1u128 << 127) - 1);
    assert_eq!(i127::new(-(1i128 << 126)).into_native(), -(1i128 << 126));
    assert_eq!(u33::new(0x1_2345_6789).into_native(), 0x1_2345_6789);
}

#[test]
fn try_new_is_empty_exactly_out_of_range() {
    for v in 0u8..=255 {
        assert_eq!(u5::try_new(v).is_none(), v > 31);
        if v <= 31 {
            assert_eq!(u5::try_new(v), Some(u5::new(v)));
        }
    }
    for v in i8::MIN..=i8::MAX {
        assert_eq!(i5::try_new(v).is_none(), v < -16 || v > 15);
        if -16 <= v && v <= 15 {
            assert_eq!(i5::try_new(v), Some(i5::new(v)));
        }
    }
    assert!(u9::try_new(511).is_some());
    assert!(u9::try_new(512).is_none());
    assert!(i9::try_new(-256).is_some());
    assert!(i9::try_new(-257).is_none());
    assert!(i9::try_new(255).is_some());
    assert!(i9::try_new(256).is_none());
}

#[test]
fn not_of_not_is_the_value() {
    for v in 0u8..=31 {
        assert_eq!(!!u5::new(v), u5::new(v));
        assert_eq!((!u5::new(v)).storage(), 31 - v);
    }
    for v in -16i8..=15 {
        assert_eq!(!!i5::new(v), i5::new(v));
        assert_eq!((!i5::new(v)).storage(), -1 - v);
    }
    assert_eq!(!!u127::new(12345), u127::new(12345));
    assert_eq!(!!i127::new(-12345), i127::new(-12345));
}

#[test]
fn shift_left_multiplies_modulo_the_width() {
    for v in 0u8..=31 {
        for k in 0u32..8 {
            let expected = ((v as u32) << k) % 32;
            assert_eq!((u5::new(v) << k).storage() as u32, expected);
        }
    }
    for v in -16i8..=15 {
        for k in 0u32..8 {
            let low = ((v as i32) << k).rem_euclid(32);
            let expected = if low < 16 { low } else { low - 32 };
            assert_eq!((i5::new(v) << k).storage() as i32, expected);
        }
    }
}

#[test]
fn shift_right_divides_rounding_down() {
    for v in 0u8..=31 {
        for k in 0u32..8 {
            assert_eq!((u5::new(v) >> k).storage() as u32, (v as u32) >> k);
        }
    }
    for v in -16i8..=15 {
        for k in 0u32..8 {
            assert_eq!((i5::new(v) >> k).storage() as i32, (v as i32).div_euclid(1 << k));
        }
    }
}

#[test]
fn equality_ignores_the_bits_above() {
    let dirty = u5::new_unchecked(0b1110_0101);
    let clean = u5::new_unchecked(0b0000_0101);
    assert_ne!(dirty.storage(), clean.storage());
    assert_eq!(dirty, clean);
    assert_eq!(dirty.mask().storage(), clean.mask().storage());
    assert_eq!(hash_of(&dirty), hash_of(&clean));

    let dirty = i5::new_unchecked(0b0101_0101u8 as i8);
    let clean = i5::new(-11);
    assert_ne!(dirty.storage(), clean.storage());
    assert_eq!(dirty, clean);
    assert_eq!(dirty.mask().storage(), clean.mask().storage());
    assert_eq!(hash_of(&dirty), hash_of(&clean));
}

#[test]
fn different_integers_are_not_equal() {
    assert_ne!(u5::new(4), u5::new(5));
    assert_ne!(i5::new(-4), i5::new(4));
    assert_ne!(u5::new_unchecked(0b0010_0100), u5::new_unchecked(0b0010_0101));
}

#[test]
fn hash_is_that_of_the_canonical_storage_word() {
    assert_eq!(hash_of(&u5::new_unchecked(0xE5)), hash_of(&5u8));
    assert_eq!(hash_of(&i5::new_unchecked(0x55)), hash_of(&-11i8));
    assert_ne!(hash_of(&u5::new(5)), hash_of(&u5::new(6)));
}

#[test]
fn order_is_that_of_the_integers() {
    assert!(u5::new(3) < u5::new(4));
    assert!(u5::new(4) > u5::new(3));
    assert!(u5::new(4) <= u5::new(4));
    assert!(i5::new(-3) < i5::new(2));
    assert!(i5::new(-16) < i5::new(15));
    assert!(u5::new_unchecked(0b1110_0001) < u5::new_unchecked(0b0000_0010));
    assert!(i5::new_unchecked(0b0001_0000) < i5::new(0));
    assert_eq!(u5::new(3).partial_cmp(&u5::new(4)), Some(Ordering::Less));
    assert_eq!(u5::new(3).cmp(&u5::new(3)), Ordering::Equal);
    assert_eq!(i5::new(3).cmp(&i5::new(-3)), Ordering::Greater);
    assert_eq!(i5::new(-3).cmp(&i5::new(3)), Ordering::Less);
    assert_eq!(u5::new_unchecked(37).cmp(&u5::new(5)), Ordering::Equal);
}
