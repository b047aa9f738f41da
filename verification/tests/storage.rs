use ux::{ShiftAmount, SignedStorage, UnsignedStorage};

#[test]
fn widths_of_the_native_integers() {
    assert_eq!(<u8 as UnsignedStorage>::bit_width(), 8);
    assert_eq!(<u16 as UnsignedStorage>::bit_width(), 16);
    assert_eq!(<u32 as UnsignedStorage>::bit_width(), 32);
    assert_eq!(<u64 as UnsignedStorage>::bit_width(), 64);
    assert_eq!(<u128 as UnsignedStorage>::bit_width(), 128);
    assert_eq!(<i8 as SignedStorage>::bit_width(), 8);
    assert_eq!(<i16 as SignedStorage>::bit_width(), 16);
    assert_eq!(<i32 as SignedStorage>::bit_width(), 32);
    assert_eq!(<i64 as SignedStorage>::bit_width(), 64);
    assert_eq!(<i128 as SignedStorage>::bit_width(), 128);
}

#[test]
fn unsigned_storage_words() {
    assert_eq!(UnsignedStorage::wrapping_add(250u8, 10), 4);
    assert_eq!(UnsignedStorage::wrapping_sub(3u8, 5), 254);
    assert_eq!(UnsignedStorage::wrapping_add(u128::MAX, 1), 0);
    assert_eq!(UnsignedStorage::wrapping_sub(0u64, 1), u64::MAX);
    assert_eq!(UnsignedStorage::bit_and(0b1100u16, 0b1010), 0b1000);
    assert_eq!(UnsignedStorage::bit_or(0b1100u16, 0b1010), 0b1110);
    assert_eq!(UnsignedStorage::bit_xor(0b1100u16, 0b1010), 0b0110);
    assert_eq!(UnsignedStorage::bit_not(0x0Fu8), 0xF0);
    assert_eq!(UnsignedStorage::bit_not(0u128), u128::MAX);
    assert_eq!(UnsignedStorage::shift_left(0x81u8, 1), 0x02);
    assert_eq!(UnsignedStorage::shift_left(1u32, 31), 0x8000_0000);
    assert_eq!(UnsignedStorage::shift_left(3u128, 127), 1u128 << 127);
    assert_eq!(UnsignedStorage::shift_right(0x81u8, 1), 0x40);
    assert_eq!(UnsignedStorage::shift_right(u64::MAX, 63), 1);
    assert!(UnsignedStorage::equals(7u8, 7));
    assert!(!UnsignedStorage::equals(7u8, 8));
    assert!(UnsignedStorage::less_than(7u8, 8));
    assert!(!UnsignedStorage::less_than(8u8, 8));
    assert_eq!(UnsignedStorage::to_u128(200u8), 200);
    assert_eq!(UnsignedStorage::to_u128(u64::MAX), u64::MAX as u128);
}

#[test]
fn signed_storage_words() {
    assert_eq!(SignedStorage::wrapping_add(127i8, 1), -128);
    assert_eq!(SignedStorage::wrapping_add(-128i8, -1), 127);
    assert_eq!(SignedStorage::wrapping_sub(-128i8, 1), 127);
    assert_eq!(SignedStorage::wrapping_sub(i128::MAX, -1), i128::MIN);
    assert_eq!(SignedStorage::bit_and(-7i16, -9), -15);
    assert_eq!(SignedStorage::bit_or(-8i16, 3), -5);
    assert_eq!(SignedStorage::bit_xor(-1i16, 42), -43);
    assert_eq!(SignedStorage::bit_not(42i8), -43);
    assert_eq!(SignedStorage::bit_not(i64::MIN), i64::MAX);
    assert_eq!(SignedStorage::shift_left(1i8, 7), -128);
    assert_eq!(SignedStorage::shift_left(-1i8, 7), -128);
    assert_eq!(SignedStorage::shift_left(0x41i8, 1), -126);
    assert_eq!(SignedStorage::shift_left(3i32, 31), i32::MIN);
    assert_eq!(SignedStorage::shift_right(-1i8, 7), -1);
    assert_eq!(SignedStorage::shift_right(-128i8, 3), -16);
    assert_eq!(SignedStorage::shift_right(-7i8, 1), -4);
    assert_eq!(SignedStorage::shift_right(i128::MIN, 127), -1);
    assert!(SignedStorage::equals(-7i8, -7));
    assert!(SignedStorage::less_than(-8i8, 7));
    assert!(!SignedStorage::less_than(7i8, -8));
    assert_eq!(SignedStorage::to_i128(-3i8), -3);
    assert_eq!(SignedStorage::to_bits(-1i8), 0xFF);
    assert_eq!(SignedStorage::to_bits(-1i16), 0xFFFF);
    assert_eq!(SignedStorage::to_bits(-2i32), 0xFFFF_FFFE);
    assert_eq!(SignedStorage::to_bits(i64::MIN), 1u128 << 63);
    assert_eq!(SignedStorage::to_bits(-1i128), u128::MAX);
    assert_eq!(SignedStorage::to_bits(5i8), 5);
}

#[test]
fn shift_amounts_of_every_native_integer() {
    assert_eq!(ShiftAmount::to_u32(3u8), 3);
    assert_eq!(ShiftAmount::to_u32(3u16), 3);
    assert_eq!(ShiftAmount::to_u32(3u32), 3);
    assert_eq!(ShiftAmount::to_u32(3u64), 3);
    assert_eq!(ShiftAmount::to_u32(3u128), 3);
    assert_eq!(ShiftAmount::to_u32(3usize), 3);
    assert_eq!(ShiftAmount::to_u32(3i8), 3);
    assert_eq!(ShiftAmount::to_u32(3i16), 3);
    assert_eq!(ShiftAmount::to_u32(3i32), 3);
    assert_eq!(ShiftAmount::to_u32(3i64), 3);
    assert_eq!(ShiftAmount::to_u32(3i128), 3);
    assert_eq!(ShiftAmount::to_u32(3isize), 3);
    assert_eq!(ShiftAmount::to_u32(127u8), 127);
}
