//! The native signed integers as storage.
use crate::bits::{lemma_low_mask_value, lemma_sar_is_div, lemma_signed_shl};
use crate::math::{lemma_pow2_widths, lemma_wrap_signed_offset, lemma_wrap_unsigned_of_signed};
use crate::storage::SignedStorage;
use crate::traits::lemma_identities;
use vstd::prelude::*;

verus! {

proof fn lemma_i8_bits(x: i8, y: i8, k: u32)
    by (bit_vector)
    requires
        k < 8,
    ensures
        !x == -x - 1,
        (x & y) as i128 == (x as i128) & (y as i128),
        (x | y) as i128 == (x as i128) | (y as i128),
        (x ^ y) as i128 == (x as i128) ^ (y as i128),
        (x >> k) as i128 == (x as i128) >> (k as u128),
        ((x << k) as u8) as u128 == (((x as u8) as u128) << (k as u128)) & 0xff,
        x as u8 == if x >= 0 {
            x as int
        } else {
            x + 0x100
        },
{
}

impl SignedStorage for i8 {
    open spec fn bits() -> nat {
        8
    }

    open spec fn as_int(self) -> int {
        self as int
    }

    open spec fn from_int(v: int) -> Self {
        v as i8
    }

    proof fn lemma_storage(x: Self) {
        lemma_pow2_widths();
        lemma_identities();
    }

    proof fn lemma_from_int(v: int) {
        lemma_pow2_widths();
    }

    fn bit_width() -> (w: u32) {
        8
    }

    fn wrapping_add(self, rhs: Self) -> (r: Self) {
        proof {
            lemma_pow2_widths();
            let q: int = if self + rhs > i8::MAX {
                1
            } else if self + rhs < i8::MIN {
                -1
            } else {
                0
            };
            lemma_wrap_signed_offset(self + rhs, q, 8);
        }
        i8::wrapping_add(self, rhs)
    }

    fn wrapping_sub(self, rhs: Self) -> (r: Self) {
        proof {
            lemma_pow2_widths();
            let q: int = if self - rhs > i8::MAX {
                1
            } else if self - rhs < i8::MIN {
                -1
            } else {
                0
            };
            lemma_wrap_signed_offset(self - rhs, q, 8);
        }
        i8::wrapping_sub(self, rhs)
    }

    fn bit_and(self, rhs: Self) -> (r: Self) {
        proof {
            lemma_i8_bits(self, rhs, 0);
        }
        self & rhs
    }

    fn bit_or(self, rhs: Self) -> (r: Self) {
        proof {
            lemma_i8_bits(self, rhs, 0);
        }
        self | rhs
    }

    fn bit_xor(self, rhs: Self) -> (r: Self) {
        proof {
            lemma_i8_bits(self, rhs, 0);
        }
        self ^ rhs
    }

    fn bit_not(self) -> (r: Self) {
        proof {
            lemma_i8_bits(self, 0, 0);
        }
        !self
    }

    fn shift_left(self, k: u32) -> (r: Self) {
        let r = self << k;
        proof {
            lemma_pow2_widths();
            lemma_i8_bits(self, 0, k);
            lemma_i8_bits(r, 0, k);
            lemma_low_mask_value(8);
            lemma_wrap_unsigned_of_signed(self as int, 8);
            lemma_wrap_unsigned_of_signed(r as int, 8);
            lemma_signed_shl(
                self as int,
                r as int,
                (self as u8) as u128,
                (r as u8) as u128,
                k as nat,
                8,
            );
        }
        r
    }

    fn shift_right(self, k: u32) -> (r: Self) {
        proof {
            lemma_i8_bits(self, 0, k);
            lemma_sar_is_div(self as i128, k as nat);
        }
        self >> k
    }

    fn to_i128(self) -> (r: i128) {
        self as i128
    }

    fn to_bits(self) -> (r: u128) {
        proof {
            lemma_pow2_widths();
            lemma_i8_bits(self, 0, 0);
            lemma_wrap_unsigned_of_signed(self as int, 8);
        }
        self as u8 as u128
    }

    fn equals(self, rhs: Self) -> (r: bool) {
        self == rhs
    }

    fn less_than(self, rhs: Self) -> (r: bool) {
        self < rhs
    }
}

proof fn lemma_i16_bits(x: i16, y: i16, k: u32)
    by (bit_vector)
    requires
        k < 16,
    ensures
        !x == -x - 1,
        (x & y) as i128 == (x as i128) & (y as i128),
        (x | y) as i128 == (x as i128) | (y as i128),
        (x ^ y) as i128 == (x as i128) ^ (y as i128),
        (x >> k) as i128 == (x as i128) >> (k as u128),
        ((x << k) as u16) as u128 == (((x as u16) as u128) << (k as u128)) & 0xffff,
        x as u16 == if x >= 0 {
            x as int
        } else {
            x + 0x1_0000
        },
{
}

impl SignedStorage for i16 {
    open spec fn bits() -> nat {
        16
    }

    open spec fn as_int(self) -> int {
        self as int
    }

    open spec fn from_int(v: int) -> Self {
        v as i16
    }

    proof fn lemma_storage(x: Self) {
        lemma_pow2_widths();
        lemma_identities();
    }

    proof fn lemma_from_int(v: int) {
        lemma_pow2_widths();
    }

    fn bit_width() -> (w: u32) {
        16
    }

    fn wrapping_add(self, rhs: Self) -> (r: Self) {
        proof {
            lemma_pow2_widths();
            let q: int = if self + rhs > i16::MAX {
                1
            } else if self + rhs < i16::MIN {
                -1
            } else {
                0
            };
            lemma_wrap_signed_offset(self + rhs, q, 16);
        }
        i16::wrapping_add(self, rhs)
    }

    fn wrapping_sub(self, rhs: Self) -> (r: Self) {
        proof {
            lemma_pow2_widths();
            let q: int = if self - rhs > i16::MAX {
                1
            } else if self - rhs < i16::MIN {
                -1
            } else {
                0
            };
            lemma_wrap_signed_offset(self - rhs, q, 16);
        }
        i16::wrapping_sub(self, rhs)
    }

    fn bit_and(self, rhs: Self) -> (r: Self) {
        proof {
            lemma_i16_bits(self, rhs, 0);
        }
        self & rhs
    }

    fn bit_or(self, rhs: Self) -> (r: Self) {
        proof {
            lemma_i16_bits(self, rhs, 0);
        }
        self | rhs
    }

    fn bit_xor(self, rhs: Self) -> (r: Self) {
        proof {
            lemma_i16_bits(self, rhs, 0);
        }
        self ^ rhs
    }

    fn bit_not(self) -> (r: Self) {
        proof {
            lemma_i16_bits(self, 0, 0);
        }
        !self
    }

    fn shift_left(self, k: u32) -> (r: Self) {
        let r = self << k;
        proof {
            lemma_pow2_widths();
            lemma_i16_bits(self, 0, k);
            lemma_i16_bits(r, 0, k);
            lemma_low_mask_value(16);
            lemma_wrap_unsigned_of_signed(self as int, 16);
            lemma_wrap_unsigned_of_signed(r as int, 16);
            lemma_signed_shl(
                self as int,
                r as int,
                (self as u16) as u128,
                (r as u16) as u128,
                k as nat,
                16,
            );
        }
        r
    }

    fn shift_right(self, k: u32) -> (r: Self) {
        proof {
            lemma_i16_bits(self, 0, k);
            lemma_sar_is_div(self as i128, k as nat);
        }
        self >> k
    }

    fn to_i128(self) -> (r: i128) {
        self as i128
    }

    fn to_bits(self) -> (r: u128) {
        proof {
            lemma_pow2_widths();
            lemma_i16_bits(self, 0, 0);
            lemma_wrap_unsigned_of_signed(self as int, 16);
        }
        self as u16 as u128
    }

    fn equals(self, rhs: Self) -> (r: bool) {
        self == rhs
    }

    fn less_than(self, rhs: Self) -> (r: bool) {
        self < rhs
    }
}

proof fn lemma_i32_bits(x: i32, y: i32, k: u32)
    by (bit_vector)
    requires
        k < 32,
    ensures
        !x == -x - 1,
        (x & y) as i128 == (x as i128) & (y as i128),
        (x | y) as i128 == (x as i128) | (y as i128),
        (x ^ y) as i128 == (x as i128) ^ (y as i128),
        (x >> k) as i128 == (x as i128) >> (k as u128),
        ((x << k) as u32) as u128 == (((x as u32) as u128) << (k as u128)) & 0xffff_ffff,
        x as u32 == if x >= 0 {
            x as int
        } else {
            x + 0x1_0000_0000
        },
{
}

impl SignedStorage for i32 {
    open spec fn bits() -> nat {
        32
    }

    open spec fn as_int(self) -> int {
        self as int
    }

    open spec fn from_int(v: int) -> Self {
        v as i32
    }

    proof fn lemma_storage(x: Self) {
        lemma_pow2_widths();
        lemma_identities();
    }

    proof fn lemma_from_int(v: int) {
        lemma_pow2_widths();
    }

    fn bit_width() -> (w: u32) {
        32
    }

    fn wrapping_add(self, rhs: Self) -> (r: Self) {
        proof {
            lemma_pow2_widths();
            let q: int = if self + rhs > i32::MAX {
                1
            } else if self + rhs < i32::MIN {
                -1
            } else {
                0
            };
            lemma_wrap_signed_offset(self + rhs, q, 32);
        }
        i32::wrapping_add(self, rhs)
    }

    fn wrapping_sub(self, rhs: Self) -> (r: Self) {
        proof {
            lemma_pow2_widths();
            let q: int = if self - rhs > i32::MAX {
                1
            } else if self - rhs < i32::MIN {
                -1
            } else {
                0
            };
            lemma_wrap_signed_offset(self - rhs, q, 32);
        }
        i32::wrapping_sub(self, rhs)
    }

    fn bit_and(self, rhs: Self) -> (r: Self) {
        proof {
            lemma_i32_bits(self, rhs, 0);
        }
        self & rhs
    }

    fn bit_or(self, rhs: Self) -> (r: Self) {
        proof {
            lemma_i32_bits(self, rhs, 0);
        }
        self | rhs
    }

    fn bit_xor(self, rhs: Self) -> (r: Self) {
        proof {
            lemma_i32_bits(self, rhs, 0);
        }
        self ^ rhs
    }

    fn bit_not(self) -> (r: Self) {
        proof {
            lemma_i32_bits(self, 0, 0);
        }
        !self
    }

    fn shift_left(self, k: u32) -> (r: Self) {
        let r = self << k;
        proof {
            lemma_pow2_widths();
            lemma_i32_bits(self, 0, k);
            lemma_i32_bits(r, 0, k);
            lemma_low_mask_value(32);
            lemma_wrap_unsigned_of_signed(self as int, 32);
            lemma_wrap_unsigned_of_signed(r as int, 32);
            lemma_signed_shl(
                self as int,
                r as int,
                (self as u32) as u128,
                (r as u32) as u128,
                k as nat,
                32,
            );
        }
        r
    }

    fn shift_right(self, k: u32) -> (r: Self) {
        proof {
            lemma_i32_bits(self, 0, k);
            lemma_sar_is_div(self as i128, k as nat);
        }
        self >> k
    }

    fn to_i128(self) -> (r: i128) {
        self as i128
    }

    fn to_bits(self) -> (r: u128) {
        proof {
            lemma_pow2_widths();
            lemma_i32_bits(self, 0, 0);
            lemma_wrap_unsigned_of_signed(self as int, 32);
        }
        self as u32 as u128
    }

    fn equals(self, rhs: Self) -> (r: bool) {
        self == rhs
    }

    fn less_than(self, rhs: Self) -> (r: bool) {
        self < rhs
    }
}

proof fn lemma_i64_bits(x: i64, y: i64, k: u32)
    by (bit_vector)
    requires
        k < 64,
    ensures
        !x == -x - 1,
        (x & y) as i128 == (x as i128) & (y as i128),
        (x | y) as i128 == (x as i128) | (y as i128),
        (x ^ y) as i128 == (x as i128) ^ (y as i128),
        (x >> k) as i128 == (x as i128) >> (k as u128),
        ((x << k) as u64) as u128 == (((x as u64) as u128) << (k as u128)) & 0xffff_ffff_ffff_ffff,
        x as u64 == if x >= 0 {
            x as int
        } else {
            x + 0x1_0000_0000_0000_0000
        },
{
}

impl SignedStorage for i64 {
    open spec fn bits() -> nat {
        64
    }

    open spec fn as_int(self) -> int {
        self as int
    }

    open spec fn from_int(v: int) -> Self {
        v as i64
    }

    proof fn lemma_storage(x: Self) {
        lemma_pow2_widths();
        lemma_identities();
    }

    proof fn lemma_from_int(v: int) {
        lemma_pow2_widths();
    }

    fn bit_width() -> (w: u32) {
        64
    }

    fn wrapping_add(self, rhs: Self) -> (r: Self) {
        proof {
            lemma_pow2_widths();
            let q: int = if self + rhs > i64::MAX {
                1
            } else if self + rhs < i64::MIN {
                -1
            } else {
                0
            };
            lemma_wrap_signed_offset(self + rhs, q, 64);
        }
        i64::wrapping_add(self, rhs)
    }

    fn wrapping_sub(self, rhs: Self) -> (r: Self) {
        proof {
            lemma_pow2_widths();
            let q: int = if self - rhs > i64::MAX {
                1
            } else if self - rhs < i64::MIN {
                -1
            } else {
                0
            };
            lemma_wrap_signed_offset(self - rhs, q, 64);
        }
        i64::wrapping_sub(self, rhs)
    }

    fn bit_and(self, rhs: Self) -> (r: Self) {
        proof {
            lemma_i64_bits(self, rhs, 0);
        }
        self & rhs
    }

    fn bit_or(self, rhs: Self) -> (r: Self) {
        proof {
            lemma_i64_bits(self, rhs, 0);
        }
        self | rhs
    }

    fn bit_xor(self, rhs: Self) -> (r: Self) {
        proof {
            lemma_i64_bits(self, rhs, 0);
        }
        self ^ rhs
    }

    fn bit_not(self) -> (r: Self) {
        proof {
            lemma_i64_bits(self, 0, 0);
        }
        !self
    }

    fn shift_left(self, k: u32) -> (r: Self) {
        let r = self << k;
        proof {
            lemma_pow2_widths();
            lemma_i64_bits(self, 0, k);
            lemma_i64_bits(r, 0, k);
            lemma_low_mask_value(64);
            lemma_wrap_unsigned_of_signed(self as int, 64);
            lemma_wrap_unsigned_of_signed(r as int, 64);
            lemma_signed_shl(
                self as int,
                r as int,
                (self as u64) as u128,
                (r as u64) as u128,
                k as nat,
                64,
            );
        }
        r
    }

    fn shift_right(self, k: u32) -> (r: Self) {
        proof {
            lemma_i64_bits(self, 0, k);
            lemma_sar_is_div(self as i128, k as nat);
        }
        self >> k
    }

    fn to_i128(self) -> (r: i128) {
        self as i128
    }

    fn to_bits(self) -> (r: u128) {
        proof {
            lemma_pow2_widths();
            lemma_i64_bits(self, 0, 0);
            lemma_wrap_unsigned_of_signed(self as int, 64);
        }
        self as u64 as u128
    }

    fn equals(self, rhs: Self) -> (r: bool) {
        self == rhs
    }

    fn less_than(self, rhs: Self) -> (r: bool) {
        self < rhs
    }
}

proof fn lemma_i128_bits(x: i128, y: i128, k: u32)
    by (bit_vector)
    requires
        k < 128,
    ensures
        !x == -x - 1,
        (x & y) as i128 == (x as i128) & (y as i128),
        (x | y) as i128 == (x as i128) | (y as i128),
        (x ^ y) as i128 == (x as i128) ^ (y as i128),
        (x >> k) as i128 == (x as i128) >> (k as u128),
        (x << k) as u128 == ((x as u128) << (k as u128))
            & 0xffff_ffff_ffff_ffff_ffff_ffff_ffff_ffff,
        x as u128 == if x >= 0 {
            x as int
        } else {
            x + 0x1_0000_0000_0000_0000_0000_0000_0000_0000int
        },
{
}

impl SignedStorage for i128 {
    open spec fn bits() -> nat {
        128
    }

    open spec fn as_int(self) -> int {
        self as int
    }

    open spec fn from_int(v: int) -> Self {
        v as i128
    }

    proof fn lemma_storage(x: Self) {
        lemma_pow2_widths();
        lemma_identities();
    }

    proof fn lemma_from_int(v: int) {
        lemma_pow2_widths();
    }

    fn bit_width() -> (w: u32) {
        128
    }

    fn wrapping_add(self, rhs: Self) -> (r: Self) {
        proof {
            lemma_pow2_widths();
            let q: int = if self + rhs > i128::MAX {
                1
            } else if self + rhs < i128::MIN {
                -1
            } else {
                0
            };
            lemma_wrap_signed_offset(self + rhs, q, 128);
        }
        i128::wrapping_add(self, rhs)
    }

    fn wrapping_sub(self, rhs: Self) -> (r: Self) {
        proof {
            lemma_pow2_widths();
            let q: int = if self - rhs > i128::MAX {
                1
            } else if self - rhs < i128::MIN {
                -1
            } else {
                0
            };
            lemma_wrap_signed_offset(self - rhs, q, 128);
        }
        i128::wrapping_sub(self, rhs)
    }

    fn bit_and(self, rhs: Self) -> (r: Self) {
        proof {
            lemma_i128_bits(self, rhs, 0);
        }
        self & rhs
    }

    fn bit_or(self, rhs: Self) -> (r: Self) {
        proof {
            lemma_i128_bits(self, rhs, 0);
        }
        self | rhs
    }

    fn bit_xor(self, rhs: Self) -> (r: Self) {
        proof {
            lemma_i128_bits(self, rhs, 0);
        }
        self ^ rhs
    }

    fn bit_not(self) -> (r: Self) {
        proof {
            lemma_i128_bits(self, 0, 0);
        }
        !self
    }

    fn shift_left(self, k: u32) -> (r: Self) {
        let r = self << k;
        proof {
            lemma_pow2_widths();
            lemma_i128_bits(self, 0, k);
            lemma_i128_bits(r, 0, k);
            lemma_low_mask_value(128);
            lemma_wrap_unsigned_of_signed(self as int, 128);
            lemma_wrap_unsigned_of_signed(r as int, 128);
            lemma_signed_shl(
                self as int,
                r as int,
                self as u128,
                r as u128,
                k as nat,
                128,
            );
        }
        r
    }

    fn shift_right(self, k: u32) -> (r: Self) {
        proof {
            lemma_i128_bits(self, 0, k);
            lemma_sar_is_div(self as i128, k as nat);
        }
        self >> k
    }

    fn to_i128(self) -> (r: i128) {
        self as i128
    }

    fn to_bits(self) -> (r: u128) {
        proof {
            lemma_pow2_widths();
            lemma_i128_bits(self, 0, 0);
            lemma_wrap_unsigned_of_signed(self as int, 128);
        }
        self as u128
    }

    fn equals(self, rhs: Self) -> (r: bool) {
        self == rhs
    }

    fn less_than(self, rhs: Self) -> (r: bool) {
        self < rhs
    }
}

} // verus!
