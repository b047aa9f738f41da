//! The native unsigned integers as storage.
use crate::bits::{lemma_low_mask_is_mod, lemma_low_mask_value, lemma_shl_is_mul, lemma_shr_is_div};
use crate::math::{lemma_pow2_widths, lemma_wrap_unsigned_narrow, lemma_wrap_unsigned_offset};
use crate::storage::UnsignedStorage;
use crate::traits::lemma_identities;
use vstd::arithmetic::power2::pow2;
use vstd::prelude::*;

verus! {

proof fn lemma_u8_bits(x: u8, k: u32)
    by (bit_vector)
    requires
        k < 8,
    ensures
        !x == 0xff - x,
        (x << k) as u128 == ((x as u128) << (k as u128)) & 0xff,
        (x >> k) as u128 == (x as u128) >> (k as u128),
{
}

impl UnsignedStorage for u8 {
    open spec fn bits() -> nat {
        8
    }

    open spec fn as_int(self) -> int {
        self as int
    }

    open spec fn from_int(v: int) -> Self {
        v as u8
    }

    proof fn lemma_storage(x: Self) {
        lemma_pow2_widths();
        lemma_identities();
    }

    proof fn lemma_from_int(v: int) {
        lemma_pow2_widths();
    }

    fn bit_width() -> (w: u32) {
        8
    }

    fn wrapping_add(self, rhs: Self) -> (r: Self) {
        proof {
            lemma_pow2_widths();
            lemma_wrap_unsigned_offset(self + rhs, if self + rhs > u8::MAX { 1 } else { 0 }, 8);
        }
        u8::wrapping_add(self, rhs)
    }

    fn wrapping_sub(self, rhs: Self) -> (r: Self) {
        proof {
            lemma_pow2_widths();
            lemma_wrap_unsigned_offset(self - rhs, if self - rhs < 0 { -1 } else { 0 }, 8);
        }
        u8::wrapping_sub(self, rhs)
    }

    fn bit_and(self, rhs: Self) -> (r: Self) {
        self & rhs
    }

    fn bit_or(self, rhs: Self) -> (r: Self) {
        self | rhs
    }

    fn bit_xor(self, rhs: Self) -> (r: Self) {
        self ^ rhs
    }

    fn bit_not(self) -> (r: Self) {
        proof {
            lemma_pow2_widths();
            lemma_u8_bits(self, 0);
        }
        !self
    }

    fn shift_left(self, k: u32) -> (r: Self) {
        proof {
            lemma_pow2_widths();
            lemma_u8_bits(self, k);
            lemma_shl_is_mul(self as u128, k as nat);
            lemma_low_mask_value(8);
            lemma_low_mask_is_mod((self as u128) << (k as u128), 8);
            lemma_wrap_unsigned_narrow(self * pow2(k as nat), 8, 128);
        }
        self << k
    }

    fn shift_right(self, k: u32) -> (r: Self) {
        proof {
            lemma_u8_bits(self, k);
            lemma_shr_is_div(self as u128, k as nat);
        }
        self >> k
    }

    fn to_u128(self) -> (r: u128) {
        self as u128
    }

    fn equals(self, rhs: Self) -> (r: bool) {
        self == rhs
    }

    fn less_than(self, rhs: Self) -> (r: bool) {
        self < rhs
    }
}

proof fn lemma_u16_bits(x: u16, k: u32)
    by (bit_vector)
    requires
        k < 16,
    ensures
        !x == 0xffff - x,
        (x << k) as u128 == ((x as u128) << (k as u128)) & 0xffff,
        (x >> k) as u128 == (x as u128) >> (k as u128),
{
}

impl UnsignedStorage for u16 {
    open spec fn bits() -> nat {
        16
    }

    open spec fn as_int(self) -> int {
        self as int
    }

    open spec fn from_int(v: int) -> Self {
        v as u16
    }

    proof fn lemma_storage(x: Self) {
        lemma_pow2_widths();
        lemma_identities();
    }

    proof fn lemma_from_int(v: int) {
        lemma_pow2_widths();
    }

    fn bit_width() -> (w: u32) {
        16
    }

    fn wrapping_add(self, rhs: Self) -> (r: Self) {
        proof {
            lemma_pow2_widths();
            lemma_wrap_unsigned_offset(self + rhs, if self + rhs > u16::MAX { 1 } else { 0 }, 16);
        }
        u16::wrapping_add(self, rhs)
    }

    fn wrapping_sub(self, rhs: Self) -> (r: Self) {
        proof {
            lemma_pow2_widths();
            lemma_wrap_unsigned_offset(self - rhs, if self - rhs < 0 { -1 } else { 0 }, 16);
        }
        u16::wrapping_sub(self, rhs)
    }

    fn bit_and(self, rhs: Self) -> (r: Self) {
        self & rhs
    }

    fn bit_or(self, rhs: Self) -> (r: Self) {
        self | rhs
    }

    fn bit_xor(self, rhs: Self) -> (r: Self) {
        self ^ rhs
    }

    fn bit_not(self) -> (r: Self) {
        proof {
            lemma_pow2_widths();
            lemma_u16_bits(self, 0);
        }
        !self
    }

    fn shift_left(self, k: u32) -> (r: Self) {
        proof {
            lemma_pow2_widths();
            lemma_u16_bits(self, k);
            lemma_shl_is_mul(self as u128, k as nat);
            lemma_low_mask_value(16);
            lemma_low_mask_is_mod((self as u128) << (k as u128), 16);
            lemma_wrap_unsigned_narrow(self * pow2(k as nat), 16, 128);
        }
        self << k
    }

    fn shift_right(self, k: u32) -> (r: Self) {
        proof {
            lemma_u16_bits(self, k);
            lemma_shr_is_div(self as u128, k as nat);
        }
        self >> k
    }

    fn to_u128(self) -> (r: u128) {
        self as u128
    }

    fn equals(self, rhs: Self) -> (r: bool) {
        self == rhs
    }

    fn less_than(self, rhs: Self) -> (r: bool) {
        self < rhs
    }
}

proof fn lemma_u32_bits(x: u32, k: u32)
    by (bit_vector)
    requires
        k < 32,
    ensures
        !x == 0xffff_ffff - x,
        (x << k) as u128 == ((x as u128) << (k as u128)) & 0xffff_ffff,
        (x >> k) as u128 == (x as u128) >> (k as u128),
{
}

impl UnsignedStorage for u32 {
    open spec fn bits() -> nat {
        32
    }

    open spec fn as_int(self) -> int {
        self as int
    }

    open spec fn from_int(v: int) -> Self {
        v as u32
    }

    proof fn lemma_storage(x: Self) {
        lemma_pow2_widths();
        lemma_identities();
    }

    proof fn lemma_from_int(v: int) {
        lemma_pow2_widths();
    }

    fn bit_width() -> (w: u32) {
        32
    }

    fn wrapping_add(self, rhs: Self) -> (r: Self) {
        proof {
            lemma_pow2_widths();
            lemma_wrap_unsigned_offset(self + rhs, if self + rhs > u32::MAX { 1 } else { 0 }, 32);
        }
        u32::wrapping_add(self, rhs)
    }

    fn wrapping_sub(self, rhs: Self) -> (r: Self) {
        proof {
            lemma_pow2_widths();
            lemma_wrap_unsigned_offset(self - rhs, if self - rhs < 0 { -1 } else { 0 }, 32);
        }
        u32::wrapping_sub(self, rhs)
    }

    fn bit_and(self, rhs: Self) -> (r: Self) {
        self & rhs
    }

    fn bit_or(self, rhs: Self) -> (r: Self) {
        self | rhs
    }

    fn bit_xor(self, rhs: Self) -> (r: Self) {
        self ^ rhs
    }

    fn bit_not(self) -> (r: Self) {
        proof {
            lemma_pow2_widths();
            lemma_u32_bits(self, 0);
        }
        !self
    }

    fn shift_left(self, k: u32) -> (r: Self) {
        proof {
            lemma_pow2_widths();
            lemma_u32_bits(self, k);
            lemma_shl_is_mul(self as u128, k as nat);
            lemma_low_mask_value(32);
            lemma_low_mask_is_mod((self as u128) << (k as u128), 32);
            lemma_wrap_unsigned_narrow(self * pow2(k as nat), 32, 128);
        }
        self << k
    }

    fn shift_right(self, k: u32) -> (r: Self) {
        proof {
            lemma_u32_bits(self, k);
            lemma_shr_is_div(self as u128, k as nat);
        }
        self >> k
    }

    fn to_u128(self) -> (r: u128) {
        self as u128
    }

    fn equals(self, rhs: Self) -> (r: bool) {
        self == rhs
    }

    fn less_than(self, rhs: Self) -> (r: bool) {
        self < rhs
    }
}

proof fn lemma_u64_bits(x: u64, k: u32)
    by (bit_vector)
    requires
        k < 64,
    ensures
        !x == 0xffff_ffff_ffff_ffff - x,
        (x << k) as u128 == ((x as u128) << (k as u128)) & 0xffff_ffff_ffff_ffff,
        (x >> k) as u128 == (x as u128) >> (k as u128),
{
}

impl UnsignedStorage for u64 {
    open spec fn bits() -> nat {
        64
    }

    open spec fn as_int(self) -> int {
        self as int
    }

    open spec fn from_int(v: int) -> Self {
        v as u64
    }

    proof fn lemma_storage(x: Self) {
        lemma_pow2_widths();
        lemma_identities();
    }

    proof fn lemma_from_int(v: int) {
        lemma_pow2_widths();
    }

    fn bit_width() -> (w: u32) {
        64
    }

    fn wrapping_add(self, rhs: Self) -> (r: Self) {
        proof {
            lemma_pow2_widths();
            lemma_wrap_unsigned_offset(self + rhs, if self + rhs > u64::MAX { 1 } else { 0 }, 64);
        }
        u64::wrapping_add(self, rhs)
    }

    fn wrapping_sub(self, rhs: Self) -> (r: Self) {
        proof {
            lemma_pow2_widths();
            lemma_wrap_unsigned_offset(self - rhs, if self - rhs < 0 { -1 } else { 0 }, 64);
        }
        u64::wrapping_sub(self, rhs)
    }

    fn bit_and(self, rhs: Self) -> (r: Self) {
        self & rhs
    }

    fn bit_or(self, rhs: Self) -> (r: Self) {
        self | rhs
    }

    fn bit_xor(self, rhs: Self) -> (r: Self) {
        self ^ rhs
    }

    fn bit_not(self) -> (r: Self) {
        proof {
            lemma_pow2_widths();
            lemma_u64_bits(self, 0);
        }
        !self
    }

    fn shift_left(self, k: u32) -> (r: Self) {
        proof {
            lemma_pow2_widths();
            lemma_u64_bits(self, k);
            lemma_shl_is_mul(self as u128, k as nat);
            lemma_low_mask_value(64);
            lemma_low_mask_is_mod((self as u128) << (k as u128), 64);
            lemma_wrap_unsigned_narrow(self * pow2(k as nat), 64, 128);
        }
        self << k
    }

    fn shift_right(self, k: u32) -> (r: Self) {
        proof {
            lemma_u64_bits(self, k);
            lemma_shr_is_div(self as u128, k as nat);
        }
        self >> k
    }

    fn to_u128(self) -> (r: u128) {
        self as u128
    }

    fn equals(self, rhs: Self) -> (r: bool) {
        self == rhs
    }

    fn less_than(self, rhs: Self) -> (r: bool) {
        self < rhs
    }
}

proof fn lemma_u128_bits(x: u128, k: u32)
    by (bit_vector)
    requires
        k < 128,
    ensures
        !x == 0xffff_ffff_ffff_ffff_ffff_ffff_ffff_ffff - x,
        (x << k) as u128 == ((x as u128) << (k as u128))
            & 0xffff_ffff_ffff_ffff_ffff_ffff_ffff_ffff,
        (x >> k) as u128 == (x as u128) >> (k as u128),
{
}

impl UnsignedStorage for u128 {
    open spec fn bits() -> nat {
        128
    }

    open spec fn as_int(self) -> int {
        self as int
    }

    open spec fn from_int(v: int) -> Self {
        v as u128
    }

    proof fn lemma_storage(x: Self) {
        lemma_pow2_widths();
        lemma_identities();
    }

    proof fn lemma_from_int(v: int) {
        lemma_pow2_widths();
    }

    fn bit_width() -> (w: u32) {
        128
    }

    fn wrapping_add(self, rhs: Self) -> (r: Self) {
        proof {
            lemma_pow2_widths();
            lemma_wrap_unsigned_offset(self + rhs, if self + rhs > u128::MAX { 1 } else { 0 }, 128);
        }
        u128::wrapping_add(self, rhs)
    }

    fn wrapping_sub(self, rhs: Self) -> (r: Self) {
        proof {
            lemma_pow2_widths();
            lemma_wrap_unsigned_offset(self - rhs, if self - rhs < 0 { -1 } else { 0 }, 128);
        }
        u128::wrapping_sub(self, rhs)
    }

    fn bit_and(self, rhs: Self) -> (r: Self) {
        self & rhs
    }

    fn bit_or(self, rhs: Self) -> (r: Self) {
        self | rhs
    }

    fn bit_xor(self, rhs: Self) -> (r: Self) {
        self ^ rhs
    }

    fn bit_not(self) -> (r: Self) {
        proof {
            lemma_pow2_widths();
            lemma_u128_bits(self, 0);
        }
        !self
    }

    fn shift_left(self, k: u32) -> (r: Self) {
        proof {
            lemma_pow2_widths();
            lemma_u128_bits(self, k);
            lemma_shl_is_mul(self as u128, k as nat);
            lemma_low_mask_value(128);
            lemma_low_mask_is_mod((self as u128) << (k as u128), 128);
            lemma_wrap_unsigned_narrow(self * pow2(k as nat), 128, 128);
        }
        self << k
    }

    fn shift_right(self, k: u32) -> (r: Self) {
        proof {
            lemma_u128_bits(self, k);
            lemma_shr_is_div(self as u128, k as nat);
        }
        self >> k
    }

    fn to_u128(self) -> (r: u128) {
        self as u128
    }

    fn equals(self, rhs: Self) -> (r: bool) {
        self == rhs
    }

    fn less_than(self, rhs: Self) -> (r: bool) {
        self < rhs
    }
}

} // verus!
