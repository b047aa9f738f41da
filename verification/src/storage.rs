//! The native integers that hold the narrow ones: what the narrow types ask
//! of their storage, stated over the mathematical value of a storage word.
use crate::math::{fits_signed, fits_unsigned, max_unsigned, wrap_signed, wrap_unsigned};
use crate::traits::Identity;
use vstd::arithmetic::power2::pow2;
use vstd::prelude::*;

verus! {

/// A native unsigned integer that can hold a narrower unsigned one.
pub trait UnsignedStorage: Copy + Identity {
    /// The number of bits of a storage word.
    spec fn bits() -> nat;

    /// The number that a storage word holds.
    spec fn as_int(self) -> int;

    /// The storage word that holds `v`.
    spec fn from_int(v: int) -> Self;

    /// A storage word is its number, and the number fits the word.
    proof fn lemma_storage(x: Self)
        ensures
            1 <= Self::bits() <= 128,
            fits_unsigned(x.as_int(), Self::bits()),
            Self::from_int(x.as_int()) == x,
            Self::ZERO.as_int() == 0,
            Self::ONE.as_int() == 1,
    ;

    /// Every number that fits has its storage word.
    proof fn lemma_from_int(v: int)
        requires
            fits_unsigned(v, Self::bits()),
        ensures
            Self::from_int(v).as_int() == v,
    ;

    /// The number of bits of a storage word.
    fn bit_width() -> (w: u32)
        ensures
            w == Self::bits(),
    ;

    /// Addition modulo `2^bits`.
    fn wrapping_add(self, rhs: Self) -> (r: Self)
        ensures
            r.as_int() == wrap_unsigned(self.as_int() + rhs.as_int(), Self::bits()),
    ;

    /// Subtraction modulo `2^bits`.
    fn wrapping_sub(self, rhs: Self) -> (r: Self)
        ensures
            r.as_int() == wrap_unsigned(self.as_int() - rhs.as_int(), Self::bits()),
    ;

    /// Bitwise and.
    fn bit_and(self, rhs: Self) -> (r: Self)
        ensures
            r.as_int() == (self.as_int() as u128) & (rhs.as_int() as u128),
    ;

    /// Bitwise or.
    fn bit_or(self, rhs: Self) -> (r: Self)
        ensures
            r.as_int() == (self.as_int() as u128) | (rhs.as_int() as u128),
    ;

    /// Bitwise exclusive or.
    fn bit_xor(self, rhs: Self) -> (r: Self)
        ensures
            r.as_int() == (self.as_int() as u128) ^ (rhs.as_int() as u128),
    ;

    /// The complement of all bits of the word.
    fn bit_not(self) -> (r: Self)
        ensures
            r.as_int() == max_unsigned(Self::bits()) - self.as_int(),
    ;

    /// Left shift: the bits shifted out at the top are lost.
    fn shift_left(self, k: u32) -> (r: Self)
        requires
            k < Self::bits(),
        ensures
            r.as_int() == wrap_unsigned(self.as_int() * pow2(k as nat), Self::bits()),
    ;

    /// Right shift.
    fn shift_right(self, k: u32) -> (r: Self)
        requires
            k < Self::bits(),
        ensures
            r.as_int() == self.as_int() / (pow2(k as nat) as int),
    ;

    /// The number of the word, in the widest native integer.
    fn to_u128(self) -> (r: u128)
        ensures
            r == self.as_int(),
    ;

    /// Whether two words are the same.
    fn equals(self, rhs: Self) -> (r: bool)
        ensures
            r == (self == rhs),
    ;

    /// Whether this word's number is below the other's.
    fn less_than(self, rhs: Self) -> (r: bool)
        ensures
            r == (self.as_int() < rhs.as_int()),
    ;
}

/// A native signed integer that can hold a narrower signed one.
pub trait SignedStorage: Copy + Identity {
    /// The number of bits of a storage word.
    spec fn bits() -> nat;

    /// The number that a storage word holds.
    spec fn as_int(self) -> int;

    /// The storage word that holds `v`.
    spec fn from_int(v: int) -> Self;

    /// A storage word is its number, and the number fits the word.
    proof fn lemma_storage(x: Self)
        ensures
            2 <= Self::bits() <= 128,
            fits_signed(x.as_int(), Self::bits()),
            Self::from_int(x.as_int()) == x,
            Self::ZERO.as_int() == 0,
            Self::ONE.as_int() == 1,
    ;

    /// Every number that fits has its storage word.
    proof fn lemma_from_int(v: int)
        requires
            fits_signed(v, Self::bits()),
        ensures
            Self::from_int(v).as_int() == v,
    ;

    /// The number of bits of a storage word.
    fn bit_width() -> (w: u32)
        ensures
            w == Self::bits(),
    ;

    /// Addition in two's complement: the sum wraps around at the bounds.
    fn wrapping_add(self, rhs: Self) -> (r: Self)
        ensures
            r.as_int() == wrap_signed(self.as_int() + rhs.as_int(), Self::bits()),
    ;

    /// Subtraction in two's complement: the difference wraps around at the
    /// bounds.
    fn wrapping_sub(self, rhs: Self) -> (r: Self)
        ensures
            r.as_int() == wrap_signed(self.as_int() - rhs.as_int(), Self::bits()),
    ;

    /// Bitwise and.
    fn bit_and(self, rhs: Self) -> (r: Self)
        ensures
            r.as_int() == (self.as_int() as i128) & (rhs.as_int() as i128),
    ;

    /// Bitwise or.
    fn bit_or(self, rhs: Self) -> (r: Self)
        ensures
            r.as_int() == (self.as_int() as i128) | (rhs.as_int() as i128),
    ;

    /// Bitwise exclusive or.
    fn bit_xor(self, rhs: Self) -> (r: Self)
        ensures
            r.as_int() == (self.as_int() as i128) ^ (rhs.as_int() as i128),
    ;

    /// The complement of all bits of the word: `-1 - x` in two's complement.
    fn bit_not(self) -> (r: Self)
        ensures
            r.as_int() == -1 - self.as_int(),
    ;

    /// Left shift: the bits shifted out at the top are lost, and the top bit
    /// that remains is the sign.
    fn shift_left(self, k: u32) -> (r: Self)
        requires
            k < Self::bits(),
        ensures
            r.as_int() == wrap_signed(self.as_int() * pow2(k as nat), Self::bits()),
    ;

    /// Arithmetic right shift: division by `2^k`, rounding down.
    fn shift_right(self, k: u32) -> (r: Self)
        requires
            k < Self::bits(),
        ensures
            r.as_int() == self.as_int() / (pow2(k as nat) as int),
    ;

    /// The number of the word, in the widest native integer.
    fn to_i128(self) -> (r: i128)
        ensures
            r == self.as_int(),
    ;

    /// The bits of the word, read as an unsigned number.
    fn to_bits(self) -> (r: u128)
        ensures
            r == wrap_unsigned(self.as_int(), Self::bits()),
    ;

    /// Whether two words are the same.
    fn equals(self, rhs: Self) -> (r: bool)
        ensures
            r == (self == rhs),
    ;

    /// Whether this word's number is below the other's.
    fn less_than(self, rhs: Self) -> (r: bool)
        ensures
            r == (self.as_int() < rhs.as_int()),
    ;
}

} // verus!
