//! The text of a narrow integer: that of its integer in the native one,
//! written by the native integer's own formatter.
use crate::math::wrap_unsigned;
use crate::signed::Signed;
use crate::storage::{SignedStorage, UnsignedStorage};
use crate::unsigned::Unsigned;
use vstd::prelude::*;

verus! {

/// The characters that `Display` writes for a `u128`.
pub uninterp spec fn unsigned_decimal_text(v: u128) -> Seq<char>;

/// The characters that `Display` writes for an `i128`.
pub uninterp spec fn signed_decimal_text(v: i128) -> Seq<char>;

/// The characters that `UpperHex` writes for a `u128`.
pub uninterp spec fn upper_hex_text(v: u128) -> Seq<char>;

/// The characters that `LowerHex` writes for a `u128`.
pub uninterp spec fn lower_hex_text(v: u128) -> Seq<char>;

/// The characters that `Octal` writes for a `u128`.
pub uninterp spec fn octal_text(v: u128) -> Seq<char>;

/// The characters that `Binary` writes for a `u128`.
pub uninterp spec fn binary_text(v: u128) -> Seq<char>;

/// `format!("{}", v)`, which writes `v` through `Display` of `u128`. The
/// text depends on the number alone.
#[verifier::external_body]
fn format_unsigned_decimal(v: u128) -> (r: String)
    ensures
        r@ == unsigned_decimal_text(v),
{
    format!("{}", v)
}

/// `format!("{}", v)`, which writes `v` through `Display` of `i128`. The
/// text depends on the number alone.
#[verifier::external_body]
fn format_signed_decimal(v: i128) -> (r: String)
    ensures
        r@ == signed_decimal_text(v),
{
    format!("{}", v)
}

/// `format!("{:X}", v)`, which writes `v` through `UpperHex` of `u128`. The
/// text depends on the number alone.
#[verifier::external_body]
fn format_upper_hex(v: u128) -> (r: String)
    ensures
        r@ == upper_hex_text(v),
{
    format!("{:X}", v)
}

/// `format!("{:x}", v)`, which writes `v` through `LowerHex` of `u128`. The
/// text depends on the number alone.
#[verifier::external_body]
fn format_lower_hex(v: u128) -> (r: String)
    ensures
        r@ == lower_hex_text(v),
{
    format!("{:x}", v)
}

/// `format!("{:o}", v)`, which writes `v` through `Octal` of `u128`. The
/// text depends on the number alone.
#[verifier::external_body]
fn format_octal(v: u128) -> (r: String)
    ensures
        r@ == octal_text(v),
{
    format!("{:o}", v)
}

/// `format!("{:b}", v)`, which writes `v` through `Binary` of `u128`. The
/// text depends on the number alone.
#[verifier::external_body]
fn format_binary(v: u128) -> (r: String)
    ensures
        r@ == binary_text(v),
{
    format!("{:b}", v)
}

impl<const N: usize, T: UnsignedStorage> Unsigned<N, T> {
    /// The integer in decimal.
    pub fn to_string(self) -> (r: String)
        ensures
            r@ == unsigned_decimal_text(self@ as u128),
    {
        format_unsigned_decimal(self.into_native().to_u128())
    }

    /// The integer in hexadecimal, with the digits above nine in upper case.
    pub fn to_upper_hex(self) -> (r: String)
        ensures
            r@ == upper_hex_text(self@ as u128),
    {
        format_upper_hex(self.into_native().to_u128())
    }

    /// The integer in hexadecimal, with the digits above nine in lower case.
    pub fn to_lower_hex(self) -> (r: String)
        ensures
            r@ == lower_hex_text(self@ as u128),
    {
        format_lower_hex(self.into_native().to_u128())
    }

    /// The integer in octal.
    pub fn to_octal(self) -> (r: String)
        ensures
            r@ == octal_text(self@ as u128),
    {
        format_octal(self.into_native().to_u128())
    }

    /// The integer in binary.
    pub fn to_binary(self) -> (r: String)
        ensures
            r@ == binary_text(self@ as u128),
    {
        format_binary(self.into_native().to_u128())
    }
}

impl<const N: usize, T: SignedStorage> Signed<N, T> {
    /// The bits of the canonical storage word, read as an unsigned number:
    /// what the formats other than decimal write.
    pub open spec fn spec_bits(self) -> u128 {
        wrap_unsigned(self@, T::bits()) as u128
    }

    /// The integer in decimal, with a minus sign where it is negative.
    pub fn to_string(self) -> (r: String)
        ensures
            r@ == signed_decimal_text(self@ as i128),
    {
        format_signed_decimal(self.into_native().to_i128())
    }

    /// The bits of the canonical storage word in hexadecimal, with the
    /// digits above nine in upper case. A negative integer shows the sign
    /// bits of the whole storage word, not of `N` bits alone.
    pub fn to_upper_hex(self) -> (r: String)
        ensures
            r@ == upper_hex_text(self.spec_bits()),
    {
        format_upper_hex(self.into_native().to_bits())
    }

    /// The bits of the canonical storage word in hexadecimal, with the
    /// digits above nine in lower case. A negative integer shows the sign
    /// bits of the whole storage word, not of `N` bits alone.
    pub fn to_lower_hex(self) -> (r: String)
        ensures
            r@ == lower_hex_text(self.spec_bits()),
    {
        format_lower_hex(self.into_native().to_bits())
    }

    /// The bits of the canonical storage word in octal. A negative integer
    /// shows the sign bits of the whole storage word, not of `N` bits alone.
    pub fn to_octal(self) -> (r: String)
        ensures
            r@ == octal_text(self.spec_bits()),
    {
        format_octal(self.into_native().to_bits())
    }

    /// The bits of the canonical storage word in binary. A negative integer
    /// shows the sign bits of the whole storage word, not of `N` bits alone.
    pub fn to_binary(self) -> (r: String)
        ensures
            r@ == binary_text(self.spec_bits()),
    {
        format_binary(self.into_native().to_bits())
    }
}

} // verus!
