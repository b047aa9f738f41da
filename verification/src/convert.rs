//! Conversions between the narrow integers and the native ones.
use crate::error::OverflowError;
use crate::math::{fits_signed, fits_unsigned};
use crate::signed::Signed;
use crate::storage::{SignedStorage, UnsignedStorage};
use crate::unsigned::Unsigned;
use vstd::prelude::*;
use vstd::std_specs::convert::IntoSpec;

verus! {

impl<const N: usize, T: UnsignedStorage> Unsigned<N, T> {
    /// Makes the value that stands for `num`, an integer of any type that
    /// converts to the storage without loss. What it converts to must fit
    /// `N` bits.
    pub fn from<S: Into<T>>(num: S) -> (r: Self)
        requires
            Self::valid_width(),
            S::obeys_into_spec(),
            fits_unsigned(num.into_spec().as_int(), N as nat),
        ensures
            r == Self::from_storage(num.into_spec()),
            r.storage() == num.into_spec(),
            r.is_canonical(),
            r@ == num.into_spec().as_int(),
    {
        Self::new(num.into())
    }
}

impl<const N: usize, T: UnsignedStorage> Unsigned<N, T> {
    /// What a conversion from the native integer `value` gives: the value
    /// that stands for it where it fits `N` bits, and the error where it
    /// does not. A width that the storage cannot hold fits nothing.
    pub open spec fn spec_try_from(value: T) -> Result<Self, OverflowError> {
        if Self::valid_width() && fits_unsigned(value.as_int(), N as nat) {
            Ok(Self::from_storage(value))
        } else {
            Err(OverflowError)
        }
    }

    /// Converts a native integer, which may not fit.
    pub fn try_from_native(value: T) -> (r: Result<Self, OverflowError>)
        ensures
            r == Self::spec_try_from(value),
            r matches Ok(x) ==> x.storage() == value && x.is_canonical() && x@ == value.as_int(),
    {
        proof {
            T::lemma_storage(value);
        }
        if 1 <= N && N <= T::bit_width() as usize {
            match Self::try_new(value) {
                Some(x) => Ok(x),
                None => Err(OverflowError),
            }
        } else {
            Err(OverflowError)
        }
    }
}

impl<const N: usize, T: SignedStorage> Signed<N, T> {
    /// What a conversion from the native integer `value` gives: the value
    /// that stands for it where it fits `N` bits, and the error where it
    /// does not. A width that the storage cannot hold fits nothing.
    pub open spec fn spec_try_from(value: T) -> Result<Self, OverflowError> {
        if Self::valid_width() && fits_signed(value.as_int(), N as nat) {
            Ok(Self::from_storage(value))
        } else {
            Err(OverflowError)
        }
    }

    /// Converts a native integer, which may not fit.
    pub fn try_from_native(value: T) -> (r: Result<Self, OverflowError>)
        ensures
            r == Self::spec_try_from(value),
            r matches Ok(x) ==> x.storage() == value && x.is_canonical() && x@ == value.as_int(),
    {
        proof {
            T::lemma_storage(value);
        }
        if 1 <= N && N <= T::bit_width() as usize {
            match Self::try_new(value) {
                Some(x) => Ok(x),
                None => Err(OverflowError),
            }
        } else {
            Err(OverflowError)
        }
    }
}

impl<const N: usize> vstd::std_specs::convert::FromSpecImpl<Signed<N, i8>> for i8 {
    open spec fn obeys_from_spec() -> bool {
        true
    }

    /// The integer that the value stands for.
    open spec fn from_spec(v: Signed<N, i8>) -> i8 {
        v.spec_into_native()
    }
}

impl<const N: usize> From<Signed<N, i8>> for i8 {
    fn from(num: Signed<N, i8>) -> (r: i8) {
        num.into_native()
    }
}

impl<const N: usize> vstd::std_specs::convert::TryFromSpecImpl<i8> for Signed<N, i8> {
    open spec fn obeys_try_from_spec() -> bool {
        true
    }

    open spec fn try_from_spec(v: i8) -> Result<Self, OverflowError> {
        Self::spec_try_from(v)
    }
}

impl<const N: usize> TryFrom<i8> for Signed<N, i8> {
    type Error = OverflowError;

    fn try_from(num: i8) -> (r: Result<Self, OverflowError>) {
        Self::try_from_native(num)
    }
}

impl<const N: usize> vstd::std_specs::convert::FromSpecImpl<Signed<N, i16>> for i16 {
    open spec fn obeys_from_spec() -> bool {
        true
    }

    /// The integer that the value stands for.
    open spec fn from_spec(v: Signed<N, i16>) -> i16 {
        v.spec_into_native()
    }
}

impl<const N: usize> From<Signed<N, i16>> for i16 {
    fn from(num: Signed<N, i16>) -> (r: i16) {
        num.into_native()
    }
}

impl<const N: usize> vstd::std_specs::convert::TryFromSpecImpl<i16> for Signed<N, i16> {
    open spec fn obeys_try_from_spec() -> bool {
        true
    }

    open spec fn try_from_spec(v: i16) -> Result<Self, OverflowError> {
        Self::spec_try_from(v)
    }
}

impl<const N: usize> TryFrom<i16> for Signed<N, i16> {
    type Error = OverflowError;

    fn try_from(num: i16) -> (r: Result<Self, OverflowError>) {
        Self::try_from_native(num)
    }
}

impl<const N: usize> vstd::std_specs::convert::FromSpecImpl<Signed<N, i32>> for i32 {
    open spec fn obeys_from_spec() -> bool {
        true
    }

    /// The integer that the value stands for.
    open spec fn from_spec(v: Signed<N, i32>) -> i32 {
        v.spec_into_native()
    }
}

impl<const N: usize> From<Signed<N, i32>> for i32 {
    fn from(num: Signed<N, i32>) -> (r: i32) {
        num.into_native()
    }
}

impl<const N: usize> vstd::std_specs::convert::TryFromSpecImpl<i32> for Signed<N, i32> {
    open spec fn obeys_try_from_spec() -> bool {
        true
    }

    open spec fn try_from_spec(v: i32) -> Result<Self, OverflowError> {
        Self::spec_try_from(v)
    }
}

impl<const N: usize> TryFrom<i32> for Signed<N, i32> {
    type Error = OverflowError;

    fn try_from(num: i32) -> (r: Result<Self, OverflowError>) {
        Self::try_from_native(num)
    }
}

impl<const N: usize> vstd::std_specs::convert::FromSpecImpl<Signed<N, i64>> for i64 {
    open spec fn obeys_from_spec() -> bool {
        true
    }

    /// The integer that the value stands for.
    open spec fn from_spec(v: Signed<N, i64>) -> i64 {
        v.spec_into_native()
    }
}

impl<const N: usize> From<Signed<N, i64>> for i64 {
    fn from(num: Signed<N, i64>) -> (r: i64) {
        num.into_native()
    }
}

impl<const N: usize> vstd::std_specs::convert::TryFromSpecImpl<i64> for Signed<N, i64> {
    open spec fn obeys_try_from_spec() -> bool {
        true
    }

    open spec fn try_from_spec(v: i64) -> Result<Self, OverflowError> {
        Self::spec_try_from(v)
    }
}

impl<const N: usize> TryFrom<i64> for Signed<N, i64> {
    type Error = OverflowError;

    fn try_from(num: i64) -> (r: Result<Self, OverflowError>) {
        Self::try_from_native(num)
    }
}

impl<const N: usize> vstd::std_specs::convert::FromSpecImpl<Signed<N, i128>> for i128 {
    open spec fn obeys_from_spec() -> bool {
        true
    }

    /// The integer that the value stands for.
    open spec fn from_spec(v: Signed<N, i128>) -> i128 {
        v.spec_into_native()
    }
}

impl<const N: usize> From<Signed<N, i128>> for i128 {
    fn from(num: Signed<N, i128>) -> (r: i128) {
        num.into_native()
    }
}

impl<const N: usize> vstd::std_specs::convert::TryFromSpecImpl<i128> for Signed<N, i128> {
    open spec fn obeys_try_from_spec() -> bool {
        true
    }

    open spec fn try_from_spec(v: i128) -> Result<Self, OverflowError> {
        Self::spec_try_from(v)
    }
}

impl<const N: usize> TryFrom<i128> for Signed<N, i128> {
    type Error = OverflowError;

    fn try_from(num: i128) -> (r: Result<Self, OverflowError>) {
        Self::try_from_native(num)
    }
}

impl<const N: usize> vstd::std_specs::convert::TryFromSpecImpl<u8> for Unsigned<N, u8> {
    open spec fn obeys_try_from_spec() -> bool {
        true
    }

    open spec fn try_from_spec(v: u8) -> Result<Self, OverflowError> {
        Self::spec_try_from(v)
    }
}

impl<const N: usize> TryFrom<u8> for Unsigned<N, u8> {
    type Error = OverflowError;

    fn try_from(num: u8) -> (r: Result<Self, OverflowError>) {
        Self::try_from_native(num)
    }
}

impl<const N: usize> vstd::std_specs::convert::TryFromSpecImpl<u16> for Unsigned<N, u16> {
    open spec fn obeys_try_from_spec() -> bool {
        true
    }

    open spec fn try_from_spec(v: u16) -> Result<Self, OverflowError> {
        Self::spec_try_from(v)
    }
}

impl<const N: usize> TryFrom<u16> for Unsigned<N, u16> {
    type Error = OverflowError;

    fn try_from(num: u16) -> (r: Result<Self, OverflowError>) {
        Self::try_from_native(num)
    }
}

impl<const N: usize> vstd::std_specs::convert::TryFromSpecImpl<u32> for Unsigned<N, u32> {
    open spec fn obeys_try_from_spec() -> bool {
        true
    }

    open spec fn try_from_spec(v: u32) -> Result<Self, OverflowError> {
        Self::spec_try_from(v)
    }
}

impl<const N: usize> TryFrom<u32> for Unsigned<N, u32> {
    type Error = OverflowError;

    fn try_from(num: u32) -> (r: Result<Self, OverflowError>) {
        Self::try_from_native(num)
    }
}

impl<const N: usize> vstd::std_specs::convert::TryFromSpecImpl<u64> for Unsigned<N, u64> {
    open spec fn obeys_try_from_spec() -> bool {
        true
    }

    open spec fn try_from_spec(v: u64) -> Result<Self, OverflowError> {
        Self::spec_try_from(v)
    }
}

impl<const N: usize> TryFrom<u64> for Unsigned<N, u64> {
    type Error = OverflowError;

    fn try_from(num: u64) -> (r: Result<Self, OverflowError>) {
        Self::try_from_native(num)
    }
}

impl<const N: usize> vstd::std_specs::convert::TryFromSpecImpl<u128> for Unsigned<N, u128> {
    open spec fn obeys_try_from_spec() -> bool {
        true
    }

    open spec fn try_from_spec(v: u128) -> Result<Self, OverflowError> {
        Self::spec_try_from(v)
    }
}

impl<const N: usize> TryFrom<u128> for Unsigned<N, u128> {
    type Error = OverflowError;

    fn try_from(num: u128) -> (r: Result<Self, OverflowError>) {
        Self::try_from_native(num)
    }
}

} // verus!
