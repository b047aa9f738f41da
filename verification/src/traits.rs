//! Capabilities that generic numeric code asks of an integer type.
use vstd::prelude::*;

verus! {

/// The additive and the multiplicative identity of an integer type.
pub trait Identity: Sized {
    /// The value `0`.
    const ZERO: Self;

    /// The value `1`.
    const ONE: Self;
}

impl Identity for i8 {
    const ZERO: Self = 0;

    const ONE: Self = 1;
}

impl Identity for i16 {
    const ZERO: Self = 0;

    const ONE: Self = 1;
}

impl Identity for i32 {
    const ZERO: Self = 0;

    const ONE: Self = 1;
}

impl Identity for i64 {
    const ZERO: Self = 0;

    const ONE: Self = 1;
}

impl Identity for i128 {
    const ZERO: Self = 0;

    const ONE: Self = 1;
}

impl Identity for u8 {
    const ZERO: Self = 0;

    const ONE: Self = 1;
}

impl Identity for u16 {
    const ZERO: Self = 0;

    const ONE: Self = 1;
}

impl Identity for u32 {
    const ZERO: Self = 0;

    const ONE: Self = 1;
}

impl Identity for u64 {
    const ZERO: Self = 0;

    const ONE: Self = 1;
}

impl Identity for u128 {
    const ZERO: Self = 0;

    const ONE: Self = 1;
}

impl Identity for usize {
    const ZERO: Self = 0;

    const ONE: Self = 1;
}

impl Identity for isize {
    const ZERO: Self = 0;

    const ONE: Self = 1;
}

/// The identities of the native integers are the numbers `0` and `1`.
pub proof fn lemma_identities()
    ensures
        <i8 as Identity>::ZERO == 0,
        <i8 as Identity>::ONE == 1,
        <i16 as Identity>::ZERO == 0,
        <i16 as Identity>::ONE == 1,
        <i32 as Identity>::ZERO == 0,
        <i32 as Identity>::ONE == 1,
        <i64 as Identity>::ZERO == 0,
        <i64 as Identity>::ONE == 1,
        <i128 as Identity>::ZERO == 0,
        <i128 as Identity>::ONE == 1,
        <u8 as Identity>::ZERO == 0,
        <u8 as Identity>::ONE == 1,
        <u16 as Identity>::ZERO == 0,
        <u16 as Identity>::ONE == 1,
        <u32 as Identity>::ZERO == 0,
        <u32 as Identity>::ONE == 1,
        <u64 as Identity>::ZERO == 0,
        <u64 as Identity>::ONE == 1,
        <u128 as Identity>::ZERO == 0,
        <u128 as Identity>::ONE == 1,
        <usize as Identity>::ZERO == 0,
        <usize as Identity>::ONE == 1,
        <isize as Identity>::ZERO == 0,
        <isize as Identity>::ONE == 1,
{
}

} // verus!
