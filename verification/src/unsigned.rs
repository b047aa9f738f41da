//! Unsigned integers of a chosen number of bits.
use crate::bits::{lemma_low_mask_is_mod, lemma_low_mask_value};
use crate::math::{
    fits_unsigned,
    lemma_pow2_split,
    lemma_wrap_unsigned_add_sub,
    lemma_wrap_unsigned_fits,
    lemma_wrap_unsigned_narrow,
    lemma_wrap_unsigned_offset,
    max_unsigned,
    wrap_unsigned,
};
use crate::storage::UnsignedStorage;
use vstd::arithmetic::power2::{lemma_pow2_pos, lemma_pow2_strictly_increases, pow2};
use vstd::prelude::*;

verus! {

/// An unsigned integer of `BITS` bits, kept in a storage word of type `T`.
///
/// The integer is the low `BITS` bits of the storage word. A value is
/// canonical when the other bits of the word are clear. Only
/// [`Unsigned::new_unchecked`] makes values that are not, and every operation
/// reads its operands through [`Unsigned::mask`], so the bits above never
/// reach a result.
///
/// The width is at least 1 and at most the width of the storage word: no
/// value of another width exists.
#[derive(Debug, Copy)]
pub struct Unsigned<const BITS: usize, T: UnsignedStorage>(T);

impl<const N: usize, T: UnsignedStorage> View for Unsigned<N, T> {
    type V = int;

    /// The integer that the value stands for: its storage modulo `2^N`.
    open spec fn view(&self) -> int {
        wrap_unsigned(self.storage().as_int(), N as nat)
    }
}

impl<const N: usize, T: UnsignedStorage> Clone for Unsigned<N, T> {
    fn clone(&self) -> (r: Self)
        ensures
            r == *self,
    {
        *self
    }
}

impl<const N: usize, T: UnsignedStorage> Unsigned<N, T> {
    /// Whether `N` is a width that the storage can hold.
    pub open spec fn valid_width() -> bool {
        1 <= N <= T::bits()
    }

    /// Every value has a width that its storage can hold.
    #[verifier::type_invariant]
    pub open spec fn has_valid_width(self) -> bool {
        Self::valid_width()
    }

    /// The storage word, with whatever its high bits hold.
    pub closed spec fn spec_storage(self) -> T {
        self.0
    }

    /// The value with the storage word `value`.
    pub closed spec fn from_storage(value: T) -> Self {
        Unsigned(value)
    }

    /// The canonical value that stands for `v`.
    pub open spec fn canonical(v: int) -> Self {
        Self::from_storage(T::from_int(v))
    }

    /// Whether the bits of the storage above the low `N` are clear.
    pub open spec fn is_canonical(self) -> bool {
        fits_unsigned(self.storage().as_int(), N as nat)
    }

    /// The largest integer of `N` bits: `2^N - 1`.
    pub open spec fn spec_max() -> int {
        max_unsigned(N as nat)
    }

    /// The smallest integer of `N` bits: `0`.
    pub open spec fn spec_min() -> int {
        0
    }

    /// What [`Unsigned::mask`] returns.
    pub open spec fn spec_mask(self) -> Self {
        Self::canonical(self@)
    }

    /// What [`Unsigned::wrapping_add`] returns.
    pub open spec fn spec_wrapping_add(self, rhs: Self) -> Self {
        Self::canonical(wrap_unsigned(self@ + rhs@, N as nat))
    }

    /// What [`Unsigned::wrapping_sub`] returns.
    pub open spec fn spec_wrapping_sub(self, rhs: Self) -> Self {
        Self::canonical(wrap_unsigned(self@ - rhs@, N as nat))
    }

    /// What [`Unsigned::checked_add`] returns.
    pub open spec fn spec_checked_add(self, rhs: Self) -> Option<Self> {
        if self@ + rhs@ <= Self::spec_max() {
            Some(Self::canonical(self@ + rhs@))
        } else {
            None
        }
    }

    /// What [`Unsigned::checked_sub`] returns.
    pub open spec fn spec_checked_sub(self, rhs: Self) -> Option<Self> {
        if Self::spec_min() <= self@ - rhs@ {
            Some(Self::canonical(self@ - rhs@))
        } else {
            None
        }
    }

    /// What [`Unsigned::into_native`] returns.
    pub open spec fn spec_into_native(self) -> T {
        T::from_int(self@)
    }

    /// A value is its storage word.
    pub proof fn lemma_from_storage(value: T)
        ensures
            Self::from_storage(value).storage() == value,
    {
    }

    /// A value is the value with its storage word.
    pub proof fn lemma_storage_determines(x: Self)
        ensures
            x == Self::from_storage(x.storage()),
    {
    }

    /// The integer of a value lies within `N` bits, and the integer of a
    /// canonical value is the number in its storage.
    pub proof fn lemma_view_fits(x: Self)
        ensures
            fits_unsigned(x@, N as nat),
            x.is_canonical() ==> x@ == x.storage().as_int(),
    {
        lemma_wrap_unsigned_fits(x.storage().as_int(), N as nat);
    }

    /// The canonical value of an integer of `N` bits holds that integer.
    pub proof fn lemma_canonical(v: int)
        requires
            Self::valid_width(),
            fits_unsigned(v, N as nat),
        ensures
            Self::canonical(v).storage().as_int() == v,
            Self::canonical(v).is_canonical(),
            Self::canonical(v)@ == v,
    {
        lemma_pow2_split(N as nat, T::bits());
        T::lemma_from_int(v);
        lemma_wrap_unsigned_fits(v, N as nat);
    }

    /// A canonical value is the canonical value of its integer.
    pub proof fn lemma_canonical_unique(x: Self)
        requires
            x.is_canonical(),
        ensures
            x == Self::canonical(x@),
    {
        T::lemma_storage(x.storage());
        lemma_wrap_unsigned_fits(x.storage().as_int(), N as nat);
    }

    /// The storage word, with whatever its high bits hold.
    #[verifier::when_used_as_spec(spec_storage)]
    pub fn storage(self) -> (r: T)
        ensures
            r == self.storage(),
    {
        self.0
    }

    /// Makes a value of the storage word as it is: nothing is checked and
    /// nothing is masked. The value is canonical only if `value` fits `N`
    /// bits.
    pub fn new_unchecked(value: T) -> (r: Self)
        requires
            Self::valid_width(),
        ensures
            r == Self::from_storage(value),
            r.storage() == value,
    {
        Self(value)
    }

    /// Makes the value that stands for `value`, which must fit `N` bits.
    pub fn new(value: T) -> (r: Self)
        requires
            Self::valid_width(),
            fits_unsigned(value.as_int(), N as nat),
        ensures
            r == Self::from_storage(value),
            r.storage() == value,
            r.is_canonical(),
            r@ == value.as_int(),
    {
        proof {
            lemma_wrap_unsigned_fits(value.as_int(), N as nat);
        }
        Self(value)
    }

    /// Makes the value that stands for `value` where `value` fits `N` bits,
    /// and none where it does not.
    pub fn try_new(value: T) -> (r: Option<Self>)
        requires
            Self::valid_width(),
        ensures
            match r {
                Some(x) => fits_unsigned(value.as_int(), N as nat) && x == Self::from_storage(value)
                    && x.storage() == value && x.is_canonical() && x@ == value.as_int(),
                None => !fits_unsigned(value.as_int(), N as nat),
            },
    {
        proof {
            T::lemma_storage(value);
            lemma_wrap_unsigned_fits(value.as_int(), N as nat);
        }
        let max = Self::low_bits();
        if !max.less_than(value) && !value.less_than(T::ZERO) {
            Some(Self(value))
        } else {
            None
        }
    }

    /// Makes the value that stands for the low `N` bits of `value`.
    pub fn truncating_new(value: T) -> (r: Self)
        requires
            Self::valid_width(),
        ensures
            r == Self::canonical(wrap_unsigned(value.as_int(), N as nat)),
            r.is_canonical(),
            r@ == wrap_unsigned(value.as_int(), N as nat),
    {
        let num = Self::new_unchecked(value);
        num.mask()
    }

    /// The largest value: `2^N - 1`.
    pub fn max_value() -> (r: Self)
        requires
            Self::valid_width(),
        ensures
            r == Self::canonical(Self::spec_max()),
            r.is_canonical(),
            r@ == Self::spec_max(),
            r.storage().as_int() == Self::spec_max(),
    {
        let r = Self(Self::low_bits());
        proof {
            T::lemma_storage(r.0);
            lemma_wrap_unsigned_fits(r.0.as_int(), N as nat);
        }
        r
    }

    /// The smallest value: `0`.
    pub fn min_value() -> (r: Self)
        requires
            Self::valid_width(),
        ensures
            r == Self::canonical(Self::spec_min()),
            r.is_canonical(),
            r@ == Self::spec_min(),
            r.storage().as_int() == Self::spec_min(),
    {
        let r = Self(T::ZERO);
        proof {
            T::lemma_storage(r.0);
            lemma_pow2_pos(N as nat);
            lemma_wrap_unsigned_fits(0, N as nat);
        }
        r
    }

    /// The storage word whose low `N` bits are set and whose other bits are
    /// clear. One shifted left by the width overflows to zero where the
    /// width is that of the storage, and zero less one wraps around to a word
    /// of ones.
    fn low_bits() -> (m: T)
        requires
            Self::valid_width(),
        ensures
            m.as_int() == max_unsigned(N as nat),
    {
        let width = T::bit_width();
        proof {
            T::lemma_storage(T::ONE);
            lemma_pow2_pos(N as nat);
        }
        let top = if N < width as usize {
            proof {
                lemma_pow2_strictly_increases(N as nat, T::bits());
                assert(1 * pow2(N as nat) == pow2(N as nat));
                lemma_wrap_unsigned_fits(pow2(N as nat) as int, T::bits());
            }
            T::ONE.shift_left(N as u32)
        } else {
            T::ZERO
        };
        proof {
            if N < width as usize {
                lemma_wrap_unsigned_fits(pow2(N as nat) - 1, T::bits());
            } else {
                lemma_wrap_unsigned_offset(-1, -1, T::bits());
            }
        }
        top.wrapping_sub(T::ONE)
    }

    /// The canonical value of the same integer: the bits of the storage above
    /// the low `N` are cleared. A canonical value comes back as it is.
    pub fn mask(self) -> (r: Self)
        ensures
            r == self.spec_mask(),
            r.is_canonical(),
            r@ == self@,
            r.storage().as_int() == self@,
            self.is_canonical() ==> r == self,
    {
        proof {
            use_type_invariant(self);
        }
        let r = Self(self.0.bit_and(Self::low_bits()));
        proof {
            T::lemma_storage(self.0);
            T::lemma_storage(r.0);
            lemma_pow2_split(N as nat, T::bits());
            lemma_pow2_split(T::bits(), 128);
            crate::math::lemma_pow2_widths();
            lemma_low_mask_value(N as nat);
            lemma_low_mask_is_mod(self.0.as_int() as u128, N as nat);
            lemma_wrap_unsigned_fits(self@, N as nat);
            lemma_wrap_unsigned_fits(self.0.as_int(), N as nat);
        }
        r
    }

    /// Addition modulo `2^N`: never fails.
    pub fn wrapping_add(self, rhs: Self) -> (r: Self)
        ensures
            r == self.spec_wrapping_add(rhs),
            r.is_canonical(),
            r@ == wrap_unsigned(self@ + rhs@, N as nat),
    {
        proof {
            use_type_invariant(self);
            lemma_wrap_unsigned_narrow(self.0.as_int() + rhs.0.as_int(), N as nat, T::bits());
            lemma_wrap_unsigned_add_sub(self.0.as_int(), rhs.0.as_int(), N as nat);
        }
        Self(self.0.wrapping_add(rhs.0)).mask()
    }

    /// Subtraction modulo `2^N`: never fails.
    pub fn wrapping_sub(self, rhs: Self) -> (r: Self)
        ensures
            r == self.spec_wrapping_sub(rhs),
            r.is_canonical(),
            r@ == wrap_unsigned(self@ - rhs@, N as nat),
    {
        proof {
            use_type_invariant(self);
            lemma_wrap_unsigned_narrow(self.0.as_int() - rhs.0.as_int(), N as nat, T::bits());
            lemma_wrap_unsigned_add_sub(self.0.as_int(), rhs.0.as_int(), N as nat);
        }
        Self(self.0.wrapping_sub(rhs.0)).mask()
    }

    /// The sum where it does not pass the largest value, and none where it
    /// does. The bounds are those of `N` bits, not those of the storage.
    pub fn checked_add(self, rhs: Self) -> (r: Option<Self>)
        ensures
            r == self.spec_checked_add(rhs),
            r matches Some(x) ==> x.is_canonical() && x@ == self@ + rhs@,
    {
        proof {
            use_type_invariant(self);
            Self::lemma_view_fits(self);
            Self::lemma_view_fits(rhs);
            lemma_pow2_split(N as nat, T::bits());
            lemma_wrap_unsigned_fits(Self::spec_max() - rhs@, T::bits());
            lemma_wrap_unsigned_fits(self@ + rhs@, N as nat);
        }
        let room = Self::low_bits().wrapping_sub(rhs.mask().0);
        if room.less_than(self.mask().0) {
            None
        } else {
            Some(self.wrapping_add(rhs))
        }
    }

    /// The difference where it does not pass below the smallest value, and
    /// none where it does.
    pub fn checked_sub(self, rhs: Self) -> (r: Option<Self>)
        ensures
            r == self.spec_checked_sub(rhs),
            r matches Some(x) ==> x.is_canonical() && x@ == self@ - rhs@,
    {
        proof {
            Self::lemma_view_fits(self);
            Self::lemma_view_fits(rhs);
            lemma_wrap_unsigned_fits(self@ - rhs@, N as nat);
        }
        if self.mask().0.less_than(rhs.mask().0) {
            None
        } else {
            Some(self.wrapping_sub(rhs))
        }
    }

    /// The integer as a native one: the storage word with its high bits
    /// clear.
    pub fn into_native(self) -> (r: T)
        ensures
            r == self.spec_into_native(),
            r.as_int() == self@,
    {
        let r = self.mask().0;
        proof {
            T::lemma_storage(r);
        }
        r
    }
}

} // verus!
