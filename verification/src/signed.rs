//! Signed integers of a chosen number of bits, in two's complement.
use crate::bits::{lemma_full_mask, lemma_sign_extend_is_wrap};
use crate::math::{
    fits_signed,
    lemma_pow2_double,
    lemma_pow2_split,
    lemma_pow2_widths,
    lemma_wrap_signed_add_sub,
    lemma_wrap_signed_fits,
    lemma_wrap_signed_id,
    lemma_wrap_signed_narrow,
    max_signed,
    min_signed,
    wrap_signed,
};
use crate::storage::SignedStorage;
use vstd::arithmetic::power2::{lemma_pow2_pos, pow2};
use vstd::prelude::*;

verus! {

/// A signed integer of `BITS` bits, kept in a storage word of type `T`.
///
/// The integer is the low `BITS` bits of the storage word, read in two's
/// complement. A value is canonical when the other bits of the word repeat
/// the sign, bit `BITS - 1`, so that the word itself holds the integer. Only
/// [`Signed::new_unchecked`] makes values that are not, and every operation
/// reads its operands through [`Signed::mask`], so the bits above never reach
/// a result.
///
/// The width is at least 1 and at most the width of the storage word: no
/// value of another width exists.
#[derive(Debug, Copy)]
pub struct Signed<const BITS: usize, T: SignedStorage>(T);

impl<const N: usize, T: SignedStorage> View for Signed<N, T> {
    type V = int;

    /// The integer that the value stands for: the low `N` bits of its storage
    /// in two's complement.
    open spec fn view(&self) -> int {
        wrap_signed(self.storage().as_int(), N as nat)
    }
}

impl<const N: usize, T: SignedStorage> Clone for Signed<N, T> {
    fn clone(&self) -> (r: Self)
        ensures
            r == *self,
    {
        *self
    }
}

impl<const N: usize, T: SignedStorage> Signed<N, T> {
    /// Whether `N` is a width that the storage can hold.
    pub open spec fn valid_width() -> bool {
        1 <= N <= T::bits()
    }

    /// Every value has a width that its storage can hold.
    #[verifier::type_invariant]
    pub open spec fn has_valid_width(self) -> bool {
        Self::valid_width()
    }

    /// The storage word, with whatever its high bits hold.
    pub closed spec fn spec_storage(self) -> T {
        self.0
    }

    /// The value with the storage word `value`.
    pub closed spec fn from_storage(value: T) -> Self {
        Signed(value)
    }

    /// The canonical value that stands for `v`.
    pub open spec fn canonical(v: int) -> Self {
        Self::from_storage(T::from_int(v))
    }

    /// Whether the bits of the storage above the low `N` repeat the sign.
    pub open spec fn is_canonical(self) -> bool {
        fits_signed(self.storage().as_int(), N as nat)
    }

    /// The largest integer of `N` bits: `2^(N-1) - 1`.
    pub open spec fn spec_max() -> int {
        max_signed(N as nat)
    }

    /// The smallest integer of `N` bits: `-2^(N-1)`.
    pub open spec fn spec_min() -> int {
        min_signed(N as nat)
    }

    /// What [`Signed::mask`] returns.
    pub open spec fn spec_mask(self) -> Self {
        Self::canonical(self@)
    }

    /// What [`Signed::wrapping_add`] returns.
    pub open spec fn spec_wrapping_add(self, rhs: Self) -> Self {
        Self::canonical(wrap_signed(self@ + rhs@, N as nat))
    }

    /// What [`Signed::wrapping_sub`] returns.
    pub open spec fn spec_wrapping_sub(self, rhs: Self) -> Self {
        Self::canonical(wrap_signed(self@ - rhs@, N as nat))
    }

    /// What [`Signed::checked_add`] returns.
    pub open spec fn spec_checked_add(self, rhs: Self) -> Option<Self> {
        if fits_signed(self@ + rhs@, N as nat) {
            Some(Self::canonical(self@ + rhs@))
        } else {
            None
        }
    }

    /// What [`Signed::checked_sub`] returns.
    pub open spec fn spec_checked_sub(self, rhs: Self) -> Option<Self> {
        if fits_signed(self@ - rhs@, N as nat) {
            Some(Self::canonical(self@ - rhs@))
        } else {
            None
        }
    }

    /// What [`Signed::into_native`] returns.
    pub open spec fn spec_into_native(self) -> T {
        T::from_int(self@)
    }

    /// A value is its storage word.
    pub proof fn lemma_from_storage(value: T)
        ensures
            Self::from_storage(value).storage() == value,
    {
    }

    /// A value is the value with its storage word.
    pub proof fn lemma_storage_determines(x: Self)
        ensures
            x == Self::from_storage(x.storage()),
    {
    }

    /// The integer of a value lies within `N` bits, and the integer of a
    /// canonical value is the number in its storage.
    pub proof fn lemma_view_fits(x: Self)
        requires
            Self::valid_width(),
        ensures
            fits_signed(x@, N as nat),
            x.is_canonical() ==> x@ == x.storage().as_int(),
    {
        lemma_wrap_signed_fits(x.storage().as_int(), N as nat);
        if x.is_canonical() {
            lemma_wrap_signed_id(x.storage().as_int(), N as nat);
        }
    }

    /// An integer of `N` bits fits the storage.
    pub proof fn lemma_fits_storage(v: int)
        requires
            Self::valid_width(),
            fits_signed(v, N as nat),
        ensures
            fits_signed(v, T::bits()),
    {
        lemma_pow2_split((N - 1) as nat, (T::bits() - 1) as nat);
    }

    /// The number one fits every storage, which has two bits or more.
    proof fn lemma_one_fits()
        ensures
            fits_signed(1, T::bits()),
            wrap_signed(1, T::bits()) == 1,
    {
        T::lemma_storage(T::ONE);
        lemma_pow2_double((T::bits() - 1) as nat);
        lemma_pow2_pos((T::bits() - 2) as nat);
        lemma_wrap_signed_id(1, T::bits());
    }

    /// The canonical value of an integer of `N` bits holds that integer.
    pub proof fn lemma_canonical(v: int)
        requires
            Self::valid_width(),
            fits_signed(v, N as nat),
        ensures
            Self::canonical(v).storage().as_int() == v,
            Self::canonical(v).is_canonical(),
            Self::canonical(v)@ == v,
    {
        Self::lemma_fits_storage(v);
        T::lemma_from_int(v);
        lemma_wrap_signed_id(v, N as nat);
    }

    /// A canonical value is the canonical value of its integer.
    pub proof fn lemma_canonical_unique(x: Self)
        requires
            Self::valid_width(),
            x.is_canonical(),
        ensures
            x == Self::canonical(x@),
    {
        T::lemma_storage(x.storage());
        lemma_wrap_signed_id(x.storage().as_int(), N as nat);
    }

    /// The storage word, with whatever its high bits hold.
    #[verifier::when_used_as_spec(spec_storage)]
    pub fn storage(self) -> (r: T)
        ensures
            r == self.storage(),
    {
        self.0
    }

    /// Makes a value of the storage word as it is: nothing is checked and
    /// nothing is masked. The value is canonical only if `value` fits `N`
    /// bits.
    pub fn new_unchecked(value: T) -> (r: Self)
        requires
            Self::valid_width(),
        ensures
            r == Self::from_storage(value),
            r.storage() == value,
    {
        Self(value)
    }

    /// Makes the value that stands for `value`, which must fit `N` bits.
    pub fn new(value: T) -> (r: Self)
        requires
            Self::valid_width(),
            fits_signed(value.as_int(), N as nat),
        ensures
            r == Self::from_storage(value),
            r.storage() == value,
            r.is_canonical(),
            r@ == value.as_int(),
    {
        proof {
            lemma_wrap_signed_id(value.as_int(), N as nat);
        }
        Self(value)
    }

    /// Makes the value that stands for `value` where `value` fits `N` bits,
    /// and none where it does not.
    pub fn try_new(value: T) -> (r: Option<Self>)
        requires
            Self::valid_width(),
        ensures
            match r {
                Some(x) => fits_signed(value.as_int(), N as nat) && x == Self::from_storage(value)
                    && x.storage() == value && x.is_canonical() && x@ == value.as_int(),
                None => !fits_signed(value.as_int(), N as nat),
            },
    {
        let max = Self::max_value().0;
        let min = Self::min_value().0;
        if !max.less_than(value) && !value.less_than(min) {
            proof {
                lemma_wrap_signed_id(value.as_int(), N as nat);
            }
            Some(Self(value))
        } else {
            None
        }
    }

    /// Makes the value that stands for the low `N` bits of `value`.
    pub fn truncating_new(value: T) -> (r: Self)
        requires
            Self::valid_width(),
        ensures
            r == Self::canonical(wrap_signed(value.as_int(), N as nat)),
            r.is_canonical(),
            r@ == wrap_signed(value.as_int(), N as nat),
    {
        let num = Self::new_unchecked(value);
        num.mask()
    }

    /// The storage word with bit `N - 1` set alone: one shifted left to the
    /// place of the sign.
    fn sign_bit() -> (p: T)
        requires
            Self::valid_width(),
        ensures
            p.as_int() == wrap_signed(pow2((N - 1) as nat) as int, T::bits()),
            N < T::bits() ==> p.as_int() == pow2((N - 1) as nat),
    {
        proof {
            T::lemma_storage(T::ONE);
            assert(1 * pow2((N - 1) as nat) == pow2((N - 1) as nat));
            if N < T::bits() {
                lemma_pow2_pos((N - 1) as nat);
                lemma_pow2_split((N - 1) as nat, (T::bits() - 2) as nat);
                lemma_pow2_double((T::bits() - 1) as nat);
                lemma_wrap_signed_id(pow2((N - 1) as nat) as int, T::bits());
            }
        }
        T::ONE.shift_left((N - 1) as u32)
    }

    /// The largest value: `2^(N-1) - 1`.
    pub fn max_value() -> (r: Self)
        requires
            Self::valid_width(),
        ensures
            r == Self::canonical(Self::spec_max()),
            r.is_canonical(),
            r@ == Self::spec_max(),
            r.storage().as_int() == Self::spec_max(),
    {
        let r = Self(Self::sign_bit().wrapping_sub(T::ONE));
        proof {
            T::lemma_storage(T::ONE);
            T::lemma_storage(r.0);
            lemma_pow2_pos((N - 1) as nat);
            Self::lemma_one_fits();
            lemma_wrap_signed_add_sub(pow2((N - 1) as nat) as int, 1, T::bits());
            Self::lemma_fits_storage(Self::spec_max());
            lemma_wrap_signed_id(Self::spec_max(), T::bits());
            lemma_wrap_signed_id(Self::spec_max(), N as nat);
        }
        r
    }

    /// The smallest value: `-2^(N-1)`, the complement of the largest.
    pub fn min_value() -> (r: Self)
        requires
            Self::valid_width(),
        ensures
            r == Self::canonical(Self::spec_min()),
            r.is_canonical(),
            r@ == Self::spec_min(),
            r.storage().as_int() == Self::spec_min(),
    {
        let r = Self(Self::max_value().0.bit_not());
        proof {
            T::lemma_storage(r.0);
            lemma_pow2_pos((N - 1) as nat);
            lemma_wrap_signed_id(Self::spec_min(), N as nat);
        }
        r
    }

    /// The storage word whose low `N` bits are set and whose other bits are
    /// clear. One shifted left by the width overflows to zero where the
    /// width is that of the storage, and zero less one wraps around to a word
    /// of ones.
    fn low_bits() -> (m: T)
        requires
            Self::valid_width(),
        ensures
            m.as_int() == if N < T::bits() {
                pow2(N as nat) - 1
            } else {
                -1
            },
    {
        let width = T::bit_width();
        proof {
            T::lemma_storage(T::ONE);
            lemma_pow2_pos(N as nat);
            Self::lemma_one_fits();
        }
        let top = if N < width as usize {
            proof {
                assert(1 * pow2(N as nat) == pow2(N as nat));
            }
            T::ONE.shift_left(N as u32)
        } else {
            T::ZERO
        };
        proof {
            if N < width as usize {
                lemma_wrap_signed_add_sub(pow2(N as nat) as int, 1, T::bits());
                lemma_pow2_split(N as nat, (T::bits() - 1) as nat);
                lemma_wrap_signed_id(pow2(N as nat) - 1, T::bits());
            } else {
                lemma_pow2_pos((T::bits() - 1) as nat);
                lemma_wrap_signed_id(-1, T::bits());
            }
        }
        top.wrapping_sub(T::ONE)
    }

    /// The canonical value of the same integer: the bits of the storage above
    /// the low `N` are cleared where bit `N - 1` is clear, and set where it
    /// is set. A canonical value comes back as it is.
    pub fn mask(self) -> (r: Self)
        ensures
            r == self.spec_mask(),
            r.is_canonical(),
            r@ == self@,
            r.storage().as_int() == self@,
            self.is_canonical() ==> r == self,
    {
        proof {
            use_type_invariant(self);
            T::lemma_storage(self.0);
            T::lemma_storage(T::ZERO);
            lemma_pow2_widths();
            lemma_pow2_split((T::bits() - 1) as nat, 127);
        }
        let ghost word = self.0.as_int() as i128;
        let low = Self::low_bits();
        let sign = Self::sign_bit();
        let test = self.0.bit_and(sign);
        proof {
            T::lemma_storage(test);
            T::lemma_storage(low);
            T::lemma_storage(sign);
            if N < T::bits() {
                lemma_sign_extend_is_wrap(word, N as nat);
                lemma_pow2_split(N as nat, (T::bits() - 1) as nat);
            } else {
                lemma_full_mask(word);
                lemma_wrap_signed_id(self.0.as_int(), N as nat);
            }
        }
        let r = if test.equals(T::ZERO) {
            Self(self.0.bit_and(low))
        } else {
            Self(self.0.bit_or(low.bit_not()))
        };
        proof {
            T::lemma_storage(r.0);
            lemma_wrap_signed_fits(self.0.as_int(), N as nat);
            lemma_wrap_signed_id(self@, N as nat);
            if self.is_canonical() {
                lemma_wrap_signed_id(self.0.as_int(), N as nat);
            }
        }
        r
    }

    /// Addition modulo `2^N` in two's complement: never fails.
    pub fn wrapping_add(self, rhs: Self) -> (r: Self)
        ensures
            r == self.spec_wrapping_add(rhs),
            r.is_canonical(),
            r@ == wrap_signed(self@ + rhs@, N as nat),
    {
        proof {
            use_type_invariant(self);
            lemma_wrap_signed_narrow(self.0.as_int() + rhs.0.as_int(), N as nat, T::bits());
            lemma_wrap_signed_add_sub(self.0.as_int(), rhs.0.as_int(), N as nat);
        }
        Self(self.0.wrapping_add(rhs.0)).mask()
    }

    /// Subtraction modulo `2^N` in two's complement: never fails.
    pub fn wrapping_sub(self, rhs: Self) -> (r: Self)
        ensures
            r == self.spec_wrapping_sub(rhs),
            r.is_canonical(),
            r@ == wrap_signed(self@ - rhs@, N as nat),
    {
        proof {
            use_type_invariant(self);
            lemma_wrap_signed_narrow(self.0.as_int() - rhs.0.as_int(), N as nat, T::bits());
            lemma_wrap_signed_add_sub(self.0.as_int(), rhs.0.as_int(), N as nat);
        }
        Self(self.0.wrapping_sub(rhs.0)).mask()
    }

    /// The sum where it lies within `N` bits, and none where it does not.
    /// Two positive operands may pass the largest value and two negative
    /// ones the smallest; the bounds are those of `N` bits, not those of the
    /// storage.
    pub fn checked_add(self, rhs: Self) -> (r: Option<Self>)
        ensures
            r == self.spec_checked_add(rhs),
            r matches Some(x) ==> x.is_canonical() && x@ == self@ + rhs@,
    {
        proof {
            use_type_invariant(self);
            T::lemma_storage(T::ZERO);
            Self::lemma_view_fits(self);
            Self::lemma_view_fits(rhs);
            lemma_pow2_pos((N - 1) as nat);
        }
        let a = self.mask().0;
        let b = rhs.mask().0;
        let fits = if T::ZERO.less_than(a) && T::ZERO.less_than(b) {
            proof {
                Self::lemma_fits_storage(Self::spec_max() - rhs@);
                lemma_wrap_signed_id(Self::spec_max() - rhs@, T::bits());
            }
            !Self::max_value().0.wrapping_sub(b).less_than(a)
        } else if a.less_than(T::ZERO) && b.less_than(T::ZERO) {
            proof {
                Self::lemma_fits_storage(Self::spec_min() - rhs@);
                lemma_wrap_signed_id(Self::spec_min() - rhs@, T::bits());
            }
            !a.less_than(Self::min_value().0.wrapping_sub(b))
        } else {
            true
        };
        if fits {
            proof {
                lemma_wrap_signed_id(self@ + rhs@, N as nat);
            }
            Some(self.wrapping_add(rhs))
        } else {
            None
        }
    }

    /// The difference where it lies within `N` bits, and none where it does
    /// not. Less a negative operand it may pass the largest value, and less a
    /// positive one the smallest.
    pub fn checked_sub(self, rhs: Self) -> (r: Option<Self>)
        ensures
            r == self.spec_checked_sub(rhs),
            r matches Some(x) ==> x.is_canonical() && x@ == self@ - rhs@,
    {
        proof {
            use_type_invariant(self);
            T::lemma_storage(T::ZERO);
            Self::lemma_view_fits(self);
            Self::lemma_view_fits(rhs);
            lemma_pow2_pos((N - 1) as nat);
        }
        let a = self.mask().0;
        let b = rhs.mask().0;
        let fits = if b.less_than(T::ZERO) {
            proof {
                Self::lemma_fits_storage(Self::spec_max() + rhs@);
                lemma_wrap_signed_id(Self::spec_max() + rhs@, T::bits());
            }
            !Self::max_value().0.wrapping_add(b).less_than(a)
        } else if T::ZERO.less_than(b) {
            proof {
                Self::lemma_fits_storage(Self::spec_min() + rhs@);
                lemma_wrap_signed_id(Self::spec_min() + rhs@, T::bits());
            }
            !a.less_than(Self::min_value().0.wrapping_add(b))
        } else {
            true
        };
        if fits {
            proof {
                lemma_wrap_signed_id(self@ - rhs@, N as nat);
            }
            Some(self.wrapping_sub(rhs))
        } else {
            None
        }
    }

    /// The integer as a native one: the storage word with its high bits
    /// repeating the sign.
    pub fn into_native(self) -> (r: T)
        ensures
            r == self.spec_into_native(),
            r.as_int() == self@,
    {
        let r = self.mask().0;
        proof {
            T::lemma_storage(r);
        }
        r
    }
}

} // verus!
