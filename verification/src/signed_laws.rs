//! Laws of the signed integers that hold of every width and every storage.
use crate::math::{
    fits_signed,
    lemma_pow2_double,
    lemma_wrap_signed_add_sub,
    lemma_wrap_signed_id,
    lemma_wrap_signed_offset,
    wrap_unsigned,
};
use crate::storage::SignedStorage;
use crate::signed::Signed;
use vstd::prelude::*;
use vstd::std_specs::cmp::PartialEqSpec;
use vstd::std_specs::ops::NotSpec;

verus! {

impl<const N: usize, T: SignedStorage> Signed<N, T> {
    /// Masking leaves a canonical value as it is.
    pub proof fn lemma_mask_keeps_canonical(x: Self)
        requires
            Self::valid_width(),
            x.is_canonical(),
        ensures
            x.spec_mask() == x,
    {
        Self::lemma_canonical_unique(x);
    }

    /// Masking what was masked changes nothing.
    pub proof fn lemma_mask_idempotent(x: Self)
        requires
            Self::valid_width(),
        ensures
            x.spec_mask().spec_mask() == x.spec_mask(),
    {
        Self::lemma_view_fits(x);
        Self::lemma_canonical(x@);
    }

    /// One more than the largest value wraps around to the smallest. The one
    /// is the storage word `1`, which at a width of one bit stands for `-1`.
    pub proof fn lemma_max_wraps_to_min()
        requires
            Self::valid_width(),
        ensures
            Self::canonical(Self::spec_max()).spec_wrapping_add(Self::from_storage(T::ONE))
                == Self::canonical(Self::spec_min()),
    {
        let one = Self::from_storage(T::ONE);
        T::lemma_storage(T::ONE);
        Self::lemma_from_storage(T::ONE);
        lemma_pow2_double(N as nat);
        Self::lemma_canonical(Self::spec_max());
        lemma_wrap_signed_id(Self::spec_max(), N as nat);
        lemma_wrap_signed_add_sub(Self::spec_max(), 1, N as nat);
        lemma_wrap_signed_offset(Self::spec_max() + 1, 1, N as nat);
    }

    /// A native integer that fits `N` bits comes back unchanged from the
    /// value made of it.
    pub proof fn lemma_round_trip(value: T)
        requires
            Self::valid_width(),
            fits_signed(value.as_int(), N as nat),
        ensures
            Self::from_storage(value).spec_into_native() == value,
    {
        Self::lemma_from_storage(value);
        T::lemma_storage(value);
        lemma_wrap_signed_id(value.as_int(), N as nat);
    }

    /// The complement of the complement of a canonical value is the value.
    pub proof fn lemma_not_involution(x: Self)
        requires
            Self::valid_width(),
            x.is_canonical(),
        ensures
            x.not_spec().not_spec() == x,
    {
        Self::lemma_view_fits(x);
        Self::lemma_canonical(-1 - x@);
        Self::lemma_canonical_unique(x);
    }

    /// Two values whose storage words agree in the low `N` bits are equal,
    /// and have one canonical form, whatever the bits above hold.
    pub proof fn lemma_eq_ignores_high_bits(a: Self, b: Self)
        requires
            wrap_unsigned(a.storage().as_int(), N as nat) == wrap_unsigned(
                b.storage().as_int(),
                N as nat,
            ),
        ensures
            a.eq_spec(&b),
            a.spec_mask() == b.spec_mask(),
            a.spec_mask().storage() == b.spec_mask().storage(),
    {
    }
}

} // verus!
