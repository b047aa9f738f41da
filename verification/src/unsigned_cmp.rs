//! Equality, order and hashing of the unsigned integers: all three see the
//! integer and never the bits of the storage above it.
use crate::hashing::hash_word;
use crate::storage::UnsignedStorage;
use crate::unsigned::Unsigned;
use core::cmp::Ordering;
use core::hash::{Hash, Hasher};
use vstd::prelude::*;
use vstd::std_specs::cmp::PartialOrdSpec;

verus! {

impl<const N: usize, T: UnsignedStorage> vstd::std_specs::cmp::PartialEqSpecImpl
    for Unsigned<N, T>
{
    open spec fn obeys_eq_spec() -> bool {
        true
    }

    /// Two values are equal when they stand for the same integer.
    open spec fn eq_spec(&self, other: &Unsigned<N, T>) -> bool {
        self@ == other@
    }
}

impl<const N: usize, T: UnsignedStorage> PartialEq for Unsigned<N, T> {
    fn eq(&self, other: &Unsigned<N, T>) -> (r: bool) {
        let a = self.mask().storage();
        let b = other.mask().storage();
        proof {
            T::lemma_storage(a);
            T::lemma_storage(b);
        }
        a.equals(b)
    }
}

impl<const N: usize, T: UnsignedStorage> Eq for Unsigned<N, T> {

}

impl<const N: usize, T: UnsignedStorage> vstd::std_specs::cmp::PartialOrdSpecImpl
    for Unsigned<N, T>
{
    open spec fn obeys_partial_cmp_spec() -> bool {
        true
    }

    /// Values are ordered as the integers they stand for.
    open spec fn partial_cmp_spec(&self, other: &Unsigned<N, T>) -> Option<Ordering> {
        if self@ < other@ {
            Some(Ordering::Less)
        } else if self@ == other@ {
            Some(Ordering::Equal)
        } else {
            Some(Ordering::Greater)
        }
    }
}

impl<const N: usize, T: UnsignedStorage> PartialOrd for Unsigned<N, T> {
    fn partial_cmp(&self, other: &Unsigned<N, T>) -> (r: Option<Ordering>) {
        let a = self.mask().storage();
        let b = other.mask().storage();
        if a.less_than(b) {
            Some(Ordering::Less)
        } else if b.less_than(a) {
            Some(Ordering::Greater)
        } else {
            Some(Ordering::Equal)
        }
    }
}

impl<const N: usize, T: UnsignedStorage> Unsigned<N, T> {
    /// The order of two values: that of the integers they stand for.
    pub fn cmp(&self, other: &Unsigned<N, T>) -> (r: Ordering)
        ensures
            Some(r) == self.partial_cmp_spec(other),
    {
        let a = self.mask().storage();
        let b = other.mask().storage();
        if a.less_than(b) {
            Ordering::Less
        } else if b.less_than(a) {
            Ordering::Greater
        } else {
            Ordering::Equal
        }
    }
}

impl<const N: usize, T: UnsignedStorage + Hash> Hash for Unsigned<N, T> {
    /// Hashes the canonical storage word, so that equal values hash alike.
    fn hash<H: Hasher>(&self, state: &mut H) {
        let word = self.mask().storage();
        hash_word(&word, state)
    }
}

} // verus!
