//! The way from a storage word into a hasher.
use core::hash::{Hash, Hasher};
use vstd::prelude::*;

verus! {

/// Feeds a storage word to a hasher, through `Hash::hash` of the word's type.
/// Nothing is claimed of the hasher afterwards.
#[verifier::external_body]
pub(crate) fn hash_word<T: Hash, H: Hasher>(word: &T, state: &mut H) {
    word.hash(state)
}

} // verus!
