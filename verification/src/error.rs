//! The error of a conversion that does not fit.
use vstd::prelude::*;

verus! {

/// A native integer did not fit the narrow type it was to become.
#[derive(Debug, Clone, Copy, PartialEq, Eq, Structural)]
pub struct OverflowError;

} // verus!
