//! The integers that a shift takes as its right-hand side.
use vstd::prelude::*;

verus! {

/// An integer that says by how many bits to shift.
pub trait ShiftAmount: Copy {
    /// The number of bits to shift by.
    spec fn amount(self) -> int;

    /// The number of bits to shift by, as the native shifts take it.
    fn to_u32(self) -> (k: u32)
        requires
            0 <= self.amount() <= u32::MAX,
        ensures
            k == self.amount(),
    ;
}

impl ShiftAmount for u8 {
    open spec fn amount(self) -> int {
        self as int
    }

    fn to_u32(self) -> (k: u32) {
        self as u32
    }
}

impl ShiftAmount for u16 {
    open spec fn amount(self) -> int {
        self as int
    }

    fn to_u32(self) -> (k: u32) {
        self as u32
    }
}

impl ShiftAmount for u32 {
    open spec fn amount(self) -> int {
        self as int
    }

    fn to_u32(self) -> (k: u32) {
        self
    }
}

impl ShiftAmount for u64 {
    open spec fn amount(self) -> int {
        self as int
    }

    fn to_u32(self) -> (k: u32) {
        self as u32
    }
}

impl ShiftAmount for u128 {
    open spec fn amount(self) -> int {
        self as int
    }

    fn to_u32(self) -> (k: u32) {
        self as u32
    }
}

impl ShiftAmount for usize {
    open spec fn amount(self) -> int {
        self as int
    }

    fn to_u32(self) -> (k: u32) {
        self as u32
    }
}

impl ShiftAmount for i8 {
    open spec fn amount(self) -> int {
        self as int
    }

    fn to_u32(self) -> (k: u32) {
        self as u32
    }
}

impl ShiftAmount for i16 {
    open spec fn amount(self) -> int {
        self as int
    }

    fn to_u32(self) -> (k: u32) {
        self as u32
    }
}

impl ShiftAmount for i32 {
    open spec fn amount(self) -> int {
        self as int
    }

    fn to_u32(self) -> (k: u32) {
        self as u32
    }
}

impl ShiftAmount for i64 {
    open spec fn amount(self) -> int {
        self as int
    }

    fn to_u32(self) -> (k: u32) {
        self as u32
    }
}

impl ShiftAmount for i128 {
    open spec fn amount(self) -> int {
        self as int
    }

    fn to_u32(self) -> (k: u32) {
        self as u32
    }
}

impl ShiftAmount for isize {
    open spec fn amount(self) -> int {
        self as int
    }

    fn to_u32(self) -> (k: u32) {
        self as u32
    }
}

} // verus!
