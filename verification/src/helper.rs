//! Fixed-width unsigned bit-field types used as operand sub-fields.
//!
//! Construction from a wider value truncates by masking the low bits and
//! never fails. Equality and ordering are by numeric value.

use vstd::prelude::*;

verus! {

/// A 3-bit unsigned field (0..8), built by truncating a byte to its low 3 bits.
#[derive(Clone, Copy, Debug, PartialEq, Eq, PartialOrd, Ord, Structural)]
pub struct U3(pub u8);

impl U3 {
    /// A `U3` is well formed when its value fits in 3 bits.
    pub open spec fn wf(self) -> bool {
        self.0 < 8
    }

    /// The numeric value of the field.
    pub fn value(self) -> (v: u8)
        ensures
            v == self.0,
    {
        self.0
    }
}

impl From<u8> for U3 {
    /// Truncates to the low 3 bits; values 8 and above wrap silently.
    fn from(value: u8) -> (r: Self) {
        U3(value & 7)
    }
}

impl vstd::std_specs::convert::FromSpecImpl<u8> for U3 {
    open spec fn obeys_from_spec() -> bool {
        true
    }

    open spec fn from_spec(v: u8) -> U3 {
        U3(v & 7)
    }
}

/// A 4-bit unsigned field (0..16), built by truncating a byte to its low 4 bits.
#[derive(Clone, Copy, Debug, PartialEq, Eq, PartialOrd, Ord, Structural)]
pub struct U4(pub u8);

impl U4 {
    /// A `U4` is well formed when its value fits in 4 bits.
    pub open spec fn wf(self) -> bool {
        self.0 < 16
    }

    /// The numeric value of the field.
    pub fn value(self) -> (v: u8)
        ensures
            v == self.0,
    {
        self.0
    }
}

impl From<u8> for U4 {
    /// Truncates to the low 4 bits; values 16 and above wrap silently.
    fn from(value: u8) -> (r: Self) {
        U4(value & 15)
    }
}

impl vstd::std_specs::convert::FromSpecImpl<u8> for U4 {
    open spec fn obeys_from_spec() -> bool {
        true
    }

    open spec fn from_spec(v: u8) -> U4 {
        U4(v & 15)
    }
}

} // verus!
