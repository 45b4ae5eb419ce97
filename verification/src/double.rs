//! 64-bit floating-point numbers, carried as their bit patterns.
use vstd::prelude::*;

verus! {

/// The bit pattern of the number one.
pub const ONE_BITS: u64 = 0x3ff0_0000_0000_0000;

/// The bit pattern of positive infinity: above it, without the sign, lie the
/// patterns that stand for no number.
pub const INFINITY_BITS: u64 = 0x7ff0_0000_0000_0000;

/// The bit that marks a negative number.
pub const SIGN_BIT: u64 = 0x8000_0000_0000_0000;

/// A 64-bit float in the IEEE 754 binary interchange format.
///
/// The library carries and compares such numbers but never computes with them.
#[derive(Debug, Clone, Copy)]
pub struct Double {
    /// The bit pattern, as `f64::to_bits` gives it.
    pub bits: u64,
}

impl Double {
    /// The bit pattern without the sign.
    pub open spec fn magnitude(self) -> int {
        self.bits as int % 0x8000_0000_0000_0000
    }

    /// Whether this is no number.
    pub open spec fn is_nan_spec(self) -> bool {
        self.magnitude() > 0x7ff0_0000_0000_0000
    }

    /// Whether this is zero, of either sign.
    pub open spec fn is_zero_spec(self) -> bool {
        self.magnitude() == 0
    }

    /// Equality of floats: no number equals nothing, and the two zeros are
    /// equal.
    pub open spec fn same_number(self, other: Double) -> bool {
        &&& !self.is_nan_spec()
        &&& !other.is_nan_spec()
        &&& self.bits == other.bits || (self.is_zero_spec() && other.is_zero_spec())
    }

    /// The larger of this and one; one where this is no number.
    ///
    /// The patterns of positive numbers are ordered as the numbers are.
    pub open spec fn at_least_one_spec(self) -> Double {
        if self.is_nan_spec() || self.bits >= 0x8000_0000_0000_0000 || self.bits < ONE_BITS {
            Double { bits: ONE_BITS }
        } else {
            self
        }
    }

    /// The float with this bit pattern.
    pub fn from_bits(bits: u64) -> (d: Double)
        ensures
            d.bits == bits,
    {
        Double { bits }
    }

    /// The bit pattern of this float.
    pub fn to_bits(&self) -> (bits: u64)
        ensures
            bits == self.bits,
    {
        self.bits
    }

    /// Whether this is no number.
    pub fn is_nan(&self) -> (r: bool)
        ensures
            r == self.is_nan_spec(),
    {
        self.bits % SIGN_BIT > INFINITY_BITS
    }

    /// The larger of this and one; one where this is no number.
    pub fn at_least_one(self) -> (d: Double)
        ensures
            d == self.at_least_one_spec(),
    {
        if self.is_nan() || self.bits >= SIGN_BIT || self.bits < ONE_BITS {
            Double { bits: ONE_BITS }
        } else {
            self
        }
    }
}

impl PartialEq for Double {
    fn eq(&self, other: &Double) -> (r: bool) {
        !self.is_nan() && !other.is_nan() && (self.bits == other.bits || (self.bits % SIGN_BIT == 0
            && other.bits % SIGN_BIT == 0))
    }
}

impl vstd::std_specs::cmp::PartialEqSpecImpl for Double {
    open spec fn obeys_eq_spec() -> bool {
        true
    }

    open spec fn eq_spec(&self, other: &Double) -> bool {
        self.same_number(*other)
    }
}

} // verus!
