//! Real-valued physical quantities.

use vstd::prelude::*;

verus! {

/// The bit that holds the sign of a quantity.
pub const SIGN_BIT: u64 = 0x8000_0000_0000_0000;

/// The bit pattern of positive infinity. A magnitude beyond it is not a number.
pub const INFINITY_BITS: u64 = 0x7ff0_0000_0000_0000;

/// A real-valued physical quantity, held as the bit pattern of its IEEE 754
/// binary64 representation. The crate stores such quantities and hands them
/// on; it never calculates with them, so a quantity leaves the crate with
/// exactly the bits it came in with, and no unit is ever converted.
///
/// Two quantities are equal when their bit patterns are.
#[derive(Clone, Copy, Debug, PartialEq, Eq, Structural)]
pub struct Scalar {
    bits: u64,
}

impl Scalar {
    /// The bit pattern of this quantity.
    pub closed spec fn spec_to_bits(self) -> u64 {
        self.bits
    }

    /// The quantity with the given bit pattern.
    pub fn from_bits(bits: u64) -> (q: Scalar)
        ensures
            q.to_bits() == bits,
    {
        Scalar { bits }
    }

    /// The bit pattern of this quantity.
    #[verifier::when_used_as_spec(spec_to_bits)]
    pub fn to_bits(self) -> (bits: u64)
        ensures
            bits == self.spec_to_bits(),
    {
        self.bits
    }

    /// Tells whether the bit pattern stands for no number.
    pub open spec fn spec_is_nan(self) -> bool {
        self.to_bits() % SIGN_BIT > INFINITY_BITS
    }

    /// Tells whether the bit pattern stands for no number.
    #[verifier::when_used_as_spec(spec_is_nan)]
    pub fn is_nan(self) -> (nan: bool)
        ensures
            nan == self.spec_is_nan(),
    {
        self.bits % SIGN_BIT > INFINITY_BITS
    }

    /// Tells whether the quantity is a number greater than zero; positive
    /// infinity counts as one.
    pub open spec fn spec_is_positive(self) -> bool {
        0 < self.to_bits() <= INFINITY_BITS
    }

    /// Tells whether the quantity is a number greater than zero; positive
    /// infinity counts as one.
    #[verifier::when_used_as_spec(spec_is_positive)]
    pub fn is_positive(self) -> (positive: bool)
        ensures
            positive == self.spec_is_positive(),
    {
        0 < self.bits && self.bits <= INFINITY_BITS
    }

    /// Tells whether the quantity is zero, of either sign, or a number greater
    /// than zero.
    pub open spec fn spec_is_non_negative(self) -> bool {
        self.to_bits() <= INFINITY_BITS || self.to_bits() == SIGN_BIT
    }

    /// Tells whether the quantity is zero, of either sign, or a number greater
    /// than zero.
    #[verifier::when_used_as_spec(spec_is_non_negative)]
    pub fn is_non_negative(self) -> (non_negative: bool)
        ensures
            non_negative == self.spec_is_non_negative(),
    {
        self.bits <= INFINITY_BITS || self.bits == SIGN_BIT
    }

    /// What is positive is non-negative, and what is non-negative is a number.
    pub proof fn lemma_signs(self)
        ensures
            self.is_positive() ==> self.is_non_negative(),
            self.is_non_negative() ==> !self.is_nan(),
    {
    }

    /// Quantities with the same bit pattern are the same quantity.
    pub proof fn lemma_bits_determine(a: Scalar, b: Scalar)
        requires
            a.to_bits() == b.to_bits(),
        ensures
            a == b,
    {
    }
}

} // verus!
