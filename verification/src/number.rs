//! Coordinate values as they are written in path data.

use vstd::prelude::*;

verus! {

/// A single-precision value, kept by its IEEE-754 bit pattern.
///
/// Two numbers are equal when their bit patterns are equal, so `+0` and `-0`
/// are different numbers here although both are zero.
#[derive(Clone, Copy, Debug, PartialEq, Eq, Structural)]
pub struct Number {
    pub bits: u32,
}

/// A pair of coordinates, or of radii.
#[derive(Clone, Copy, Debug, PartialEq, Eq, Structural)]
pub struct Pair {
    pub x: Number,
    pub y: Number,
}

/// The bit pattern of negative zero: the sign bit alone.
pub const NEGATIVE_ZERO: u32 = 0x8000_0000;

impl Number {
    /// Whether the value is zero, of either sign.
    pub open spec fn zero(self) -> bool {
        self.bits == 0 || self.bits == NEGATIVE_ZERO
    }

    /// The number with the given bit pattern.
    pub fn from_bits(bits: u32) -> (number: Number)
        ensures
            number.bits == bits,
    {
        Number { bits }
    }

    /// The bit pattern of the number.
    pub fn to_bits(self) -> (bits: u32)
        ensures
            bits == self.bits,
    {
        self.bits
    }

    /// Whether the value is zero: every bit but the sign bit is clear.
    pub fn is_zero(self) -> (zero: bool)
        ensures
            zero == self.zero(),
    {
        self.bits == 0 || self.bits == NEGATIVE_ZERO
    }

    /// Reads the number as a flag: set unless the value is zero.
    pub fn flag(self) -> (set: bool)
        ensures
            set == !self.zero(),
    {
        !self.is_zero()
    }
}

impl Pair {
    /// The pair of the two given numbers.
    pub fn new(x: Number, y: Number) -> (pair: Pair)
        ensures
            pair == (Pair { x, y }),
    {
        Pair { x, y }
    }
}

} // verus!
