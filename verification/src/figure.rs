//! Figures: the numbers of a quote, held as binary64 bit patterns.
//!
//! A figure is carried as the 64 bits of its IEEE 754 double precision
//! encoding. Bit 63 is the sign and the low 63 bits are the magnitude. Among
//! the patterns that encode numbers, a larger magnitude encodes a number
//! further from zero, so every comparison the scanner makes can be decided on
//! integers. A magnitude above that of the infinities encodes no number.

use vstd::prelude::*;

verus! {

/// The sign bit of a pattern.
pub const SIGN_BIT: u64 = 0x8000_0000_0000_0000;

/// The magnitude of the two infinities, the largest that encodes a number.
pub const INFINITY_MAGNITUDE: u64 = 0x7ff0_0000_0000_0000;

/// One number of a quote, as its bit pattern.
#[derive(Clone, Copy, Debug, PartialEq, Eq, Structural)]
pub struct Figure {
    pub bits: u64,
}

impl Figure {
    /// The pattern without its sign bit.
    pub open spec fn spec_magnitude(&self) -> int {
        if self.bits >= SIGN_BIT {
            self.bits - SIGN_BIT
        } else {
            self.bits as int
        }
    }

    /// Whether the sign bit is set.
    pub open spec fn spec_sign(&self) -> bool {
        self.bits >= SIGN_BIT
    }

    /// Whether the pattern encodes no number.
    pub open spec fn spec_is_nan(&self) -> bool {
        self.spec_magnitude() > INFINITY_MAGNITUDE
    }

    /// The signed magnitude. Numbers compare as their ranks do, and both
    /// zeros have rank 0.
    pub open spec fn spec_rank(&self) -> int {
        if self.spec_sign() {
            -self.spec_magnitude()
        } else {
            self.spec_magnitude()
        }
    }

    /// Whether the figure is a number equal to zero.
    pub open spec fn spec_is_zero(&self) -> bool {
        self.spec_magnitude() == 0
    }

    /// Whether the figure is a number above zero.
    pub open spec fn spec_is_positive(&self) -> bool {
        !self.spec_is_nan() && self.spec_rank() > 0
    }

    /// Whether the figure is a number below zero.
    pub open spec fn spec_is_negative(&self) -> bool {
        !self.spec_is_nan() && self.spec_rank() < 0
    }

    /// Whether the absolute value of the figure is at least `floor`. As with
    /// every comparison of binary64 values, it fails when either side is not
    /// a number.
    pub open spec fn spec_abs_at_least(&self, floor: Figure) -> bool {
        !self.spec_is_nan() && !floor.spec_is_nan() && self.spec_magnitude() >= floor.spec_rank()
    }

    /// The figure with the given bit pattern.
    pub fn from_bits(bits: u64) -> (figure: Figure)
        ensures
            figure.bits == bits,
    {
        Figure { bits }
    }

    /// The bit pattern of the figure.
    pub fn to_bits(&self) -> (bits: u64)
        ensures
            bits == self.bits,
    {
        self.bits
    }

    /// Positive zero.
    pub fn zero() -> (figure: Figure)
        ensures
            figure.bits == 0,
            figure.spec_is_zero(),
    {
        Figure { bits: 0 }
    }

    /// Whether the sign bit is set.
    #[verifier::when_used_as_spec(spec_sign)]
    pub fn sign(&self) -> (set: bool)
        ensures
            set == self.spec_sign(),
    {
        self.bits >= SIGN_BIT
    }

    /// The pattern without its sign bit.
    pub fn magnitude(&self) -> (magnitude: u64)
        ensures
            magnitude == self.spec_magnitude(),
            magnitude < SIGN_BIT,
    {
        if self.bits >= SIGN_BIT {
            self.bits - SIGN_BIT
        } else {
            self.bits
        }
    }

    /// The signed magnitude of the figure.
    pub fn rank(&self) -> (rank: i64)
        ensures
            rank == self.spec_rank(),
    {
        let magnitude = self.magnitude();
        if self.sign() {
            -(magnitude as i64)
        } else {
            magnitude as i64
        }
    }

    /// Whether the pattern encodes no number.
    #[verifier::when_used_as_spec(spec_is_nan)]
    pub fn is_nan(&self) -> (nan: bool)
        ensures
            nan == self.spec_is_nan(),
    {
        self.magnitude() > INFINITY_MAGNITUDE
    }

    /// Whether the figure is a number equal to zero.
    #[verifier::when_used_as_spec(spec_is_zero)]
    pub fn is_zero(&self) -> (zero: bool)
        ensures
            zero == self.spec_is_zero(),
    {
        self.magnitude() == 0
    }

    /// Whether the figure is a number above zero.
    #[verifier::when_used_as_spec(spec_is_positive)]
    pub fn is_positive(&self) -> (positive: bool)
        ensures
            positive == self.spec_is_positive(),
    {
        !self.is_nan() && !self.sign() && self.magnitude() > 0
    }

    /// Whether the figure is a number below zero.
    #[verifier::when_used_as_spec(spec_is_negative)]
    pub fn is_negative(&self) -> (negative: bool)
        ensures
            negative == self.spec_is_negative(),
    {
        !self.is_nan() && self.sign() && self.magnitude() > 0
    }

    /// Whether the absolute value of the figure is at least `floor`.
    #[verifier::when_used_as_spec(spec_abs_at_least)]
    pub fn abs_at_least(&self, floor: Figure) -> (reached: bool)
        ensures
            reached == self.spec_abs_at_least(floor),
    {
        if self.is_nan() || floor.is_nan() {
            false
        } else if floor.sign() {
            true
        } else {
            self.magnitude() >= floor.magnitude()
        }
    }
}

} // verus!
