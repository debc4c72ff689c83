//! Samples as bit patterns.

use vstd::prelude::*;

verus! {

/// Bit pattern of `+0.0`.
pub const ZERO: u32 = 0x0000_0000;

/// Bit pattern of `1.0`, the seed of every bin of the power estimate.
pub const ONE: u32 = 0x3F80_0000;

/// Bit pattern of `0.98`, the smoothing factor of the power estimate.
pub const SMOOTHING: u32 = 0x3F7A_E148;

/// Bit pattern of `1e-10`, the regularization added to the power estimate
/// before the gradient is divided by it.
pub const EPSILON: u32 = 0x2EDB_E6FF;

/// A complex sample: the bit patterns of its real and imaginary parts.
#[derive(Clone, Copy, Debug, PartialEq, Eq, Structural)]
pub struct ComplexBits {
    pub re: u32,
    pub im: u32,
}

impl ComplexBits {
    /// The complex number `re + 0i`.
    pub open spec fn of_real(re: u32) -> ComplexBits {
        ComplexBits { re, im: ZERO }
    }

    /// The complex number `0 + 0i`.
    pub open spec fn zero() -> ComplexBits {
        ComplexBits { re: ZERO, im: ZERO }
    }

    /// Builds `re + 0i`.
    pub fn from_real(re: u32) -> (c: ComplexBits)
        ensures
            c == ComplexBits::of_real(re),
        no_unwind
    {
        ComplexBits { re, im: ZERO }
    }
}

} // verus!
