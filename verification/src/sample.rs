use vstd::prelude::*;

verus! {

/// The word of the sample `+0.0`.
pub const ZERO: u64 = 0;

/// The word of `-0.0`, the least word with the sign bit set.
pub const NEGATIVE_ZERO: u64 = 0x8000_0000_0000_0000;

/// The word of negative infinity; every greater word is a NaN with the sign bit set.
pub const NEGATIVE_INFINITY: u64 = 0xfff0_0000_0000_0000;

/// A complex number, held as the words of its real and imaginary parts.
#[derive(Clone, Copy, PartialEq, Eq, Debug, Hash, Structural)]
pub struct ComplexSample {
    pub re: u64,
    pub im: u64,
}

impl ComplexSample {
    /// The complex number with real part `re` and no imaginary part.
    pub open spec fn from_real(re: u64) -> ComplexSample {
        ComplexSample { re, im: ZERO }
    }

    /// The complex number zero.
    pub open spec fn zero() -> ComplexSample {
        ComplexSample { re: ZERO, im: ZERO }
    }
}

/// Whether `word` is a number below zero, negative zero and negative infinity
/// included. A NaN is never negative, whatever its sign bit.
pub open spec fn is_negative(word: u64) -> bool {
    NEGATIVE_ZERO <= word <= NEGATIVE_INFINITY
}

/// `word` if it is not negative, else the word of zero.
pub open spec fn clamped(word: u64) -> u64 {
    if is_negative(word) {
        ZERO
    } else {
        word
    }
}

/// Replaces a negative number by zero and hands anything else back as it is.
///
/// Applied to a base-10 logarithm this maps every argument in `[0, 1)` to zero,
/// while a NaN logarithm stays a NaN.
pub fn clamp_negative(word: u64) -> (r: u64)
    ensures
        r == clamped(word),
{
    if NEGATIVE_ZERO <= word && word <= NEGATIVE_INFINITY {
        ZERO
    } else {
        word
    }
}

} // verus!
