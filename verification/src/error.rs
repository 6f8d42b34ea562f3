use vstd::prelude::*;

verus! {

/// Why an operation of this crate was refused.
///
/// Every error is a precondition the caller did not meet; a refused operation
/// leaves the state it was called on untouched.
#[derive(Clone, Copy, PartialEq, Eq, Debug, Hash, Structural)]
pub enum StftError {
    /// The sizes do not satisfy `0 < step_size < window_size <= fft_size`.
    InvalidConfiguration,
    /// Fewer than `window_size` samples are buffered.
    InsufficientSamples,
    /// A buffer handed to the engine does not have the length the engine expects.
    SizeMismatch,
    /// The text names no window type.
    UnrecognizedWindowName,
}

} // verus!
