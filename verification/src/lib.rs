//! The framing core of a streaming short-time Fourier transform.
//!
//! Samples arrive in chunks of any size and are buffered. Whenever a full
//! window is buffered the engine stages it for the transform: it reads the
//! window without consuming it, pairs it with the window coefficients, lays the
//! windowed samples out as a zero-padded complex buffer and, once the buffer
//! has been transformed, hands out the lower half of the spectrum. Advancing
//! drops one step of samples, so that consecutive windows overlap.
//!
//! A sample is carried as a word: the bit pattern of an IEEE 754 binary64
//! number. The arithmetic on samples (the product with a coefficient, the
//! transform, norm and logarithm) is the caller's; everything else is here.

pub mod engine;
pub mod error;
mod ring;
pub mod sample;
pub mod window;

pub use engine::{StftView, STFT};
pub use error::StftError;
pub use sample::ComplexSample;
pub use window::WindowType;
