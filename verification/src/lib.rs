//! Frequency-domain adaptive filter for acoustic echo cancellation, with the
//! block bookkeeping verified and the arithmetic left to the host.
//!
//! The canceller works on blocks of `N` samples, `N` a power of two, and on
//! frames of `M = N / 2` samples. Every frame runs through a fixed sequence of
//! overlap-save steps: the far-end history is shifted and transformed, its
//! power estimate is smoothed, the echo estimate is formed in the frequency
//! domain and transformed back, the error is formed, zero-padded and
//! transformed, and the weights are adapted. The processor in this crate owns
//! every buffer, fixes that order and lays out every block. The transforms
//! and the sample arithmetic are done by the host, which is asked for one
//! operation at a time.
//!
//! Samples are IEEE-754 binary32 values carried as their bit patterns, so
//! that the processor moves them without ever interpreting them.
//!
//! A host drives the processor like this:
//!
//! ```text
//! let mut action = aec.process(Event::Frame { far, mic })?;
//! loop {
//!     let event = match action {
//!         Action::Emit(out) => return Ok(out),
//!         Action::Forward(block) => Event::Complex(forward_dft(block)),
//!         Action::Inverse(block) => Event::Complex(inverse_dft(block)),
//!         // ... one arm for each operation
//!     };
//!     action = aec.process(event)?;
//! }
//! ```
//!
//! The modules: [`size`] says which block lengths are valid, [`history`] and
//! [`block`] how samples are laid out, [`protocol`] what the processor and
//! the host say to each other and what each call does, [`processor`] holds
//! the processor itself, and [`laws`] what holds of every run.

pub mod block;
pub mod error;
pub mod history;
pub mod laws;
pub mod processor;
pub mod protocol;
pub mod sample;
pub mod size;

pub use error::AecError;
pub use processor::FdafAec;
pub use protocol::{Action, Event, Stage};
pub use sample::{ComplexBits, EPSILON, ONE, SMOOTHING, ZERO};
pub use size::is_valid_fft_size;
