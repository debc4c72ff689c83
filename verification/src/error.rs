//! Why a call was refused.

use vstd::prelude::*;

verus! {

/// The ways in which the processor refuses a call. A refused call changes
/// nothing.
#[derive(Clone, Copy, Debug, PartialEq, Eq, Structural)]
pub enum AecError {
    /// The block length is not a power of two, or is below two.
    InvalidConfiguration,
    /// A frame or block was handed in whose length is not the one expected.
    InvalidFrameSize,
    /// The event is not the one that the current stage waits for.
    UnexpectedEvent,
}

} // verus!
