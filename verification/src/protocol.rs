//! The conversation between the processor and its host.
//!
//! The processor cannot transform a block or add two samples: it asks the host
//! to. Each call hands the processor an [`Event`] and returns an [`Action`],
//! the next operation that the host is to perform. The answer to that
//! operation is the next event. A frame is done when the action is
//! [`Action::Emit`]; the processor then waits for the next frame.
//!
//! Per frame the actions come in this order:
//!
//! | waiting in      | event     | action                      |
//! |-----------------|-----------|-----------------------------|
//! | `Idle`          | `Frame`   | `Forward` (reference block) |
//! | `Reference`     | `Complex` | `Smooth`                    |
//! | `Power`         | `Real`    | `Multiply`                  |
//! | `Product`       | `Complex` | `Inverse`                   |
//! | `Inverse`       | `Complex` | `Normalize`                 |
//! | `Echo`          | `Real`    | `Subtract`                  |
//! | `Residual`      | `Real`    | `Forward` (error block)     |
//! | `ErrorSpectrum` | `Complex` | `Adapt`                     |
//! | `Adaptation`    | `Complex` | `Emit`                      |
//!
//! The echo is estimated with the weights of the frame before, and the
//! weights are adapted last, with the power estimate that this frame's
//! reference has already gone into.

use vstd::prelude::*;
use crate::block::{real_block, real_parts, second_half, zero_block, zero_padded};
use crate::history::{latest, shifted, silence};
use crate::error::AecError;
use crate::sample::{ComplexBits, EPSILON, ONE, SMOOTHING};
use crate::size::{frame_size, valid_fft_size};

verus! {

/// What the processor is waiting for.
#[derive(Clone, Copy, Debug, PartialEq, Eq, Structural)]
pub enum Stage {
    /// The next frame.
    Idle,
    /// The spectrum of the reference block.
    Reference,
    /// The smoothed power estimate.
    Power,
    /// The spectrum of the echo estimate.
    Product,
    /// The inverse transform of that spectrum.
    Inverse,
    /// The echo estimate in the time domain.
    Echo,
    /// The error frame.
    Residual,
    /// The spectrum of the error block.
    ErrorSpectrum,
    /// The adapted weights.
    Adaptation,
}

/// What the host hands to the processor.
#[derive(Debug, PartialEq, Eq)]
pub enum Event {
    /// One frame of far-end samples and one of microphone samples.
    Frame { far: Vec<u32>, mic: Vec<u32> },
    /// The complex block that the last action asked for.
    Complex(Vec<ComplexBits>),
    /// The real samples that the last action asked for.
    Real(Vec<u32>),
}

/// What the processor asks of the host. Index `k` runs over a block.
#[derive(Debug, PartialEq, Eq)]
pub enum Action {
    /// Answer with the unnormalized forward DFT of the block.
    Forward(Vec<ComplexBits>),
    /// Answer with the smoothed power estimate,
    /// `smoothing * psd[k] + (1 - smoothing) * |spectrum[k]|^2`.
    Smooth { psd: Vec<u32>, spectrum: Vec<ComplexBits>, smoothing: u32 },
    /// Answer with the products `weights[k] * spectrum[k]`.
    Multiply { weights: Vec<ComplexBits>, spectrum: Vec<ComplexBits> },
    /// Answer with the unnormalized inverse DFT of the block.
    Inverse(Vec<ComplexBits>),
    /// Answer with `signal[k] / fft_size`.
    Normalize { signal: Vec<u32>, fft_size: usize },
    /// Answer with `mic[i] - echo[i]`.
    Subtract { mic: Vec<u32>, echo: Vec<u32> },
    /// Answer with the adapted weights, `weights[k] + step_size *
    /// conj(reference[k]) * error[k] / (psd[k] + regularization)`.
    Adapt {
        weights: Vec<ComplexBits>,
        reference: Vec<ComplexBits>,
        error: Vec<ComplexBits>,
        psd: Vec<u32>,
        step_size: u32,
        regularization: u32,
    },
    /// The frame is done: this is the echo-cancelled output.
    Emit(Vec<u32>),
}

/// An [`Event`] in specifications.
pub enum EventView {
    Frame { far: Seq<u32>, mic: Seq<u32> },
    Complex(Seq<ComplexBits>),
    Real(Seq<u32>),
}

/// An [`Action`] in specifications.
pub enum ActionView {
    Forward(Seq<ComplexBits>),
    Smooth { psd: Seq<u32>, spectrum: Seq<ComplexBits>, smoothing: u32 },
    Multiply { weights: Seq<ComplexBits>, spectrum: Seq<ComplexBits> },
    Inverse(Seq<ComplexBits>),
    Normalize { signal: Seq<u32>, fft_size: nat },
    Subtract { mic: Seq<u32>, echo: Seq<u32> },
    Adapt {
        weights: Seq<ComplexBits>,
        reference: Seq<ComplexBits>,
        error: Seq<ComplexBits>,
        psd: Seq<u32>,
        step_size: u32,
        regularization: u32,
    },
    Emit(Seq<u32>),
}

impl View for Event {
    type V = EventView;

    open spec fn view(&self) -> EventView {
        match *self {
            Event::Frame { far, mic } => EventView::Frame { far: far@, mic: mic@ },
            Event::Complex(block) => EventView::Complex(block@),
            Event::Real(samples) => EventView::Real(samples@),
        }
    }
}

impl View for Action {
    type V = ActionView;

    open spec fn view(&self) -> ActionView {
        match *self {
            Action::Forward(block) => ActionView::Forward(block@),
            Action::Smooth { psd, spectrum, smoothing } => ActionView::Smooth {
                psd: psd@,
                spectrum: spectrum@,
                smoothing,
            },
            Action::Multiply { weights, spectrum } => ActionView::Multiply {
                weights: weights@,
                spectrum: spectrum@,
            },
            Action::Inverse(block) => ActionView::Inverse(block@),
            Action::Normalize { signal, fft_size } => ActionView::Normalize {
                signal: signal@,
                fft_size: fft_size as nat,
            },
            Action::Subtract { mic, echo } => ActionView::Subtract { mic: mic@, echo: echo@ },
            Action::Adapt { weights, reference, error, psd, step_size, regularization } => {
                ActionView::Adapt {
                    weights: weights@,
                    reference: reference@,
                    error: error@,
                    psd: psd@,
                    step_size,
                    regularization,
                }
            },
            Action::Emit(frame) => ActionView::Emit(frame@),
        }
    }
}

/// The processor in specifications.
pub struct AecView {
    /// What the processor is waiting for.
    pub stage: Stage,
    /// The filter weights, one per bin.
    pub weights: Seq<ComplexBits>,
    /// The last two frames of far-end samples, oldest first.
    pub history: Seq<u32>,
    /// The smoothed power of the reference, one per bin.
    pub psd: Seq<u32>,
    /// The reference block, then its spectrum.
    pub reference: Seq<ComplexBits>,
    /// The error block, then its spectrum.
    pub error: Seq<ComplexBits>,
    /// The echo estimate in the time domain, a whole block of it.
    pub echo: Seq<u32>,
    /// The microphone frame that is being processed.
    pub mic: Seq<u32>,
    /// The output frame that is being processed.
    pub out: Seq<u32>,
    /// The step size of the weight update.
    pub step_size: u32,
    /// The smoothing factor of the power estimate.
    pub smoothing: u32,
    /// Every far-end sample that was ever accepted, oldest first.
    pub supplied: Seq<u32>,
}

impl AecView {
    /// A processor that has seen no frame: the weights are zero, the history
    /// is silent and the power estimate is one in every bin.
    pub open spec fn initial(n: nat, step_size: u32) -> AecView {
        AecView {
            stage: Stage::Idle,
            weights: zero_block(n),
            history: silence(n),
            psd: Seq::new(n, |k: int| ONE),
            reference: zero_block(n),
            error: zero_block(n),
            echo: silence(n),
            mic: silence(frame_size(n)),
            out: silence(frame_size(n)),
            step_size,
            smoothing: SMOOTHING,
            supplied: Seq::empty(),
        }
    }

    /// What holds of a processor for block length `n` between any two calls:
    /// the block length is valid, every buffer has its length, and the
    /// history holds the last `n` far-end samples that were accepted, behind
    /// silence while fewer have arrived.
    pub open spec fn wf(self, n: nat) -> bool {
        &&& valid_fft_size(n)
        &&& self.weights.len() == n
        &&& self.history.len() == n
        &&& self.psd.len() == n
        &&& self.reference.len() == n
        &&& self.error.len() == n
        &&& self.echo.len() == n
        &&& self.mic.len() == frame_size(n)
        &&& self.out.len() == frame_size(n)
        &&& self.history == latest(self.supplied, n)
    }
}

/// The result of one call: the processor afterwards, and what it returned.
pub struct Step {
    pub state: AecView,
    pub outcome: Result<ActionView, AecError>,
}

/// The kind of event that a stage waits for.
pub open spec fn expects(stage: Stage, event: EventView) -> bool {
    match stage {
        Stage::Idle => event is Frame,
        Stage::Power | Stage::Echo | Stage::Residual => event is Real,
        Stage::Reference
        | Stage::Product
        | Stage::Inverse
        | Stage::ErrorSpectrum
        | Stage::Adaptation => event is Complex,
    }
}

/// The length that a stage asks of the event it waits for: a frame where it
/// waits for a frame or for the error frame, else a block.
pub open spec fn expected_len(stage: Stage, n: nat) -> nat {
    match stage {
        Stage::Idle | Stage::Residual => frame_size(n),
        _ => n,
    }
}

/// Whether what the event carries has the length `len`.
pub open spec fn has_len(event: EventView, len: nat) -> bool {
    match event {
        EventView::Frame { far, mic } => far.len() == len && mic.len() == len,
        EventView::Complex(block) => block.len() == len,
        EventView::Real(samples) => samples.len() == len,
    }
}

/// A call that is refused: nothing changes.
pub open spec fn refused(s: AecView, error: AecError) -> Step {
    Step { state: s, outcome: Err(error) }
}

/// A call that is accepted, for block length `n` and in state `s`, on the
/// event that the stage of `s` waits for: the processor stores what the event
/// carries, lays out the next block, moves to the next stage and asks for the
/// next operation.
pub open spec fn accepted(s: AecView, n: nat, event: EventView) -> Step {
    match s.stage {
        Stage::Idle => {
            let history = shifted(s.history, event->far);
            let block = real_block(history);
            Step {
                state: AecView {
                    stage: Stage::Reference,
                    history,
                    reference: block,
                    mic: event->mic,
                    supplied: s.supplied + event->far,
                    ..s
                },
                outcome: Ok(ActionView::Forward(block)),
            }
        },
        Stage::Reference => {
            let spectrum = event->Complex_0;
            Step {
                state: AecView { stage: Stage::Power, reference: spectrum, ..s },
                outcome: Ok(ActionView::Smooth { psd: s.psd, spectrum, smoothing: s.smoothing }),
            }
        },
        Stage::Power => Step {
            state: AecView { stage: Stage::Product, psd: event->Real_0, ..s },
            outcome: Ok(ActionView::Multiply { weights: s.weights, spectrum: s.reference }),
        },
        Stage::Product => Step {
            state: AecView { stage: Stage::Inverse, ..s },
            outcome: Ok(ActionView::Inverse(event->Complex_0)),
        },
        Stage::Inverse => {
            let signal = real_parts(event->Complex_0);
            Step {
                state: AecView { stage: Stage::Echo, echo: signal, ..s },
                outcome: Ok(ActionView::Normalize { signal, fft_size: n }),
            }
        },
        Stage::Echo => {
            let echo = event->Real_0;
            Step {
                state: AecView { stage: Stage::Residual, echo, ..s },
                outcome: Ok(ActionView::Subtract { mic: s.mic, echo: second_half(echo) }),
            }
        },
        Stage::Residual => {
            let out = event->Real_0;
            let block = zero_padded(out);
            Step {
                state: AecView { stage: Stage::ErrorSpectrum, out, error: block, ..s },
                outcome: Ok(ActionView::Forward(block)),
            }
        },
        Stage::ErrorSpectrum => {
            let spectrum = event->Complex_0;
            Step {
                state: AecView { stage: Stage::Adaptation, error: spectrum, ..s },
                outcome: Ok(
                    ActionView::Adapt {
                        weights: s.weights,
                        reference: s.reference,
                        error: spectrum,
                        psd: s.psd,
                        step_size: s.step_size,
                        regularization: EPSILON,
                    },
                ),
            }
        },
        Stage::Adaptation => Step {
            state: AecView { stage: Stage::Idle, weights: event->Complex_0, ..s },
            outcome: Ok(ActionView::Emit(s.out)),
        },
    }
}

/// One call of the processor for block length `n`, in state `s`, on `event`.
///
/// An event of another kind than the stage waits for is refused as
/// unexpected, one of the right kind but of another length as of invalid
/// size. Every other event is accepted.
pub open spec fn step(s: AecView, n: nat, event: EventView) -> Step {
    if !expects(s.stage, event) {
        refused(s, AecError::UnexpectedEvent)
    } else if !has_len(event, expected_len(s.stage, n)) {
        refused(s, AecError::InvalidFrameSize)
    } else {
        accepted(s, n, event)
    }
}

} // verus!
