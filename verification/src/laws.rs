//! What holds of every run of the processor.

use vstd::prelude::*;
use crate::block::{real_block, real_parts, second_half, zero_padded};
use crate::error::AecError;
use crate::history::{latest, lemma_latest_of_nothing, lemma_latest_shifted, shifted};
use crate::protocol::{
    ActionView, AecView, EventView, Stage, expected_len, expects, has_len, refused, step,
};
use crate::sample::{ComplexBits, EPSILON};
use crate::size::{frame_size, lemma_valid_fft_size_is_even, valid_fft_size};

verus! {

/// The processor after a sequence of calls, one for each event in turn,
/// whether the call was accepted or refused.
pub open spec fn run(s: AecView, n: nat, events: Seq<EventView>) -> AecView
    decreases events.len(),
{
    if events.len() == 0 {
        s
    } else {
        step(run(s, n, events.drop_last()), n, events.last()).state
    }
}

/// A call is accepted exactly when the event is of the kind that the stage
/// waits for and has the length that the stage asks for. An event of another
/// kind is refused as unexpected, one of another length as of invalid size.
pub proof fn lemma_when_refused(s: AecView, n: nat, event: EventView)
    ensures
        step(s, n, event).outcome is Ok <==> expects(s.stage, event) && has_len(
            event,
            expected_len(s.stage, n),
        ),
        step(s, n, event).outcome == Err::<ActionView, AecError>(AecError::UnexpectedEvent)
            <==> !expects(s.stage, event),
        step(s, n, event).outcome == Err::<ActionView, AecError>(AecError::InvalidFrameSize)
            <==> expects(s.stage, event) && !has_len(event, expected_len(s.stage, n)),
{
}

/// A call that is refused changes nothing. In particular, a frame whose
/// far-end or microphone part has not the frame length leaves the processor
/// as it was.
pub proof fn lemma_refused_changes_nothing(s: AecView, n: nat, event: EventView)
    ensures
        step(s, n, event).outcome is Err ==> step(s, n, event).state == s,
        forall|far: Seq<u32>, mic: Seq<u32>|
            s.stage == Stage::Idle && (far.len() != frame_size(n) || mic.len() != frame_size(n))
                ==> #[trigger] step(s, n, EventView::Frame { far, mic }) == refused(
                s,
                AecError::InvalidFrameSize,
            ),
{
}

/// The stage that follows `stage` in the course of a frame.
pub open spec fn following(stage: Stage) -> Stage {
    match stage {
        Stage::Idle => Stage::Reference,
        Stage::Reference => Stage::Power,
        Stage::Power => Stage::Product,
        Stage::Product => Stage::Inverse,
        Stage::Inverse => Stage::Echo,
        Stage::Echo => Stage::Residual,
        Stage::Residual => Stage::ErrorSpectrum,
        Stage::ErrorSpectrum => Stage::Adaptation,
        Stage::Adaptation => Stage::Idle,
    }
}

/// The stages come in one order: a call that is accepted moves the processor
/// to the stage that follows, and a call that is refused leaves it where it
/// was.
pub proof fn lemma_stages_in_order(s: AecView, n: nat, event: EventView)
    ensures
        step(s, n, event).outcome is Ok ==> step(s, n, event).state.stage == following(s.stage),
        step(s, n, event).outcome is Err ==> step(s, n, event).state.stage == s.stage,
{
}

/// No call breaks the invariant of the processor.
pub proof fn lemma_step_keeps_invariant(s: AecView, n: nat, event: EventView)
    requires
        s.wf(n),
    ensures
        step(s, n, event).state.wf(n),
{
    lemma_valid_fft_size_is_even(n);
    if let EventView::Frame { far, mic } = event {
        if far.len() == frame_size(n) {
            lemma_latest_shifted(s.supplied, far, n);
        }
    }
}

/// After any sequence of calls, the weights, the far-end history and the
/// power estimate have the block length, and the history holds the last far-end
/// samples that were accepted.
pub proof fn lemma_buffer_lengths_never_change(s: AecView, n: nat, events: Seq<EventView>)
    requires
        s.wf(n),
    ensures
        run(s, n, events).wf(n),
        run(s, n, events).weights.len() == n,
        run(s, n, events).history.len() == n,
        run(s, n, events).psd.len() == n,
        run(s, n, events).history == latest(run(s, n, events).supplied, n),
    decreases events.len(),
{
    if events.len() > 0 {
        lemma_buffer_lengths_never_change(s, n, events.drop_last());
        lemma_step_keeps_invariant(run(s, n, events.drop_last()), n, events.last());
    }
}

/// A processor that has seen no frame meets the invariant, so that what holds
/// after any sequence of calls holds of every processor that was ever
/// constructed.
pub proof fn lemma_initial_meets_invariant(n: nat, step_size: u32)
    requires
        valid_fft_size(n),
    ensures
        AecView::initial(n, step_size).wf(n),
{
    lemma_latest_of_nothing(n);
}

/// Each buffer is written at one stage only: the far-end history when a
/// frame arrives, the power estimate when the host has smoothed it, and the
/// weights when the host has adapted them, at the end of the frame.
pub proof fn lemma_who_writes_what(s: AecView, n: nat, event: EventView)
    ensures
        step(s, n, event).state.history != s.history ==> s.stage == Stage::Idle,
        step(s, n, event).state.supplied != s.supplied ==> s.stage == Stage::Idle,
        step(s, n, event).state.psd != s.psd ==> s.stage == Stage::Power,
        step(s, n, event).state.weights != s.weights ==> s.stage == Stage::Adaptation,
{
}

/// The step size and the smoothing factor never change.
pub proof fn lemma_parameters_never_change(s: AecView, n: nat, events: Seq<EventView>)
    ensures
        run(s, n, events).step_size == s.step_size,
        run(s, n, events).smoothing == s.smoothing,
    decreases events.len(),
{
    if events.len() > 0 {
        lemma_parameters_never_change(s, n, events.drop_last());
    }
}

/// The events of one frame, as the host answers them.
pub struct FrameEvents {
    /// The far-end frame.
    pub far: Seq<u32>,
    /// The microphone frame.
    pub mic: Seq<u32>,
    /// The spectrum of the reference block.
    pub reference: Seq<ComplexBits>,
    /// The smoothed power estimate.
    pub psd: Seq<u32>,
    /// The spectrum of the echo estimate.
    pub product: Seq<ComplexBits>,
    /// The inverse transform of that spectrum.
    pub inverse: Seq<ComplexBits>,
    /// The echo estimate in the time domain.
    pub echo: Seq<u32>,
    /// The error frame.
    pub out: Seq<u32>,
    /// The spectrum of the error block.
    pub error: Seq<ComplexBits>,
    /// The adapted weights.
    pub weights: Seq<ComplexBits>,
}

impl FrameEvents {
    /// Whether every answer has the length that its stage asks for.
    pub open spec fn fits(self, n: nat) -> bool {
        &&& self.far.len() == frame_size(n)
        &&& self.mic.len() == frame_size(n)
        &&& self.reference.len() == n
        &&& self.psd.len() == n
        &&& self.product.len() == n
        &&& self.inverse.len() == n
        &&& self.echo.len() == n
        &&& self.out.len() == frame_size(n)
        &&& self.error.len() == n
        &&& self.weights.len() == n
    }

    /// The events in the order in which the processor takes them.
    pub open spec fn in_order(self) -> Seq<EventView> {
        seq![
            EventView::Frame { far: self.far, mic: self.mic },
            EventView::Complex(self.reference),
            EventView::Real(self.psd),
            EventView::Complex(self.product),
            EventView::Complex(self.inverse),
            EventView::Real(self.echo),
            EventView::Real(self.out),
            EventView::Complex(self.error),
            EventView::Complex(self.weights),
        ]
    }
}

/// The action that the `i`-th call of a sequence returns.
pub open spec fn outcome_at(s: AecView, n: nat, events: Seq<EventView>, i: int) -> Result<
    ActionView,
    AecError,
> {
    step(run(s, n, events.take(i)), n, events[i]).outcome
}

/// One frame, from an idle processor to an idle processor.
///
/// The reference block is the history with the new frame shifted in. The
/// power estimate is smoothed before the echo is estimated. The echo is
/// estimated with the weights that the frame began with; the real parts of
/// its inverse transform are normalized, and of the result the second half is
/// subtracted from the microphone frame. The error enters its block behind a
/// frame of zeros. The weights are adapted last, from the weights that the
/// frame began with, both spectra and the power estimate of this frame. The
/// frame that is emitted is the error frame.
pub proof fn lemma_one_frame(s: AecView, n: nat, f: FrameEvents)
    requires
        s.stage == Stage::Idle,
        f.fits(n),
    ensures
        outcome_at(s, n, f.in_order(), 0) == Ok::<ActionView, AecError>(
            ActionView::Forward(real_block(shifted(s.history, f.far))),
        ),
        outcome_at(s, n, f.in_order(), 1) == Ok::<ActionView, AecError>(
            ActionView::Smooth { psd: s.psd, spectrum: f.reference, smoothing: s.smoothing },
        ),
        outcome_at(s, n, f.in_order(), 2) == Ok::<ActionView, AecError>(
            ActionView::Multiply { weights: s.weights, spectrum: f.reference },
        ),
        outcome_at(s, n, f.in_order(), 3) == Ok::<ActionView, AecError>(
            ActionView::Inverse(f.product),
        ),
        outcome_at(s, n, f.in_order(), 4) == Ok::<ActionView, AecError>(
            ActionView::Normalize { signal: real_parts(f.inverse), fft_size: n },
        ),
        outcome_at(s, n, f.in_order(), 5) == Ok::<ActionView, AecError>(
            ActionView::Subtract { mic: f.mic, echo: second_half(f.echo) },
        ),
        outcome_at(s, n, f.in_order(), 6) == Ok::<ActionView, AecError>(
            ActionView::Forward(zero_padded(f.out)),
        ),
        outcome_at(s, n, f.in_order(), 7) == Ok::<ActionView, AecError>(
            ActionView::Adapt {
                weights: s.weights,
                reference: f.reference,
                error: f.error,
                psd: f.psd,
                step_size: s.step_size,
                regularization: EPSILON,
            },
        ),
        outcome_at(s, n, f.in_order(), 8) == Ok::<ActionView, AecError>(ActionView::Emit(f.out)),
        run(s, n, f.in_order()) == (AecView {
            stage: Stage::Idle,
            weights: f.weights,
            history: shifted(s.history, f.far),
            psd: f.psd,
            reference: f.reference,
            error: f.error,
            echo: f.echo,
            mic: f.mic,
            out: f.out,
            supplied: s.supplied + f.far,
            ..s
        }),
{
    let events = f.in_order();
    let s1 = step(s, n, events[0]).state;
    let s2 = step(s1, n, events[1]).state;
    let s3 = step(s2, n, events[2]).state;
    let s4 = step(s3, n, events[3]).state;
    let s5 = step(s4, n, events[4]).state;
    let s6 = step(s5, n, events[5]).state;
    let s7 = step(s6, n, events[6]).state;
    let s8 = step(s7, n, events[7]).state;
    let s9 = step(s8, n, events[8]).state;
    assert(events.take(0) =~= Seq::<EventView>::empty());
    assert(run(s, n, events.take(0)) == s);
    assert(events.take(1).drop_last() =~= events.take(0));
    assert(run(s, n, events.take(1)) == s1);
    assert(events.take(2).drop_last() =~= events.take(1));
    assert(run(s, n, events.take(2)) == s2);
    assert(events.take(3).drop_last() =~= events.take(2));
    assert(run(s, n, events.take(3)) == s3);
    assert(events.take(4).drop_last() =~= events.take(3));
    assert(run(s, n, events.take(4)) == s4);
    assert(events.take(5).drop_last() =~= events.take(4));
    assert(run(s, n, events.take(5)) == s5);
    assert(events.take(6).drop_last() =~= events.take(5));
    assert(run(s, n, events.take(6)) == s6);
    assert(events.take(7).drop_last() =~= events.take(6));
    assert(run(s, n, events.take(7)) == s7);
    assert(events.take(8).drop_last() =~= events.take(7));
    assert(run(s, n, events.take(8)) == s8);
    assert(events.drop_last() =~= events.take(8));
    assert(run(s, n, events) == s9);
}

} // verus!
