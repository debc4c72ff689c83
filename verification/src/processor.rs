//! The processor: the buffers of the adaptive filter and the order in which
//! a frame runs through them.

use vstd::prelude::*;
use crate::block::{
    copy_second_half, duplicate, fill_real_block, fill_real_parts, fill_zero_padded, filled,
};
use crate::error::AecError;
use crate::history::{History, lemma_latest_of_nothing, lemma_latest_shifted};
use crate::protocol::{Action, ActionView, AecView, Event, Stage, step};
use crate::sample::{ComplexBits, EPSILON, ONE, SMOOTHING, ZERO};
use crate::size::{frame_size, is_valid_fft_size, lemma_valid_fft_size_is_even, valid_fft_size};

verus! {

/// An acoustic echo canceller with block length `FFT_SIZE`: a frequency-domain
/// adaptive filter that estimates by overlap-save what the microphone picks
/// up of the far-end signal, and takes it out.
///
/// The processor holds the state and decides what is computed next; see
/// [`crate::protocol`] for how the host drives it.
pub struct FdafAec<const FFT_SIZE: usize> {
    stage: Stage,
    weights: Vec<ComplexBits>,
    far_end_buffer: History,
    x_t_buffer: Vec<ComplexBits>,
    e_t_buffer: Vec<ComplexBits>,
    y_t: Vec<u32>,
    psd: Vec<u32>,
    mic: Vec<u32>,
    out: Vec<u32>,
    mu: u32,
    smoothing_factor: u32,
}

impl<const FFT_SIZE: usize> View for FdafAec<FFT_SIZE> {
    type V = AecView;

    closed spec fn view(&self) -> AecView {
        AecView {
            stage: self.stage,
            weights: self.weights@,
            history: self.far_end_buffer.samples(),
            psd: self.psd@,
            reference: self.x_t_buffer@,
            error: self.e_t_buffer@,
            echo: self.y_t@,
            mic: self.mic@,
            out: self.out@,
            step_size: self.mu,
            smoothing: self.smoothing_factor,
            supplied: self.far_end_buffer.supplied(),
        }
    }
}

/// What a call returned, in specifications.
pub open spec fn outcome_view(r: Result<Action, AecError>) -> Result<ActionView, AecError> {
    match r {
        Ok(action) => Ok(action@),
        Err(error) => Err(error),
    }
}

impl<const FFT_SIZE: usize> FdafAec<FFT_SIZE> {
    /// The invariant of the processor, see [`AecView::wf`].
    pub open spec fn wf(&self) -> bool {
        self@.wf(FFT_SIZE as nat)
    }

    /// Holds of every processor, at every call.
    #[verifier::type_invariant]
    closed spec fn inv(&self) -> bool {
        self.wf()
    }

    /// Creates a processor with the given step size, the bit pattern of a
    /// binary32 value. It fails where `FFT_SIZE` is not a power of two or is
    /// below two.
    pub fn new(step_size: u32) -> (r: Result<Self, AecError>)
        ensures
            r is Ok <==> valid_fft_size(FFT_SIZE as nat),
            r matches Ok(aec) ==> aec.wf() && aec@ == AecView::initial(
                FFT_SIZE as nat,
                step_size,
            ),
            r matches Err(error) ==> error == AecError::InvalidConfiguration,
    {
        if !is_valid_fft_size(FFT_SIZE) {
            return Err(AecError::InvalidConfiguration);
        }
        let zero = ComplexBits { re: ZERO, im: ZERO };
        let far_end_buffer = History::new(FFT_SIZE);
        let weights = filled(zero, FFT_SIZE);
        let x_t_buffer = filled(zero, FFT_SIZE);
        let e_t_buffer = filled(zero, FFT_SIZE);
        let y_t = filled(ZERO, FFT_SIZE);
        let psd = filled(ONE, FFT_SIZE);
        let mic = filled(ZERO, FFT_SIZE / 2);
        let out = filled(ZERO, FFT_SIZE / 2);
        proof {
            let initial = AecView::initial(FFT_SIZE as nat, step_size);
            assert(weights@ =~= initial.weights);
            assert(psd@ =~= initial.psd);
            assert(x_t_buffer@ =~= initial.reference);
            assert(e_t_buffer@ =~= initial.error);
            assert(y_t@ =~= initial.echo);
            assert(mic@ =~= initial.mic);
            assert(out@ =~= initial.out);
            lemma_latest_of_nothing(FFT_SIZE as nat);
        }
        let aec = FdafAec {
            stage: Stage::Idle,
            weights,
            far_end_buffer,
            x_t_buffer,
            e_t_buffer,
            y_t,
            psd,
            mic,
            out,
            mu: step_size,
            smoothing_factor: SMOOTHING,
        };
        Ok(aec)
    }

    /// Takes the next event and says what the host is to do next.
    ///
    /// A frame starts with [`Event::Frame`] and ends when the action is
    /// [`Action::Emit`], which carries the output frame. In between, every
    /// event is the host's answer to the action before. What the call does
    /// and returns is given by [`step`]. In particular, a frame whose far-end
    /// or microphone part has not the frame length is refused, and an event
    /// that is refused changes nothing.
    pub fn process(&mut self, event: Event) -> (r: Result<Action, AecError>)
        ensures
            final(self).wf(),
            final(self)@ == step(old(self)@, FFT_SIZE as nat, event@).state,
            outcome_view(r) == step(old(self)@, FFT_SIZE as nat, event@).outcome,
            r is Err ==> final(self)@ == old(self)@,
    {
        proof {
            use_type_invariant(&*self);
            lemma_valid_fft_size_is_even(FFT_SIZE as nat);
        }
        let frame_size = FFT_SIZE / 2;
        match self.stage {
            Stage::Idle => match event {
                Event::Frame { far, mic } => {
                    if far.len() != frame_size || mic.len() != frame_size {
                        return Err(AecError::InvalidFrameSize);
                    }
                    proof {
                        lemma_latest_shifted(
                            self.far_end_buffer.supplied(),
                            far@,
                            FFT_SIZE as nat,
                        );
                    }
                    self.far_end_buffer.push(&far);
                    fill_real_block(&mut self.x_t_buffer, self.far_end_buffer.as_vec());
                    self.mic = mic;
                    self.stage = Stage::Reference;
                    Ok(Action::Forward(duplicate(&self.x_t_buffer)))
                },
                _ => Err(AecError::UnexpectedEvent),
            },
            Stage::Reference => match event {
                Event::Complex(spectrum) => {
                    if spectrum.len() != FFT_SIZE {
                        return Err(AecError::InvalidFrameSize);
                    }
                    self.x_t_buffer = spectrum;
                    self.stage = Stage::Power;
                    Ok(
                        Action::Smooth {
                            psd: duplicate(&self.psd),
                            spectrum: duplicate(&self.x_t_buffer),
                            smoothing: self.smoothing_factor,
                        },
                    )
                },
                _ => Err(AecError::UnexpectedEvent),
            },
            Stage::Power => match event {
                Event::Real(psd) => {
                    if psd.len() != FFT_SIZE {
                        return Err(AecError::InvalidFrameSize);
                    }
                    self.psd = psd;
                    self.stage = Stage::Product;
                    Ok(
                        Action::Multiply {
                            weights: duplicate(&self.weights),
                            spectrum: duplicate(&self.x_t_buffer),
                        },
                    )
                },
                _ => Err(AecError::UnexpectedEvent),
            },
            Stage::Product => match event {
                Event::Complex(product) => {
                    if product.len() != FFT_SIZE {
                        return Err(AecError::InvalidFrameSize);
                    }
                    self.stage = Stage::Inverse;
                    Ok(Action::Inverse(product))
                },
                _ => Err(AecError::UnexpectedEvent),
            },
            Stage::Inverse => match event {
                Event::Complex(block) => {
                    if block.len() != FFT_SIZE {
                        return Err(AecError::InvalidFrameSize);
                    }
                    fill_real_parts(&mut self.y_t, &block);
                    self.stage = Stage::Echo;
                    Ok(Action::Normalize { signal: duplicate(&self.y_t), fft_size: FFT_SIZE })
                },
                _ => Err(AecError::UnexpectedEvent),
            },
            Stage::Echo => match event {
                Event::Real(echo) => {
                    if echo.len() != FFT_SIZE {
                        return Err(AecError::InvalidFrameSize);
                    }
                    self.y_t = echo;
                    self.stage = Stage::Residual;
                    Ok(
                        Action::Subtract {
                            mic: duplicate(&self.mic),
                            echo: copy_second_half(&self.y_t),
                        },
                    )
                },
                _ => Err(AecError::UnexpectedEvent),
            },
            Stage::Residual => match event {
                Event::Real(out) => {
                    if out.len() != frame_size {
                        return Err(AecError::InvalidFrameSize);
                    }
                    fill_zero_padded(&mut self.e_t_buffer, &out);
                    self.out = out;
                    self.stage = Stage::ErrorSpectrum;
                    Ok(Action::Forward(duplicate(&self.e_t_buffer)))
                },
                _ => Err(AecError::UnexpectedEvent),
            },
            Stage::ErrorSpectrum => match event {
                Event::Complex(spectrum) => {
                    if spectrum.len() != FFT_SIZE {
                        return Err(AecError::InvalidFrameSize);
                    }
                    self.e_t_buffer = spectrum;
                    self.stage = Stage::Adaptation;
                    Ok(
                        Action::Adapt {
                            weights: duplicate(&self.weights),
                            reference: duplicate(&self.x_t_buffer),
                            error: duplicate(&self.e_t_buffer),
                            psd: duplicate(&self.psd),
                            step_size: self.mu,
                            regularization: EPSILON,
                        },
                    )
                },
                _ => Err(AecError::UnexpectedEvent),
            },
            Stage::Adaptation => match event {
                Event::Complex(weights) => {
                    if weights.len() != FFT_SIZE {
                        return Err(AecError::InvalidFrameSize);
                    }
                    self.weights = weights;
                    self.stage = Stage::Idle;
                    Ok(Action::Emit(duplicate(&self.out)))
                },
                _ => Err(AecError::UnexpectedEvent),
            },
        }
    }

    /// The frame length, half the block length.
    pub fn frame_size() -> (m: usize)
        ensures
            m == frame_size(FFT_SIZE as nat),
    {
        FFT_SIZE / 2
    }

    /// What the processor is waiting for.
    pub fn stage(&self) -> (stage: Stage)
        ensures
            stage == self@.stage,
    {
        self.stage
    }

    /// The filter weights, one per bin.
    pub fn weights(&self) -> (weights: &[ComplexBits])
        ensures
            weights@ == self@.weights,
            weights@.len() == FFT_SIZE,
    {
        proof {
            use_type_invariant(self);
        }
        self.weights.as_slice()
    }

    /// The smoothed power of the reference, one per bin.
    pub fn psd(&self) -> (psd: &[u32])
        ensures
            psd@ == self@.psd,
            psd@.len() == FFT_SIZE,
    {
        proof {
            use_type_invariant(self);
        }
        self.psd.as_slice()
    }

    /// The last two frames of far-end samples, oldest first.
    pub fn far_end_buffer(&self) -> (history: &[u32])
        ensures
            history@ == self@.history,
            history@.len() == FFT_SIZE,
    {
        proof {
            use_type_invariant(self);
        }
        self.far_end_buffer.as_vec().as_slice()
    }

    /// The step size of the weight update.
    pub fn step_size(&self) -> (mu: u32)
        ensures
            mu == self@.step_size,
    {
        self.mu
    }

    /// The smoothing factor of the power estimate.
    pub fn smoothing_factor(&self) -> (alpha: u32)
        ensures
            alpha == self@.smoothing,
    {
        self.smoothing_factor
    }
}

} // verus!
