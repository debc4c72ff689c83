use fdaf_aec::{Action, AecError, ComplexBits, Event, FdafAec, Stage, EPSILON, SMOOTHING};

fn c(re: u32, im: u32) -> ComplexBits {
    ComplexBits { re, im }
}

#[test]
#[should_panic]
fn test_process_with_wrong_frame_size() {
    let mut aec = FdafAec::<512>::new(0.5f32.to_bits()).unwrap();
    let far_end_frame = vec![0.0f32.to_bits(); 128];
    let mic_frame = vec![0.0f32.to_bits(); 256];
    aec.process(Event::Frame { far: far_end_frame, mic: mic_frame }).unwrap();
}

#[test]
fn frame_of_the_wrong_length_is_refused_and_changes_nothing() {
    let mut aec = FdafAec::<512>::new(0.5f32.to_bits()).unwrap();
    let history = aec.far_end_buffer().to_vec();
    let weights = aec.weights().to_vec();
    let psd = aec.psd().to_vec();

    let short_far = Event::Frame { far: vec![7; 128], mic: vec![9; 256] };
    assert_eq!(aec.process(short_far), Err(AecError::InvalidFrameSize));
    let short_mic = Event::Frame { far: vec![7; 256], mic: vec![9; 255] };
    assert_eq!(aec.process(short_mic), Err(AecError::InvalidFrameSize));
    let long_far = Event::Frame { far: vec![7; 512], mic: vec![9; 256] };
    assert_eq!(aec.process(long_far), Err(AecError::InvalidFrameSize));
    let empty = Event::Frame { far: vec![], mic: vec![] };
    assert_eq!(aec.process(empty), Err(AecError::InvalidFrameSize));

    assert_eq!(aec.stage(), Stage::Idle);
    assert_eq!(aec.far_end_buffer(), &history[..]);
    assert_eq!(aec.weights(), &weights[..]);
    assert_eq!(aec.psd(), &psd[..]);

    // The processor still takes a frame of the right length, and the history
    // holds nothing of the frames that were refused.
    let good = Event::Frame { far: vec![5; 256], mic: vec![9; 256] };
    assert!(aec.process(good).is_ok());
    assert_eq!(&aec.far_end_buffer()[..256], &[0u32; 256][..]);
    assert_eq!(&aec.far_end_buffer()[256..], &[5u32; 256][..]);
}

#[test]
fn one_frame_runs_through_the_stages_in_order() {
    let mu = 0.5f32.to_bits();
    let mut aec = FdafAec::<4>::new(mu).unwrap();
    let one = 1.0f32.to_bits();

    // The history slides by one frame; the block handed out is the history
    // with zero imaginary parts.
    let action = aec.process(Event::Frame { far: vec![11, 12], mic: vec![21, 22] });
    assert_eq!(action, Ok(Action::Forward(vec![c(0, 0), c(0, 0), c(11, 0), c(12, 0)])));
    assert_eq!(aec.stage(), Stage::Reference);
    assert_eq!(aec.far_end_buffer(), &[0, 0, 11, 12]);

    // The power estimate is smoothed on the spectrum that came back.
    let spectrum = vec![c(31, 41), c(32, 42), c(33, 43), c(34, 44)];
    let action = aec.process(Event::Complex(spectrum.clone()));
    assert_eq!(
        action,
        Ok(Action::Smooth { psd: vec![one; 4], spectrum: spectrum.clone(), smoothing: SMOOTHING })
    );
    assert_eq!(aec.stage(), Stage::Power);

    // The echo is estimated with the weights as they were before the frame.
    let action = aec.process(Event::Real(vec![51, 52, 53, 54]));
    assert_eq!(
        action,
        Ok(Action::Multiply { weights: vec![c(0, 0); 4], spectrum: spectrum.clone() })
    );
    assert_eq!(aec.stage(), Stage::Product);
    assert_eq!(aec.psd(), &[51, 52, 53, 54]);

    // The product goes back to the host to be transformed.
    let product = vec![c(55, 65), c(56, 66), c(57, 67), c(58, 68)];
    let action = aec.process(Event::Complex(product.clone()));
    assert_eq!(action, Ok(Action::Inverse(product)));
    assert_eq!(aec.stage(), Stage::Inverse);

    // Of the inverse transform, the real parts are normalized.
    let inverse = vec![c(61, 71), c(62, 72), c(63, 73), c(64, 74)];
    let action = aec.process(Event::Complex(inverse));
    assert_eq!(action, Ok(Action::Normalize { signal: vec![61, 62, 63, 64], fft_size: 4 }));
    assert_eq!(aec.stage(), Stage::Echo);

    // Of the echo estimate, the second half is subtracted.
    let action = aec.process(Event::Real(vec![75, 76, 77, 78]));
    assert_eq!(action, Ok(Action::Subtract { mic: vec![21, 22], echo: vec![77, 78] }));
    assert_eq!(aec.stage(), Stage::Residual);

    // The error frame is transformed behind a frame of zeros.
    let action = aec.process(Event::Real(vec![81, 82]));
    assert_eq!(action, Ok(Action::Forward(vec![c(0, 0), c(0, 0), c(81, 0), c(82, 0)])));
    assert_eq!(aec.stage(), Stage::ErrorSpectrum);

    // The weights are adapted last, with the power estimate of this frame.
    let error = vec![c(91, 101), c(92, 102), c(93, 103), c(94, 104)];
    let action = aec.process(Event::Complex(error.clone()));
    assert_eq!(
        action,
        Ok(Action::Adapt {
            weights: vec![c(0, 0); 4],
            reference: spectrum,
            error,
            psd: vec![51, 52, 53, 54],
            step_size: mu,
            regularization: EPSILON,
        })
    );
    assert_eq!(aec.stage(), Stage::Adaptation);

    // The frame that comes out is the error frame.
    let adapted = vec![c(111, 121), c(112, 122), c(113, 123), c(114, 124)];
    let action = aec.process(Event::Complex(adapted.clone()));
    assert_eq!(action, Ok(Action::Emit(vec![81, 82])));
    assert_eq!(aec.stage(), Stage::Idle);
    assert_eq!(aec.weights(), &adapted[..]);
    assert_eq!(aec.psd(), &[51, 52, 53, 54]);
    assert_eq!(aec.far_end_buffer(), &[0, 0, 11, 12]);
    assert_eq!(aec.step_size(), mu);
    assert_eq!(aec.smoothing_factor(), SMOOTHING);
}

/// Answers every action with a block of the right kind and length, and
/// returns the frame that is emitted.
fn run_frame<const N: usize>(aec: &mut FdafAec<N>, far: Vec<u32>, mic: Vec<u32>) -> Vec<u32> {
    let mut action = aec.process(Event::Frame { far, mic }).unwrap();
    loop {
        let event = match action {
            Action::Forward(block) => Event::Complex(block),
            Action::Smooth { psd, .. } => Event::Real(psd),
            Action::Multiply { weights, .. } => Event::Complex(weights),
            Action::Inverse(block) => Event::Complex(block),
            Action::Normalize { signal, .. } => Event::Real(signal),
            Action::Subtract { mic, .. } => Event::Real(mic),
            Action::Adapt { weights, .. } => Event::Complex(weights),
            Action::Emit(out) => return out,
        };
        action = aec.process(event).unwrap();
    }
}

#[test]
fn history_holds_the_last_two_frames() {
    let mut aec = FdafAec::<8>::new(0).unwrap();
    assert_eq!(aec.far_end_buffer(), &[0; 8]);
    run_frame(&mut aec, vec![1, 2, 3, 4], vec![0; 4]);
    assert_eq!(aec.far_end_buffer(), &[0, 0, 0, 0, 1, 2, 3, 4]);
    run_frame(&mut aec, vec![5, 6, 7, 8], vec![0; 4]);
    assert_eq!(aec.far_end_buffer(), &[1, 2, 3, 4, 5, 6, 7, 8]);
    run_frame(&mut aec, vec![9, 10, 11, 12], vec![0; 4]);
    assert_eq!(aec.far_end_buffer(), &[5, 6, 7, 8, 9, 10, 11, 12]);
    assert_eq!(aec.stage(), Stage::Idle);
}

#[test]
fn smallest_block_has_frames_of_one_sample() {
    let mut aec = FdafAec::<2>::new(0).unwrap();
    let action = aec.process(Event::Frame { far: vec![3], mic: vec![4] });
    assert_eq!(action, Ok(Action::Forward(vec![c(0, 0), c(3, 0)])));
    let action = aec.process(Event::Complex(vec![c(1, 1), c(2, 2)]));
    assert!(matches!(action, Ok(Action::Smooth { .. })));
    let action = aec.process(Event::Real(vec![5, 6]));
    assert!(matches!(action, Ok(Action::Multiply { .. })));
    let action = aec.process(Event::Complex(vec![c(7, 8), c(9, 10)]));
    assert_eq!(action, Ok(Action::Inverse(vec![c(7, 8), c(9, 10)])));
    let action = aec.process(Event::Complex(vec![c(11, 12), c(13, 14)]));
    assert_eq!(action, Ok(Action::Normalize { signal: vec![11, 13], fft_size: 2 }));
    let action = aec.process(Event::Real(vec![15, 16]));
    assert_eq!(action, Ok(Action::Subtract { mic: vec![4], echo: vec![16] }));
    let action = aec.process(Event::Real(vec![13]));
    assert_eq!(action, Ok(Action::Forward(vec![c(0, 0), c(13, 0)])));
}

#[test]
fn buffer_lengths_stay_the_block_length() {
    let mut aec = FdafAec::<16>::new(0.5f32.to_bits()).unwrap();
    for frame in 0..20u32 {
        run_frame(&mut aec, vec![frame; 8], vec![frame + 100; 8]);
        assert_eq!(aec.weights().len(), 16);
        assert_eq!(aec.far_end_buffer().len(), 16);
        assert_eq!(aec.psd().len(), 16);
        // Refused calls in between change no length either.
        assert!(aec.process(Event::Real(vec![1; 3])).is_err());
        assert!(aec.process(Event::Frame { far: vec![1; 3], mic: vec![1; 8] }).is_err());
        assert_eq!(aec.weights().len(), 16);
        assert_eq!(aec.far_end_buffer().len(), 16);
        assert_eq!(aec.psd().len(), 16);
    }
}

#[test]
fn event_of_the_wrong_kind_is_unexpected_and_changes_nothing() {
    let mut aec = FdafAec::<4>::new(0).unwrap();

    // Idle waits for a frame.
    assert_eq!(aec.process(Event::Complex(vec![c(1, 1); 4])), Err(AecError::UnexpectedEvent));
    assert_eq!(aec.process(Event::Real(vec![1; 4])), Err(AecError::UnexpectedEvent));
    assert_eq!(aec.stage(), Stage::Idle);
    assert_eq!(aec.weights(), &[c(0, 0); 4]);

    // A frame is under way: no second frame, and no real block where a
    // spectrum is due.
    aec.process(Event::Frame { far: vec![1, 2], mic: vec![3, 4] }).unwrap();
    let second = Event::Frame { far: vec![5, 6], mic: vec![7, 8] };
    assert_eq!(aec.process(second), Err(AecError::UnexpectedEvent));
    assert_eq!(aec.process(Event::Real(vec![1; 4])), Err(AecError::UnexpectedEvent));
    assert_eq!(aec.stage(), Stage::Reference);
    assert_eq!(aec.far_end_buffer(), &[0, 0, 1, 2]);

    aec.process(Event::Complex(vec![c(1, 1); 4])).unwrap();
    assert_eq!(aec.process(Event::Complex(vec![c(1, 1); 4])), Err(AecError::UnexpectedEvent));
    assert_eq!(aec.stage(), Stage::Power);
    assert_eq!(aec.psd(), &[0x3F80_0000; 4]);

    aec.process(Event::Real(vec![9; 4])).unwrap();
    assert_eq!(aec.process(Event::Real(vec![9; 4])), Err(AecError::UnexpectedEvent));
    assert_eq!(aec.stage(), Stage::Product);

    aec.process(Event::Complex(vec![c(2, 2); 4])).unwrap();
    assert_eq!(aec.process(Event::Real(vec![9; 4])), Err(AecError::UnexpectedEvent));
    assert_eq!(aec.stage(), Stage::Inverse);

    aec.process(Event::Complex(vec![c(2, 2); 4])).unwrap();
    assert_eq!(aec.process(Event::Complex(vec![c(2, 2); 4])), Err(AecError::UnexpectedEvent));
    assert_eq!(aec.stage(), Stage::Echo);

    aec.process(Event::Real(vec![8; 4])).unwrap();
    assert_eq!(aec.process(Event::Complex(vec![c(2, 2); 4])), Err(AecError::UnexpectedEvent));
    assert_eq!(aec.stage(), Stage::Residual);

    aec.process(Event::Real(vec![6, 7])).unwrap();
    assert_eq!(aec.process(Event::Real(vec![6, 7])), Err(AecError::UnexpectedEvent));
    assert_eq!(aec.stage(), Stage::ErrorSpectrum);

    aec.process(Event::Complex(vec![c(3, 3); 4])).unwrap();
    assert_eq!(aec.process(Event::Real(vec![6; 4])), Err(AecError::UnexpectedEvent));
    assert_eq!(aec.stage(), Stage::Adaptation);
    assert_eq!(aec.weights(), &[c(0, 0); 4]);
}

#[test]
fn answer_of_the_wrong_length_is_refused_and_changes_nothing() {
    let mut aec = FdafAec::<4>::new(0).unwrap();
    aec.process(Event::Frame { far: vec![1, 2], mic: vec![3, 4] }).unwrap();

    assert_eq!(aec.process(Event::Complex(vec![c(1, 1); 3])), Err(AecError::InvalidFrameSize));
    assert_eq!(aec.process(Event::Complex(vec![c(1, 1); 5])), Err(AecError::InvalidFrameSize));
    assert_eq!(aec.stage(), Stage::Reference);
    aec.process(Event::Complex(vec![c(1, 1); 4])).unwrap();

    assert_eq!(aec.process(Event::Real(vec![9; 2])), Err(AecError::InvalidFrameSize));
    assert_eq!(aec.stage(), Stage::Power);
    assert_eq!(aec.psd(), &[0x3F80_0000; 4]);
    aec.process(Event::Real(vec![9; 4])).unwrap();

    assert_eq!(aec.process(Event::Complex(vec![])), Err(AecError::InvalidFrameSize));
    assert_eq!(aec.stage(), Stage::Product);
    aec.process(Event::Complex(vec![c(2, 2); 4])).unwrap();

    assert_eq!(aec.process(Event::Complex(vec![c(2, 2); 2])), Err(AecError::InvalidFrameSize));
    assert_eq!(aec.stage(), Stage::Inverse);
    aec.process(Event::Complex(vec![c(2, 2); 4])).unwrap();

    // The echo estimate is a whole block, not only the half that is used.
    assert_eq!(aec.process(Event::Real(vec![8; 2])), Err(AecError::InvalidFrameSize));
    assert_eq!(aec.stage(), Stage::Echo);
    aec.process(Event::Real(vec![8; 4])).unwrap();

    // The error frame has the frame length, not the block length.
    assert_eq!(aec.process(Event::Real(vec![6; 4])), Err(AecError::InvalidFrameSize));
    assert_eq!(aec.stage(), Stage::Residual);
    aec.process(Event::Real(vec![6, 7])).unwrap();

    assert_eq!(aec.process(Event::Complex(vec![c(3, 3); 2])), Err(AecError::InvalidFrameSize));
    assert_eq!(aec.stage(), Stage::ErrorSpectrum);
    aec.process(Event::Complex(vec![c(3, 3); 4])).unwrap();

    assert_eq!(aec.process(Event::Complex(vec![c(4, 4); 8])), Err(AecError::InvalidFrameSize));
    assert_eq!(aec.stage(), Stage::Adaptation);
    assert_eq!(aec.weights(), &[c(0, 0); 4]);
    assert_eq!(aec.process(Event::Complex(vec![c(4, 4); 4])), Ok(Action::Emit(vec![6, 7])));
    assert_eq!(aec.weights(), &[c(4, 4); 4]);
}
