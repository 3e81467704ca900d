use sound_hearing_aid::capture::{
    check_sample, needs_data_ready_call, plan_interleaved, AudioFormatInfo, BufferArrangement,
    FrameLayout, InterleavedPlan, PcmFormat, StereoDecodeError,
};

fn float_stereo() -> AudioFormatInfo {
    AudioFormatInfo {
        is_audio: true,
        is_pcm: true,
        channel_count: Some(2),
        bits_per_channel: Some(32),
        bytes_per_frame: Some(8),
        is_float: true,
    }
}

#[test]
fn decode_error_messages() {
    assert_eq!(
        StereoDecodeError::InvalidSampleBuffer.message(),
        "Audio sample buffer is invalid"
    );
    assert_eq!(
        StereoDecodeError::SampleNotReady(-12731).message(),
        "Audio sample not ready (status -12731)"
    );
    assert_eq!(
        StereoDecodeError::SampleNotReady(0).message(),
        "Audio sample not ready (status 0)"
    );
    assert_eq!(
        StereoDecodeError::SampleNotReady(i32::MIN).message(),
        "Audio sample not ready (status -2147483648)"
    );
    assert_eq!(
        StereoDecodeError::SampleNotReady(i32::MAX).message(),
        "Audio sample not ready (status 2147483647)"
    );
    assert_eq!(
        StereoDecodeError::MissingFormatDescription.message(),
        "Audio sample missing format description"
    );
    assert_eq!(
        StereoDecodeError::UnsupportedAudioFormat.message(),
        "Audio format is not supported PCM"
    );
}

#[test]
fn pcm_format_accepts_float_stereo() {
    assert_eq!(
        PcmFormat::from_format(&float_stereo()),
        Ok(PcmFormat {
            channel_count: 2,
            bytes_per_frame: 8
        })
    );
}

#[test]
fn pcm_format_rejections() {
    let unsupported = Err(StereoDecodeError::UnsupportedAudioFormat);
    let mut info = float_stereo();
    info.is_audio = false;
    assert_eq!(PcmFormat::from_format(&info), unsupported);
    let mut info = float_stereo();
    info.is_pcm = false;
    assert_eq!(PcmFormat::from_format(&info), unsupported);
    let mut info = float_stereo();
    info.channel_count = None;
    assert_eq!(PcmFormat::from_format(&info), unsupported);
    let mut info = float_stereo();
    info.channel_count = Some(0);
    assert_eq!(PcmFormat::from_format(&info), unsupported);
    let mut info = float_stereo();
    info.bits_per_channel = Some(16);
    assert_eq!(PcmFormat::from_format(&info), unsupported);
    let mut info = float_stereo();
    info.bits_per_channel = None;
    assert_eq!(PcmFormat::from_format(&info), unsupported);
    let mut info = float_stereo();
    info.bytes_per_frame = Some(0);
    assert_eq!(PcmFormat::from_format(&info), unsupported);
    let mut info = float_stereo();
    info.bytes_per_frame = None;
    assert_eq!(PcmFormat::from_format(&info), unsupported);
    let mut info = float_stereo();
    info.is_float = false;
    assert_eq!(PcmFormat::from_format(&info), unsupported);
}

#[test]
fn buffer_arrangements() {
    assert_eq!(
        BufferArrangement::from_buffer_count(0),
        Err(StereoDecodeError::UnsupportedAudioFormat)
    );
    assert_eq!(
        BufferArrangement::from_buffer_count(1),
        Ok(BufferArrangement::Interleaved)
    );
    assert_eq!(
        BufferArrangement::from_buffer_count(2),
        Ok(BufferArrangement::Planar)
    );
    assert_eq!(
        BufferArrangement::from_buffer_count(6),
        Ok(BufferArrangement::Planar)
    );
}

#[test]
fn interleaved_empty_buffer_is_silent() {
    assert_eq!(plan_interleaved(0, 2, 8), Ok(InterleavedPlan::Silent));
}

#[test]
fn interleaved_partial_frame_is_rejected() {
    assert_eq!(
        plan_interleaved(12, 2, 8),
        Err(StereoDecodeError::UnsupportedAudioFormat)
    );
}

#[test]
fn interleaved_frame_too_small_for_channels() {
    assert_eq!(
        plan_interleaved(16, 3, 8),
        Err(StereoDecodeError::UnsupportedAudioFormat)
    );
}

#[test]
fn interleaved_stereo_plan_and_pairs() {
    let plan = plan_interleaved(32, 2, 8);
    let expected = FrameLayout {
        frame_count: 4,
        samples_per_frame: 2,
        right_offset: 1,
    };
    assert_eq!(plan, Ok(InterleavedPlan::Frames(expected)));
    assert_eq!(
        expected.sample_pairs(),
        vec![(0, 1), (2, 3), (4, 5), (6, 7)]
    );
}

#[test]
fn interleaved_mono_reads_first_channel_twice() {
    let plan = plan_interleaved(12, 1, 4);
    let expected = FrameLayout {
        frame_count: 3,
        samples_per_frame: 1,
        right_offset: 0,
    };
    assert_eq!(plan, Ok(InterleavedPlan::Frames(expected)));
    assert_eq!(expected.sample_pairs(), vec![(0, 0), (1, 1), (2, 2)]);
}

#[test]
fn interleaved_surround_reads_first_two_channels() {
    let plan = plan_interleaved(64, 8, 32);
    let expected = FrameLayout {
        frame_count: 2,
        samples_per_frame: 8,
        right_offset: 1,
    };
    assert_eq!(plan, Ok(InterleavedPlan::Frames(expected)));
    let pairs = expected.sample_pairs();
    assert_eq!(pairs, vec![(0, 1), (8, 9)]);
    assert!(pairs.iter().all(|(l, r)| *l < 16 && *r < 16));
}

#[test]
fn make_ready_call_only_for_valid_unready_samples() {
    assert!(needs_data_ready_call(true, false));
    assert!(!needs_data_ready_call(true, true));
    assert!(!needs_data_ready_call(false, false));
    assert!(!needs_data_ready_call(false, true));
}

#[test]
fn sample_checks_in_order() {
    let pcm = Ok(PcmFormat {
        channel_count: 2,
        bytes_per_frame: 8,
    });
    assert_eq!(
        check_sample(false, false, Some(Err(-1)), None),
        Err(StereoDecodeError::InvalidSampleBuffer)
    );
    assert_eq!(
        check_sample(true, false, Some(Err(-12731)), None),
        Err(StereoDecodeError::SampleNotReady(-12731))
    );
    assert_eq!(
        check_sample(true, false, Some(Ok(())), None),
        Err(StereoDecodeError::MissingFormatDescription)
    );
    assert_eq!(check_sample(true, false, Some(Ok(())), Some(float_stereo())), pcm);
    assert_eq!(check_sample(true, true, None, Some(float_stereo())), pcm);
    let mut info = float_stereo();
    info.bits_per_channel = Some(16);
    assert_eq!(
        check_sample(true, true, None, Some(info)),
        Err(StereoDecodeError::UnsupportedAudioFormat)
    );
}

#[test]
fn empty_buffer_with_empty_frames_is_silent() {
    assert_eq!(plan_interleaved(0, 2, 0), Ok(InterleavedPlan::Silent));
}
