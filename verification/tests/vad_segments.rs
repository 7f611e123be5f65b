use capture::vad::{
    segments_from_decisions, select_segments, SegmentError, VoiceActivityDetector,
};

fn decisions(pattern: &str) -> Vec<bool> {
    pattern.chars().map(|c| c == 'v').collect()
}

#[test]
fn region_opens_after_the_minimum_run_and_is_dated_back() {
    // Frames of 480 samples; three voiced frames open a region.
    let d = decisions("..vvvv");
    let segments = segments_from_decisions(&d, 480, 6 * 480, 3, 10);
    assert_eq!(segments, vec![(2 * 480, 6 * 480)]);
}

#[test]
fn region_closes_the_silent_run_before_the_confirming_frame() {
    let d = decisions("vvvv...vv");
    let segments = segments_from_decisions(&d, 100, 950, 2, 3);
    // Opened at frame 0 and closed by the silence of frames 4 to 6, three
    // frames before the last of them; two more voiced frames open a second
    // region.
    assert_eq!(segments, vec![(0, 300), (700, 950)]);
}

#[test]
fn short_bursts_and_short_pauses_are_ignored() {
    let d = decisions("v.v.vv.vvv..vvv");
    let segments = segments_from_decisions(&d, 10, 150, 3, 3);
    assert_eq!(segments, vec![(70, 150)]);
}

#[test]
fn recording_without_voice_has_no_regions() {
    let d = decisions("..........");
    assert!(segments_from_decisions(&d, 480, 4800, 3, 10).is_empty());
    assert!(segments_from_decisions(&[], 480, 100, 3, 10).is_empty());
}

#[test]
fn speech_from_the_first_frame_starts_at_zero() {
    let d = decisions("vvv");
    assert_eq!(segments_from_decisions(&d, 160, 500, 3, 10), vec![(0, 500)]);
}

#[test]
fn a_minimum_of_zero_opens_after_the_voiced_frame() {
    let d = decisions("v..");
    assert_eq!(segments_from_decisions(&d, 10, 30, 0, 2), vec![]);
    let d = decisions("vv..");
    assert_eq!(segments_from_decisions(&d, 10, 40, 0, 2), vec![]);
    let d = decisions("vvv..");
    assert_eq!(segments_from_decisions(&d, 10, 50, 0, 2), vec![(10, 20)]);
}

#[test]
fn selected_audio_is_the_regions_in_order() {
    let audio: Vec<u32> = (0..20).collect();
    assert_eq!(select_segments(&audio, &[(2, 5), (10, 12)]), vec![2, 3, 4, 10, 11]);
    assert_eq!(select_segments(&audio, &[(18, 25)]), vec![18, 19]);
    assert_eq!(select_segments(&audio, &[(30, 40)]), Vec::<u32>::new());
    assert_eq!(select_segments(&audio, &[]), Vec::<u32>::new());
}

#[test]
fn detector_takes_four_rates_and_four_levels() {
    for rate in [8_000, 16_000, 32_000, 48_000] {
        for level in 0..4 {
            assert!(VoiceActivityDetector::new(level, rate).is_ok());
        }
    }
    assert_eq!(
        VoiceActivityDetector::new(2, 44_100).err(),
        Some(SegmentError::InvalidSampleRate)
    );
    assert_eq!(
        VoiceActivityDetector::new(4, 16_000).err(),
        Some(SegmentError::InvalidAggressiveness)
    );
    assert_eq!(
        VoiceActivityDetector::new(-1, 16_000).err(),
        Some(SegmentError::InvalidAggressiveness)
    );
    assert_eq!(
        VoiceActivityDetector::new(7, 1).err(),
        Some(SegmentError::InvalidSampleRate)
    );
}

#[test]
fn frames_last_ten_twenty_or_thirty_milliseconds() {
    let vad = VoiceActivityDetector::new(2, 16_000).unwrap();
    assert_eq!(vad.frame_samples(10), Ok(160));
    assert_eq!(vad.frame_samples(20), Ok(320));
    assert_eq!(vad.frame_samples(30), Ok(480));
    assert_eq!(vad.frame_samples(15), Err(SegmentError::InvalidFrameDuration));
    assert_eq!(vad.frame_samples(0), Err(SegmentError::InvalidFrameDuration));
    let vad = VoiceActivityDetector::new(0, 48_000).unwrap();
    assert_eq!(vad.frame_samples(30), Ok(1440));
}

#[test]
fn silence_is_not_speech() {
    let mut vad = VoiceActivityDetector::new(2, 16_000).unwrap();
    assert_eq!(vad.is_speech(&[0i16; 480]), Ok(false));
    assert_eq!(vad.is_speech(&[0i16; 160]), Ok(false));
    assert_eq!(vad.is_speech(&[0i16; 100]), Err(SegmentError::InvalidFrame));
    assert_eq!(vad.is_speech(&[]), Err(SegmentError::InvalidFrame));
}

#[test]
fn silent_recording_has_no_segments() {
    let mut vad = VoiceActivityDetector::new(2, 16_000).unwrap();
    let audio = vec![0i16; 16_000];
    assert_eq!(vad.decide_frames(&audio, 480), vec![false; 33]);
    assert_eq!(vad.detect_segments(&audio, 30, 3, 10), Ok(vec![]));
    assert_eq!(
        vad.detect_segments(&audio, 25, 3, 10),
        Err(SegmentError::InvalidFrameDuration)
    );
    assert_eq!(vad.detect_segments(&[], 30, 3, 10), Ok(vec![]));
}

#[test]
fn filter_needs_both_forms_of_the_recording() {
    let mut vad = VoiceActivityDetector::new(2, 16_000).unwrap();
    let audio = vec![0u32; 960];
    assert_eq!(vad.filter_speech(&audio, &[0i16; 959], 30), Err(SegmentError::LengthMismatch));
    assert_eq!(
        vad.filter_speech(&audio, &[0i16; 960], 40),
        Err(SegmentError::InvalidFrameDuration)
    );
    assert_eq!(vad.filter_speech(&audio, &[0i16; 960], 30), Ok(vec![]));
}
