use capture::config::VadConfig;
use capture::vad::{VadEvent, VadState, VadStateMachine};

fn test_config() -> VadConfig {
    VadConfig {
        threshold_bits: 0.35f32.to_bits(),
        min_speech_duration_ms: 100,
        min_silence_duration_ms: 200,
        speech_pad_ms: 50,
        energy_fallback_threshold_bits: 0.005f32.to_bits(),
    }
}

#[test]
fn test_idle_to_speech() {
    let mut sm = VadStateMachine::new(test_config());

    let event = sm.process(true, 50);
    assert_eq!(event, VadEvent::NoChange);
    assert!(matches!(sm.state(), VadState::SpeechPending { .. }));

    let event = sm.process(true, 60);
    assert_eq!(event, VadEvent::SpeechStarted);
    assert_eq!(sm.state(), VadState::SpeechActive);
}

#[test]
fn test_false_positive() {
    let mut sm = VadStateMachine::new(test_config());

    sm.process(true, 50);
    assert!(matches!(sm.state(), VadState::SpeechPending { .. }));

    let event = sm.process(false, 30);
    assert_eq!(event, VadEvent::NoChange);
    assert_eq!(sm.state(), VadState::Idle);
}

#[test]
fn test_speech_to_silence() {
    let mut sm = VadStateMachine::new(test_config());

    sm.process(true, 50);
    sm.process(true, 60);
    assert_eq!(sm.state(), VadState::SpeechActive);

    sm.process(false, 50);
    assert!(matches!(sm.state(), VadState::SilencePending { .. }));

    let event = sm.process(false, 200);
    assert_eq!(event, VadEvent::SpeechEnded);
    assert_eq!(sm.state(), VadState::Idle);
}

#[test]
fn test_interrupted_silence() {
    let mut sm = VadStateMachine::new(test_config());

    sm.process(true, 50);
    sm.process(true, 60);

    sm.process(false, 50);
    assert!(matches!(sm.state(), VadState::SilencePending { .. }));

    let event = sm.process(true, 30);
    assert_eq!(event, VadEvent::NoChange);
    assert_eq!(sm.state(), VadState::SpeechActive);
}

#[test]
fn test_is_capturing() {
    let mut sm = VadStateMachine::new(test_config());

    assert!(!sm.is_capturing());

    sm.process(true, 50);
    assert!(!sm.is_capturing());

    sm.process(true, 60);
    assert!(sm.is_capturing());

    sm.process(false, 50);
    assert!(sm.is_capturing());
}

#[test]
fn pending_state_remembers_when_it_began() {
    let mut sm = VadStateMachine::new(test_config());
    sm.process(false, 40);
    sm.process(true, 50);
    assert_eq!(sm.state(), VadState::SpeechPending { started_at_ms: 40 });
    sm.process(true, 49);
    assert_eq!(sm.state(), VadState::SpeechPending { started_at_ms: 40 });
    assert_eq!(sm.process(true, 1), VadEvent::SpeechStarted);
    sm.process(false, 10);
    assert_eq!(sm.state(), VadState::SilencePending { started_at_ms: 150 });
}

#[test]
fn a_single_window_never_confirms_speech() {
    let mut sm = VadStateMachine::new(test_config());
    assert_eq!(sm.process(true, 5_000), VadEvent::NoChange);
    assert_eq!(sm.state(), VadState::SpeechPending { started_at_ms: 0 });
    assert_eq!(sm.process(false, 10), VadEvent::NoChange);
    assert_eq!(sm.state(), VadState::Idle);
}

#[test]
fn silence_just_short_of_the_limit_keeps_the_segment() {
    let mut sm = VadStateMachine::new(test_config());
    sm.process(true, 50);
    sm.process(true, 100);
    assert_eq!(sm.state(), VadState::SpeechActive);
    assert_eq!(sm.process(false, 10), VadEvent::NoChange);
    assert_eq!(sm.process(false, 199), VadEvent::NoChange);
    assert_eq!(sm.process(true, 10), VadEvent::NoChange);
    assert_eq!(sm.state(), VadState::SpeechActive);
}

#[test]
fn silence_of_exactly_the_limit_ends_the_segment() {
    let mut sm = VadStateMachine::new(test_config());
    sm.process(true, 50);
    sm.process(true, 100);
    sm.process(false, 10);
    assert_eq!(sm.state(), VadState::SilencePending { started_at_ms: 160 });
    assert_eq!(sm.process(false, 199), VadEvent::NoChange);
    assert_eq!(sm.process(false, 1), VadEvent::SpeechEnded);
    assert!(!sm.is_capturing());
}

#[test]
fn starts_and_ends_alternate_over_a_long_run() {
    let mut sm = VadStateMachine::new(test_config());
    let mut open = false;
    let mut starts = 0;
    let mut ends = 0;
    for i in 0..2000u64 {
        let is_speech = (i / 7) % 3 != 0 && i % 11 != 0;
        match sm.process(is_speech, 30 + (i % 5) * 10) {
            VadEvent::SpeechStarted => {
                assert!(!open);
                open = true;
                starts += 1;
            }
            VadEvent::SpeechEnded => {
                assert!(open);
                open = false;
                ends += 1;
            }
            VadEvent::MaxDurationReached => panic!("a window never forces an end"),
            VadEvent::NoChange => {}
        }
        assert_eq!(sm.is_capturing(), open);
    }
    assert!(starts > 0);
    assert!(starts == ends || starts == ends + 1);
}

#[test]
fn force_end_closes_an_open_segment_only() {
    let mut sm = VadStateMachine::new(test_config());
    assert_eq!(sm.force_end(), VadEvent::NoChange);
    sm.process(true, 50);
    assert_eq!(sm.force_end(), VadEvent::NoChange);
    assert!(matches!(sm.state(), VadState::SpeechPending { .. }));
    sm.process(true, 100);
    assert_eq!(sm.speech_duration_ms(), Some(150));
    assert_eq!(sm.force_end(), VadEvent::MaxDurationReached);
    assert_eq!(sm.state(), VadState::Idle);
    assert_eq!(sm.speech_duration_ms(), None);
}

#[test]
fn reset_puts_the_clock_back() {
    let mut sm = VadStateMachine::new(test_config());
    sm.process(true, 50);
    sm.process(true, 100);
    sm.reset();
    assert_eq!(sm.state(), VadState::Idle);
    sm.process(false, 7);
    sm.process(true, 7);
    assert_eq!(sm.state(), VadState::SpeechPending { started_at_ms: 7 });
}

#[test]
fn the_clock_stops_at_its_largest_reading() {
    let mut sm = VadStateMachine::new(test_config());
    sm.process(false, u64::MAX - 5);
    assert_eq!(sm.process(true, 100), VadEvent::NoChange);
    assert_eq!(sm.state(), VadState::SpeechPending { started_at_ms: u64::MAX - 5 });
    assert_eq!(sm.process(true, 100), VadEvent::NoChange);
    assert_eq!(sm.process(true, 100), VadEvent::NoChange);
    assert_eq!(sm.state(), VadState::SpeechPending { started_at_ms: u64::MAX - 5 });
}

#[test]
fn default_state_is_idle() {
    assert_eq!(VadState::default(), VadState::Idle);
}

#[test]
fn a_pause_counts_from_the_end_of_its_first_window() {
    let mut sm = VadStateMachine::new(test_config());
    sm.process(true, 50);
    sm.process(true, 60);
    assert_eq!(sm.state(), VadState::SpeechActive);
    // The first silent window is long, and still the count starts at its end.
    assert_eq!(sm.process(false, 500), VadEvent::NoChange);
    assert_eq!(sm.state(), VadState::SilencePending { started_at_ms: 610 });
    assert_eq!(sm.process(false, 199), VadEvent::NoChange);
    assert_eq!(sm.process(false, 1), VadEvent::SpeechEnded);
}

#[test]
fn a_burst_counts_from_the_beginning_of_its_first_window() {
    let mut sm = VadStateMachine::new(test_config());
    sm.process(false, 500);
    assert_eq!(sm.process(true, 99), VadEvent::NoChange);
    assert_eq!(sm.state(), VadState::SpeechPending { started_at_ms: 500 });
    assert_eq!(sm.process(true, 1), VadEvent::SpeechStarted);
}
