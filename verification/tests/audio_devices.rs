use capture::audio::{
    list_input_devices, select_input_config, select_input_device, AudioChunk, AudioRecorder,
    CaptureConfig, DataWait, DeviceChoice, DeviceError, InputConfigRange, RateChange,
    RecorderError, StartPlan, StopPlan, StreamChoice, WritePlan, ZeroCopyAudioRecorder,
};

const PASS_THROUGH: StopPlan = StopPlan { downmix: None, mono_frames: 0, resample: None };

fn pass_through(mono_frames: usize) -> StopPlan {
    StopPlan { mono_frames, ..PASS_THROUGH }
}

fn range(channels: u16, min: u32, max: u32) -> InputConfigRange {
    InputConfigRange { channels, min_sample_rate: min, max_sample_rate: max }
}

#[test]
fn test_list_devices() {
    let names = vec!["Built-in Microphone".to_string(), "USB Audio".to_string()];
    let result = list_input_devices(&names, Some("USB Audio"));
    assert_eq!(result.len(), 2);
    assert_eq!(result[0].id, "Built-in Microphone");
    assert_eq!(result[0].name, "Built-in Microphone");
    assert!(!result[0].is_default);
    assert_eq!(result[1].id, "USB Audio");
    assert!(result[1].is_default);
    assert!(list_input_devices(&[], None).is_empty());
    assert!(!list_input_devices(&names, None)[0].is_default);
}

#[test]
fn capture_config_defaults() {
    let config = CaptureConfig::default();
    assert_eq!(config.device_id, None);
    assert_eq!(config.buffer_size, 64);
}

#[test]
fn device_is_found_by_name() {
    let names = vec!["a".to_string(), "b".to_string(), "b".to_string()];
    assert_eq!(select_input_device(&names, None), Ok(DeviceChoice::SystemDefault));
    assert_eq!(select_input_device(&names, Some("b")), Ok(DeviceChoice::Listed { index: 1 }));
    assert_eq!(select_input_device(&names, Some("c")), Err(DeviceError::NotFound));
}

#[test]
fn requested_rate_is_taken_where_supported() {
    let configs = [range(1, 8_000, 48_000), range(2, 44_100, 96_000)];
    assert_eq!(
        select_input_config(&configs, 1, 16_000),
        Ok(StreamChoice { index: 0, sample_rate: 16_000 })
    );
}

#[test]
fn device_maximum_is_taken_otherwise() {
    // The device offers 44.1 kHz and 48 kHz stereo only.
    let configs = [range(2, 44_100, 44_100), range(2, 48_000, 48_000)];
    assert_eq!(
        select_input_config(&configs, 2, 16_000),
        Ok(StreamChoice { index: 1, sample_rate: 48_000 })
    );
}

#[test]
fn last_of_equal_ranges_wins() {
    let configs = [range(1, 48_000, 48_000), range(1, 8_000, 48_000), range(1, 8_000, 44_100)];
    assert_eq!(
        select_input_config(&configs, 1, 16_000),
        Ok(StreamChoice { index: 1, sample_rate: 16_000 })
    );
}

#[test]
fn missing_channel_count_is_an_error() {
    let configs = [range(2, 44_100, 48_000)];
    assert_eq!(select_input_config(&configs, 1, 16_000), Err(DeviceError::UnsupportedChannels));
    assert_eq!(select_input_config(&[], 1, 16_000), Err(DeviceError::UnsupportedChannels));
}

#[test]
fn chunk_holds_whole_frames() {
    let chunk = AudioChunk { samples: vec![0; 960], sample_rate: 48_000, channels: 2 };
    assert!(chunk.is_valid());
    assert_eq!(chunk.frames(), 480);
    assert!(!AudioChunk { samples: vec![0; 961], sample_rate: 48_000, channels: 2 }.is_valid());
    assert!(!AudioChunk { samples: vec![0; 960], sample_rate: 0, channels: 2 }.is_valid());
    assert!(!AudioChunk { samples: vec![], sample_rate: 48_000, channels: 0 }.is_valid());
}

#[test]
fn recorder_refuses_a_second_start_and_a_stop_at_rest() {
    let configs = [range(1, 8_000, 48_000)];
    let mut recorder = AudioRecorder::default();
    assert_eq!(recorder.stop(10), Err(RecorderError::NotRecording));
    let plan = recorder.start(&configs).unwrap();
    assert_eq!(
        plan,
        StartPlan {
            choice: StreamChoice { index: 0, sample_rate: 16_000 },
            ring_capacity: 9_600_000
        }
    );
    assert!(!recorder.is_recording());
    recorder.stream_started();
    assert!(recorder.is_recording());
    assert_eq!(recorder.start(&configs), Err(RecorderError::AlreadyRecording));
    let plan = recorder.stop(10).unwrap();
    assert_eq!(plan, pass_through(10));
    assert!(plan.is_pass_through());
    assert!(!recorder.is_recording());
    assert_eq!(RecorderError::AlreadyRecording.message(), "Grabación ya en curso");
    assert_eq!(RecorderError::NotRecording.message(), "No se está grabando");
}

#[test]
fn recorder_resamples_only_what_differs_and_exists() {
    let configs = [range(1, 44_100, 48_000)];
    let mut recorder = AudioRecorder::new(16_000, 1);
    assert_eq!(recorder.requested_sample_rate(), 16_000);
    assert_eq!(recorder.channels(), 1);
    let plan = recorder.start(&configs).unwrap();
    assert_eq!(plan.choice.sample_rate, 48_000);
    assert_eq!(plan.ring_capacity, 48_000 * 600);
    assert_eq!(recorder.device_sample_rate(), 48_000);
    recorder.stream_started();
    let plan = recorder.stop(480).unwrap();
    assert_eq!(
        plan,
        StopPlan {
            downmix: None,
            mono_frames: 480,
            resample: Some(RateChange { from_rate: 48_000, to_rate: 16_000 }),
        }
    );
    assert!(!plan.is_pass_through());
    recorder.stream_started();
    assert_eq!(recorder.stop(0), Ok(pass_through(0)));
    assert_eq!(
        AudioRecorder::new(16_000, 2).start(&configs),
        Err(RecorderError::UnsupportedChannels)
    );
}

#[test]
fn zero_copy_recorder_fills_and_finalizes_its_region() {
    let configs = [range(1, 8_000, 48_000)];
    let mut recorder = ZeroCopyAudioRecorder::new(16_000, 1, 1).unwrap();
    assert_eq!(recorder.stop(), Err(RecorderError::NotRecording));
    assert_eq!(recorder.start(&configs), Ok(StreamChoice { index: 0, sample_rate: 16_000 }));
    recorder.stream_started();
    assert_eq!(recorder.start(&configs), Err(RecorderError::AlreadyRecording));
    assert_eq!(recorder.on_audio(&vec![1; 10_000]), 10_000);
    assert_eq!(recorder.on_audio(&vec![2; 10_000]), 6_000);
    assert_eq!(recorder.on_audio(&[3]), 0);
    assert_eq!(recorder.get_available_samples(), 16_000);
    assert_eq!(recorder.get_capacity(), 16_000);
    assert_eq!(recorder.poll_data(), DataWait::Ready);
    assert_eq!(recorder.stop(), Ok(pass_through(16_000)));
    assert!(recorder.is_finalized());
    assert!(!recorder.is_recording());
    assert_eq!(recorder.on_audio(&[4]), 0);
    assert_eq!(recorder.poll_data(), DataWait::Closed);
    // The region has served its session: a new one needs a new recorder.
    assert_eq!(recorder.start(&configs), Err(RecorderError::RegionFinalized));
    assert_eq!(recorder.get_available_samples(), 16_000);
    assert!(recorder.is_finalized());
    assert_eq!(
        RecorderError::RegionFinalized.message(),
        "La memoria compartida ya fue finalizada"
    );
}

#[test]
fn stereo_recording_is_downmixed_and_then_resampled() {
    // Requested 16 kHz; the device offers 44.1 kHz and 48 kHz stereo only.
    let configs = [range(2, 44_100, 44_100), range(2, 48_000, 48_000)];
    let mut recorder = AudioRecorder::new(16_000, 2);
    let plan = recorder.start(&configs).unwrap();
    assert_eq!(plan.choice, StreamChoice { index: 1, sample_rate: 48_000 });
    recorder.stream_started();
    assert_eq!(
        recorder.stop(96_000),
        Ok(StopPlan {
            downmix: Some(2),
            mono_frames: 48_000,
            resample: Some(RateChange { from_rate: 48_000, to_rate: 16_000 }),
        })
    );
    // At the requested rate only the downmix is left; a last frame that is
    // not whole counts.
    let mut same_rate = AudioRecorder::new(48_000, 2);
    same_rate.start(&configs).unwrap();
    same_rate.stream_started();
    assert_eq!(
        same_rate.stop(5),
        Ok(StopPlan { downmix: Some(2), mono_frames: 3, resample: None })
    );
    same_rate.stream_started();
    assert_eq!(same_rate.stop(0), Ok(pass_through(0)));
}

#[test]
fn zero_copy_recorder_plans_the_downmix_too() {
    let configs = [range(2, 48_000, 48_000)];
    let mut recorder = ZeroCopyAudioRecorder::new(16_000, 2, 1).unwrap();
    assert_eq!(recorder.poll_data(), DataWait::Pending);
    recorder.start(&configs).unwrap();
    recorder.stream_started();
    assert_eq!(recorder.plan_audio(&[1; 96]), WritePlan { offset: 0, count: 96 });
    assert_eq!(recorder.on_audio(&[1; 96]), 96);
    assert_eq!(recorder.plan_audio(&[1; 16_000]), WritePlan { offset: 96, count: 15_904 });
    assert_eq!(
        recorder.stop(),
        Ok(StopPlan {
            downmix: Some(2),
            mono_frames: 48,
            resample: Some(RateChange { from_rate: 48_000, to_rate: 16_000 }),
        })
    );
}

#[test]
fn recorder_needs_a_ring_it_can_allocate() {
    // A range that tops out at a rate of zero leaves no ring to make.
    let configs = [range(1, 0, 0)];
    let mut recorder = AudioRecorder::new(16_000, 1);
    assert_eq!(recorder.start(&configs), Err(RecorderError::RingUnavailable));
    assert!(!recorder.is_recording());
    assert_eq!(recorder.device_sample_rate(), 0);
    assert_eq!(recorder.requested_sample_rate(), 16_000);
    assert_eq!(recorder.channels(), 1);
    assert_eq!(
        RecorderError::RingUnavailable.message(),
        "No se pudo reservar el búfer de audio"
    );
}

#[test]
fn zero_copy_recorder_refuses_a_region_beyond_the_address_space() {
    assert!(matches!(
        ZeroCopyAudioRecorder::new(u32::MAX, 1, u32::MAX),
        Err(RecorderError::RegionTooLarge)
    ));
    assert!(ZeroCopyAudioRecorder::new(16_000, 1, 600).is_ok());
    let mut recorder = ZeroCopyAudioRecorder::new(16_000, 2, 1).unwrap();
    assert_eq!(
        recorder.start(&[range(1, 8_000, 48_000)]),
        Err(RecorderError::UnsupportedChannels)
    );
}
