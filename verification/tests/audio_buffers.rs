use capture::audio::resampler::{
    CUTOFF_PERCENT, MIN_CHUNK_FRAMES, OUTPUT_MARGIN, OVERSAMPLING_FACTOR, SINC_LEN,
};
use capture::audio::shared_region::{BYTES_PER_SAMPLE, DEFAULT_CAPACITY_SAMPLES};
use capture::audio::{
    create, region_name, ring_capacity, AudioResampler, DataWait, FormatError, IngressRing,
    SharedAudioBuffer, SharedMemError, WritePlan, RING_SECONDS, WHISPER_CHANNELS, WHISPER_SAMPLE_RATE,
};

#[test]
fn test_no_resample_needed() {
    let resampler = AudioResampler::new(16000, 1).unwrap();
    assert!(!resampler.needs_resampling());
}

#[test]
fn test_resample_needed() {
    let resampler = AudioResampler::new(48000, 2).unwrap();
    assert!(resampler.needs_resampling());
}

#[test]
fn conditioner_targets_sixteen_kilohertz_mono() {
    assert_eq!(WHISPER_SAMPLE_RATE, 16_000);
    assert_eq!(WHISPER_CHANNELS, 1);
    assert_eq!(SINC_LEN, 256);
    assert_eq!(OVERSAMPLING_FACTOR, 256);
    assert_eq!(CUTOFF_PERCENT, 95);
    assert_eq!(OUTPUT_MARGIN, 10);
    let stereo = AudioResampler::new(16_000, 2).unwrap();
    assert!(stereo.needs_downmix());
    assert!(!stereo.needs_resampling());
    assert_eq!(stereo.input_sample_rate(), 16_000);
    assert_eq!(stereo.input_channels(), 2);
    assert!(!AudioResampler::new(48_000, 1).unwrap().needs_downmix());
}

#[test]
fn conditioner_refuses_a_format_without_rate_or_channels() {
    assert_eq!(AudioResampler::new(0, 1), Err(FormatError::ZeroSampleRate));
    assert_eq!(AudioResampler::new(0, 0), Err(FormatError::ZeroSampleRate));
    assert_eq!(AudioResampler::new(48_000, 0), Err(FormatError::NoChannels));
}

#[test]
fn stereo_frames_are_counted() {
    let resampler = AudioResampler::new(16_000, 2).unwrap();
    assert_eq!(resampler.mono_frames(4), 2);
    assert_eq!(resampler.mono_frames(5), 3);
    assert_eq!(resampler.mono_frames(0), 0);
    assert_eq!(AudioResampler::new(16_000, 1).unwrap().mono_frames(7), 7);
}

#[test]
fn filter_block_is_ten_milliseconds_but_not_too_small() {
    assert_eq!(MIN_CHUNK_FRAMES, 64);
    assert_eq!(AudioResampler::new(48_000, 2).unwrap().chunk_frames(), 480);
    assert_eq!(AudioResampler::new(44_100, 1).unwrap().chunk_frames(), 441);
    assert_eq!(AudioResampler::new(6_400, 1).unwrap().chunk_frames(), 64);
    assert_eq!(AudioResampler::new(4_000, 1).unwrap().chunk_frames(), 64);
}

#[test]
fn output_buffer_is_the_rounded_up_output_and_a_margin() {
    let from_48k = AudioResampler::new(48_000, 2).unwrap();
    assert_eq!(from_48k.output_capacity(480), Some(170));
    assert_eq!(from_48k.output_capacity(481), Some(171));
    assert_eq!(from_48k.output_capacity(48_000), Some(16_010));
    assert_eq!(from_48k.output_capacity(0), Some(10));
    let from_44k = AudioResampler::new(44_100, 1).unwrap();
    assert_eq!(from_44k.output_capacity(441), Some(170));
    let from_8k = AudioResampler::new(8_000, 1).unwrap();
    assert_eq!(from_8k.output_capacity(80), Some(170));
    assert_eq!(from_8k.output_capacity(usize::MAX), None);
}

#[test]
fn region_takes_what_fits_and_no_more() {
    let mut region = SharedAudioBuffer::new(10).unwrap();
    assert_eq!(region.get_capacity(), 10);
    assert_eq!(region.byte_size(), 40);
    assert_eq!(BYTES_PER_SAMPLE, 4);
    assert_eq!(region.plan_write(&[1, 2, 3]), WritePlan { offset: 0, count: 3 });
    assert_eq!(region.get_data_len(), 0);
    assert_eq!(region.write_samples(&[1, 2, 3]), 3);
    assert_eq!(region.write_samples(&[4; 6]), 6);
    assert_eq!(region.plan_write(&[5, 6, 7]), WritePlan { offset: 9, count: 1 });
    assert_eq!(region.write_samples(&[5, 6, 7]), 1);
    assert_eq!(region.write_samples(&[8]), 0);
    assert_eq!(region.get_data_len(), 10);
}

#[test]
fn finalized_region_takes_nothing_until_reset() {
    let mut region = SharedAudioBuffer::new(10).unwrap();
    region.write_samples(&[1, 2]);
    assert!(!region.is_finalized());
    region.finalize();
    assert!(region.is_finalized());
    assert_eq!(region.write_samples(&[3]), 0);
    assert_eq!(region.get_data_len(), 2);
    region.finalize();
    assert!(region.is_finalized());
    // A finalized region is not taken back into use.
    assert!(!region.reset());
    assert!(region.is_finalized());
    assert_eq!(region.get_data_len(), 2);
    assert_eq!(region.write_samples(&[3]), 0);
    assert_eq!(region.poll_data(), DataWait::Closed);
}

#[test]
fn open_region_can_be_emptied_before_its_session() {
    let mut region = SharedAudioBuffer::new(10).unwrap();
    region.write_samples(&[1, 2]);
    assert!(region.reset());
    assert!(!region.is_finalized());
    assert_eq!(region.get_data_len(), 0);
    assert_eq!(region.get_capacity(), 10);
    assert_eq!(region.write_samples(&[3]), 1);
}

#[test]
fn region_that_does_not_fit_the_address_space_is_refused() {
    assert!(matches!(SharedAudioBuffer::new(usize::MAX), Err(SharedMemError::TooLarge)));
    assert!(SharedAudioBuffer::new(usize::MAX / 4).is_ok());
    assert!(SharedAudioBuffer::new(0).is_ok());
    assert_eq!(DEFAULT_CAPACITY_SAMPLES, 16_000 * 600);
}

#[test]
fn region_is_named_after_the_process() {
    assert_eq!(region_name("4242"), "v2m_audio_4242");
}

#[test]
fn ring_holds_ten_minutes_of_device_audio() {
    assert_eq!(RING_SECONDS, 600);
    assert_eq!(ring_capacity(16_000), Some(9_600_000));
    assert_eq!(ring_capacity(48_000), Some(28_800_000));
    assert_eq!(ring_capacity(0), None);
    assert!(create(0).is_none());
}

#[test]
fn ring_delivers_in_order_and_drops_what_does_not_fit() {
    // One sample per second: room for 600.
    let (mut producer, mut consumer) = create(1).unwrap();
    let first: Vec<u32> = (0..400).collect();
    let second: Vec<u32> = (400..1000).collect();
    assert_eq!(producer.push_slice(&first), 400);
    assert_eq!(producer.push_slice(&second), 200);
    assert_eq!(producer.push_slice(&[9]), 0);
    let mut out = vec![77];
    assert_eq!(consumer.drain_into(&mut out), 600);
    assert_eq!(out[0], 77);
    assert_eq!(&out[1..], &(0..600).collect::<Vec<u32>>()[..]);
    assert_eq!(consumer.drain_into(&mut out), 0);
    assert_eq!(producer.push_slice(&[1, 2, 3]), 3);
    let mut again = Vec::new();
    assert_eq!(consumer.drain_into(&mut again), 3);
    assert_eq!(again, vec![1, 2, 3]);
}

#[test]
fn waiting_reader_is_told_what_to_do() {
    let mut region = SharedAudioBuffer::new(10).unwrap();
    assert_eq!(region.poll_data(), DataWait::Pending);
    region.write_samples(&[1]);
    assert_eq!(region.poll_data(), DataWait::Ready);
    region.finalize();
    assert_eq!(region.poll_data(), DataWait::Closed);
}

#[test]
fn whole_ring_is_a_bounded_queue() {
    assert!(IngressRing::new(0).is_none());
    let mut ring = IngressRing::new(5).unwrap();
    assert_eq!(ring.len(), 0);
    assert_eq!(ring.try_pop_one(), None);
    assert_eq!(ring.push_slice(&[1, 2, 3]), 3);
    assert_eq!(ring.push_slice(&[4, 5, 6, 7]), 2);
    assert_eq!(ring.push_slice(&[8]), 0);
    assert_eq!(ring.len(), 5);
    assert_eq!(ring.try_pop_one(), Some(1));
    assert_eq!(ring.push_slice(&[9, 10]), 1);
    let mut out = vec![0];
    assert_eq!(ring.drain_into(&mut out), 5);
    assert_eq!(out, vec![0, 2, 3, 4, 5, 9]);
    assert_eq!(ring.len(), 0);
    let (mut producer, mut consumer) = ring.split();
    assert_eq!(producer.push_slice(&[1, 2, 3, 4, 5, 6]), 5);
    let mut out = Vec::new();
    assert_eq!(consumer.drain_into(&mut out), 5);
    assert_eq!(out, vec![1, 2, 3, 4, 5]);
}

#[test]
fn split_ring_keeps_its_content_and_its_room() {
    let mut ring = IngressRing::new(4).unwrap();
    assert_eq!(ring.push_slice(&[1, 2, 3]), 3);
    let (mut producer, mut consumer) = ring.split();
    // Room for one sample is sure; the rest is dropped while nothing is taken.
    assert_eq!(producer.push_slice(&[7, 8]), 1);
    let mut out = vec![9];
    assert_eq!(consumer.drain_into(&mut out), 4);
    assert_eq!(out, vec![9, 1, 2, 3, 7]);
    // The consumer has made room for more than the producer was sure of.
    assert_eq!(producer.push_slice(&[10, 11, 12, 13, 14]), 4);
    let mut rest = Vec::new();
    assert_eq!(consumer.drain_into(&mut rest), 4);
    assert_eq!(rest, vec![10, 11, 12, 13]);
}

#[test]
fn new_ring_accepts_all_that_fits_whatever_the_consumer_does() {
    let (mut producer, mut consumer) = create(1).unwrap();
    let mut accepted = 0;
    let mut taken = Vec::new();
    for round in 0..10u32 {
        let block: Vec<u32> = (round * 100..round * 100 + 100).collect();
        accepted += producer.push_slice(&block);
        if round % 3 == 0 {
            consumer.drain_into(&mut taken);
        }
    }
    consumer.drain_into(&mut taken);
    // A thousand samples were offered to a ring of six hundred.
    assert!(accepted >= 600);
    assert_eq!(taken.len(), accepted);
    assert_eq!(taken, (0..accepted as u32).collect::<Vec<u32>>());
}
