//! The audio path: device formats, the ingress ring, the shared region, the
//! sizing of the format conditioner, and audible cues.

pub mod capture;
pub mod devices;
pub mod playback;
pub mod recorder;
pub mod ring;
pub mod resampler;
pub mod shared_region;

pub use capture::{AudioChunk, CaptureConfig};
pub use devices::{
    list_input_devices, select_input_config, select_input_device, DeviceChoice, DeviceError,
    InputConfigRange, StreamChoice,
};
pub use playback::{
    play_sound_if_enabled, SoundCue, CLIP_LEN, ERROR_SOUND, START_SOUND, STOP_SOUND, SUCCESS_SOUND,
};
pub use recorder::{
    AudioRecorder, RateChange, RecorderError, RecorderModel, StartPlan, StopPlan,
    ZeroCopyAudioRecorder,
};
pub use resampler::{AudioResampler, FormatError, WHISPER_CHANNELS, WHISPER_SAMPLE_RATE};
pub use ring::{create, ring_capacity, IngressRing, RingConsumer, RingProducer, RING_SECONDS};
pub use shared_region::{
    region_name, DataWait, RegionModel, SharedAudioBuffer, SharedMemError, WritePlan,
};
