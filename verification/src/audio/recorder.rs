//! Book-keeping of a recorder: whether it records, at which rate the device
//! was opened, and what has to happen when it starts and stops.

use crate::audio::devices::{
    is_best_range, select_input_config, spec_target_rate, DeviceError, InputConfigRange, StreamChoice,
};
use crate::audio::resampler::{count_mono_frames, spec_mono_frames};
use crate::audio::ring::{ring_capacity, spec_ring_capacity};
use crate::audio::shared_region::{
    region_wf, spec_after_write, spec_writable, DataWait, RegionModel, SharedAudioBuffer,
    SharedMemError, WritePlan,
};
use vstd::prelude::*;

verus! {

/// Sample rate asked for when nothing else is.
pub const DEFAULT_SAMPLE_RATE: u32 = 16_000;

/// Channels asked for when nothing else is.
pub const DEFAULT_CHANNELS: u16 = 1;

/// Longest recording of the zero-copy recorder when nothing else is asked
/// for, in seconds.
pub const DEFAULT_MAX_DURATION_SEC: u32 = 600;

/// Why a recorder refuses.
#[derive(Debug, Clone, Copy, PartialEq, Eq, Structural)]
pub enum RecorderError {
    /// A recording is under way already.
    AlreadyRecording,
    /// No recording is under way.
    NotRecording,
    /// The device supports no format with the requested channels.
    UnsupportedChannels,
    /// The ring for the device's rate cannot be allocated.
    RingUnavailable,
    /// The shared region would not fit the address space.
    RegionTooLarge,
    /// The shared region belongs to a session that has ended.
    RegionFinalized,
}

impl RecorderError {
    /// The message of the error.
    pub open spec fn spec_message(self) -> Seq<char> {
        match self {
            RecorderError::AlreadyRecording => "Grabación ya en curso"@,
            RecorderError::NotRecording => "No se está grabando"@,
            RecorderError::UnsupportedChannels =>
                "No se encontró configuración soportada para los canales pedidos"@,
            RecorderError::RingUnavailable => "No se pudo reservar el búfer de audio"@,
            RecorderError::RegionTooLarge => "La memoria compartida pedida es demasiado grande"@,
            RecorderError::RegionFinalized => "La memoria compartida ya fue finalizada"@,
        }
    }

    /// The message of the error.
    pub fn message(&self) -> (r: &'static str)
        ensures
            r@ == self.spec_message(),
    {
        match self {
            RecorderError::AlreadyRecording => "Grabación ya en curso",
            RecorderError::NotRecording => "No se está grabando",
            RecorderError::UnsupportedChannels =>
                "No se encontró configuración soportada para los canales pedidos",
            RecorderError::RingUnavailable => "No se pudo reservar el búfer de audio",
            RecorderError::RegionTooLarge => "La memoria compartida pedida es demasiado grande",
            RecorderError::RegionFinalized => "La memoria compartida ya fue finalizada",
        }
    }
}

/// How the device is to be opened.
#[derive(Debug, Clone, Copy, PartialEq, Eq, Structural)]
pub struct StartPlan {
    /// The range and the rate to open the device with.
    pub choice: StreamChoice,
    /// The capacity of the ingress ring, in samples.
    pub ring_capacity: usize,
}

/// A change of sample rate.
#[derive(Debug, Clone, Copy, PartialEq, Eq, Structural)]
pub struct RateChange {
    /// The rate the audio is at.
    pub from_rate: u32,
    /// The rate the audio is to be brought to.
    pub to_rate: u32,
}

/// What is to be done with the audio once recording has stopped, in this
/// order: the channels of each frame are averaged into one, then the mono
/// audio is brought to the requested rate.
#[derive(Debug, Clone, Copy, PartialEq, Eq, Structural)]
pub struct StopPlan {
    /// The channels per frame that are to be averaged into one; `None` where
    /// the audio is mono already or there is none.
    pub downmix: Option<u16>,
    /// The mono frames that the captured samples make.
    pub mono_frames: usize,
    /// The change of rate to apply to the mono audio; `None` where it is at
    /// the requested rate already or there is none.
    pub resample: Option<RateChange>,
}

impl StopPlan {
    /// True when the captured audio is handed on as it is.
    pub fn is_pass_through(&self) -> (r: bool)
        ensures
            r == (self.downmix is None && self.resample is None),
    {
        self.downmix.is_none() && self.resample.is_none()
    }
}

/// The recorder as contracts see it.
pub struct RecorderModel {
    /// The rate the caller wants the audio at.
    pub requested_sample_rate: u32,
    /// The rate the device was opened with; zero before the first start.
    pub device_sample_rate: u32,
    /// The channels asked of the device.
    pub channels: u16,
    /// Whether a recording is under way.
    pub is_recording: bool,
}

/// Book-keeper of a recorder that moves audio through the ingress ring.
#[derive(Debug, Clone, Copy, PartialEq, Eq, Structural)]
pub struct AudioRecorder {
    requested_sample_rate: u32,
    device_sample_rate: u32,
    channels: u16,
    is_recording: bool,
}

impl View for AudioRecorder {
    type V = RecorderModel;

    closed spec fn view(&self) -> RecorderModel {
        RecorderModel {
            requested_sample_rate: self.requested_sample_rate,
            device_sample_rate: self.device_sample_rate,
            channels: self.channels,
            is_recording: self.is_recording,
        }
    }
}

/// What stopping a recorder in state `m` asks for when `raw_len` interleaved
/// samples were captured: a downmix where frames hold more than one channel,
/// and a change of rate where the device rate is not the requested one.
pub open spec fn spec_stop_plan(m: RecorderModel, raw_len: nat) -> StopPlan {
    StopPlan {
        downmix: if m.channels > 1 && raw_len > 0 {
            Some(m.channels)
        } else {
            None
        },
        mono_frames: if m.channels > 1 {
            spec_mono_frames(raw_len, m.channels) as usize
        } else {
            raw_len as usize
        },
        resample: if m.device_sample_rate != m.requested_sample_rate && raw_len > 0 {
            Some(RateChange { from_rate: m.device_sample_rate, to_rate: m.requested_sample_rate })
        } else {
            None
        },
    }
}

impl AudioRecorder {
    /// A recorder that is not recording.
    pub fn new(sample_rate: u32, channels: u16) -> (r: Self)
        ensures
            r@ == (RecorderModel {
                requested_sample_rate: sample_rate,
                device_sample_rate: 0,
                channels,
                is_recording: false,
            }),
    {
        AudioRecorder {
            requested_sample_rate: sample_rate,
            device_sample_rate: 0,
            channels,
            is_recording: false,
        }
    }

    /// Whether a recording is under way.
    pub fn is_recording(&self) -> (r: bool)
        ensures
            r == self@.is_recording,
    {
        self.is_recording
    }

    /// The rate the device was opened with.
    pub fn device_sample_rate(&self) -> (r: u32)
        ensures
            r == self@.device_sample_rate,
    {
        self.device_sample_rate
    }

    /// The rate the caller wants the audio at.
    pub fn requested_sample_rate(&self) -> (r: u32)
        ensures
            r == self@.requested_sample_rate,
    {
        self.requested_sample_rate
    }

    /// The channels asked of the device.
    pub fn channels(&self) -> (r: u16)
        ensures
            r == self@.channels,
    {
        self.channels
    }

    /// Prepares a recording on a device that supports `configs`: chooses the
    /// format, notes the rate, and sizes the ring. Refused while a recording
    /// is under way; the recorder then stays as it is.
    pub fn start(&mut self, configs: &[InputConfigRange]) -> (r: Result<StartPlan, RecorderError>)
        ensures
            old(self)@.is_recording ==> r == Err::<StartPlan, RecorderError>(
                RecorderError::AlreadyRecording,
            ) && final(self)@ == old(self)@,
            !old(self)@.is_recording ==> match r {
                Ok(plan) => {
                    &&& is_best_range(configs@, old(self)@.channels, plan.choice.index as int)
                    &&& plan.choice.sample_rate == spec_target_rate(
                        configs@[plan.choice.index as int],
                        old(self)@.requested_sample_rate,
                    )
                    &&& spec_ring_capacity(plan.choice.sample_rate) == Some(plan.ring_capacity)
                    &&& final(self)@ == (RecorderModel {
                        device_sample_rate: plan.choice.sample_rate,
                        ..old(self)@
                    })
                },
                Err(RecorderError::UnsupportedChannels) => {
                    &&& forall|j: int|
                        0 <= j < configs@.len() ==> configs@[j].channels != old(self)@.channels
                    &&& final(self)@ == old(self)@
                },
                Err(RecorderError::RingUnavailable) => exists|j: int|
                    {
                        &&& is_best_range(configs@, old(self)@.channels, j)
                        &&& spec_ring_capacity(
                            spec_target_rate(configs@[j], old(self)@.requested_sample_rate),
                        ) is None
                        &&& final(self)@ == (RecorderModel {
                            device_sample_rate: spec_target_rate(
                                configs@[j],
                                old(self)@.requested_sample_rate,
                            ),
                            ..old(self)@
                        })
                    },
                Err(_) => false,
            },
    {
        if self.is_recording {
            return Err(RecorderError::AlreadyRecording);
        }
        let choice: StreamChoice = match select_input_config(
            configs,
            self.channels,
            self.requested_sample_rate,
        ) {
            Ok(choice) => choice,
            Err(_) => {
                return Err(RecorderError::UnsupportedChannels);
            },
        };
        self.device_sample_rate = choice.sample_rate;
        match ring_capacity(choice.sample_rate) {
            Some(capacity) => Ok(StartPlan { choice, ring_capacity: capacity }),
            None => Err(RecorderError::RingUnavailable),
        }
    }

    /// Notes that the device is delivering audio.
    pub fn stream_started(&mut self)
        ensures
            final(self)@ == (RecorderModel { is_recording: true, ..old(self)@ }),
    {
        self.is_recording = true;
    }

    /// Ends the recording and says what is to be done with the `raw_len`
    /// interleaved samples that were captured, so that mono audio at the
    /// requested rate comes out. Refused when no recording is under way.
    pub fn stop(&mut self, raw_len: usize) -> (r: Result<StopPlan, RecorderError>)
        ensures
            !old(self)@.is_recording ==> r == Err::<StopPlan, RecorderError>(
                RecorderError::NotRecording,
            ) && final(self)@ == old(self)@,
            old(self)@.is_recording ==> r == Ok::<StopPlan, RecorderError>(
                spec_stop_plan(old(self)@, raw_len as nat),
            ) && final(self)@ == (RecorderModel { is_recording: false, ..old(self)@ }),
    {
        if !self.is_recording {
            return Err(RecorderError::NotRecording);
        }
        self.is_recording = false;
        let downmix: Option<u16> = if self.channels > 1 && raw_len > 0 {
            Some(self.channels)
        } else {
            None
        };
        let mono_frames: usize = if self.channels > 1 {
            count_mono_frames(raw_len, self.channels)
        } else {
            raw_len
        };
        let resample: Option<RateChange> = if self.device_sample_rate != self.requested_sample_rate
            && raw_len > 0 {
            Some(
                RateChange {
                    from_rate: self.device_sample_rate,
                    to_rate: self.requested_sample_rate,
                },
            )
        } else {
            None
        };
        Ok(StopPlan { downmix, mono_frames, resample })
    }
}

impl Default for AudioRecorder {
    fn default() -> (r: Self)
        ensures
            r@ == (RecorderModel {
                requested_sample_rate: DEFAULT_SAMPLE_RATE,
                device_sample_rate: 0,
                channels: DEFAULT_CHANNELS,
                is_recording: false,
            }),
    {
        AudioRecorder::new(DEFAULT_SAMPLE_RATE, DEFAULT_CHANNELS)
    }
}

/// Book-keeper of a recorder that exposes its audio through the shared
/// region.
pub struct ZeroCopyAudioRecorder {
    recorder: AudioRecorder,
    shared_buffer: SharedAudioBuffer,
}

impl ZeroCopyAudioRecorder {
    /// The recorder's own state.
    pub closed spec fn spec_recorder(&self) -> RecorderModel {
        self.recorder@
    }

    /// The state of the shared region.
    pub closed spec fn spec_region(&self) -> RegionModel {
        self.shared_buffer@
    }

    /// The invariant that every method keeps.
    pub open spec fn wf(&self) -> bool {
        region_wf(self.spec_region())
    }

    /// A recorder with an empty region for `max_duration_sec` seconds at
    /// `sample_rate`.
    pub fn new(sample_rate: u32, channels: u16, max_duration_sec: u32) -> (r: Result<
        Self,
        RecorderError,
    >)
        ensures
            sample_rate * max_duration_sec * 4 > usize::MAX ==> r is Err && r->Err_0
                == RecorderError::RegionTooLarge,
            sample_rate * max_duration_sec * 4 <= usize::MAX ==> r is Ok && r->Ok_0.wf()
                && r->Ok_0.spec_recorder() == (RecorderModel {
                requested_sample_rate: sample_rate,
                device_sample_rate: 0,
                channels,
                is_recording: false,
            }) && r->Ok_0.spec_region() == (RegionModel {
                capacity: (sample_rate * max_duration_sec) as nat,
                write_pos: 0,
                finalized: false,
                written: Seq::<u32>::empty(),
            }),
    {
        assert(sample_rate as nat * max_duration_sec as nat <= 0xFFFF_FFFF * 0xFFFF_FFFF)
            by (nonlinear_arith)
            requires
                sample_rate <= 0xFFFF_FFFF,
                max_duration_sec <= 0xFFFF_FFFF,
        ;
        let wide: u64 = (sample_rate as u64) * (max_duration_sec as u64);
        if wide > (usize::MAX / 4) as u64 {
            return Err(RecorderError::RegionTooLarge);
        }
        match SharedAudioBuffer::new(wide as usize) {
            Ok(shared_buffer) => Ok(
                ZeroCopyAudioRecorder {
                    recorder: AudioRecorder::new(sample_rate, channels),
                    shared_buffer,
                },
            ),
            Err(_) => Err(RecorderError::RegionTooLarge),
        }
    }

    /// Whether a recording is under way.
    pub fn is_recording(&self) -> (r: bool)
        ensures
            r == self.spec_recorder().is_recording,
    {
        self.recorder.is_recording()
    }

    /// Samples the region can hold.
    pub fn get_capacity(&self) -> (n: usize)
        ensures
            n == self.spec_region().capacity,
    {
        self.shared_buffer.get_capacity()
    }

    /// Says what a reader that waits for data is to do.
    pub fn poll_data(&self) -> (r: DataWait)
        ensures
            r == if self.spec_region().finalized {
                DataWait::Closed
            } else if self.spec_region().write_pos > 0 {
                DataWait::Ready
            } else {
                DataWait::Pending
            },
    {
        self.shared_buffer.poll_data()
    }

    /// Says where audio from the device has to go in the region and how much
    /// of it; nothing is published yet.
    pub fn plan_audio(&self, samples: &[u32]) -> (plan: WritePlan)
        requires
            self.wf(),
        ensures
            plan.offset == self.spec_region().write_pos,
            plan.count == spec_writable(self.spec_region(), samples@.len()),
            plan.offset + plan.count <= self.spec_region().capacity,
    {
        self.shared_buffer.plan_write(samples)
    }

    /// Samples written and published so far.
    pub fn get_available_samples(&self) -> (n: usize)
        ensures
            n == self.spec_region().write_pos,
    {
        self.shared_buffer.get_data_len()
    }

    /// Whether the region has been finalized.
    pub fn is_finalized(&self) -> (r: bool)
        ensures
            r == self.spec_region().finalized,
    {
        self.shared_buffer.is_finalized()
    }

    /// Prepares a recording on a device that supports `configs`: the region
    /// is emptied and the format chosen. Refused while a recording is under
    /// way, and refused once the region has been finalized, for a region
    /// serves one session; nothing changes then.
    pub fn start(&mut self, configs: &[InputConfigRange]) -> (r: Result<StreamChoice, RecorderError>)
        requires
            old(self).wf(),
        ensures
            final(self).wf(),
            old(self).spec_recorder().is_recording ==> r == Err::<StreamChoice, RecorderError>(
                RecorderError::AlreadyRecording,
            ) && final(self).spec_recorder() == old(self).spec_recorder() && final(self).spec_region() == old(self).spec_region(),
            !old(self).spec_recorder().is_recording && old(self).spec_region().finalized ==> r
                == Err::<StreamChoice, RecorderError>(RecorderError::RegionFinalized) && final(self).spec_recorder() == old(self).spec_recorder() && final(self).spec_region() == old(self).spec_region(),
            !old(self).spec_recorder().is_recording && !old(self).spec_region().finalized ==> final(self).spec_region() == (RegionModel {
                write_pos: 0,
                written: Seq::<u32>::empty(),
                ..old(self).spec_region()
            }) && match r {
                Ok(choice) => {
                    &&& is_best_range(
                        configs@,
                        old(self).spec_recorder().channels,
                        choice.index as int,
                    )
                    &&& choice.sample_rate == spec_target_rate(
                        configs@[choice.index as int],
                        old(self).spec_recorder().requested_sample_rate,
                    )
                    &&& final(self).spec_recorder() == (RecorderModel {
                        device_sample_rate: choice.sample_rate,
                        ..old(self).spec_recorder()
                    })
                },
                Err(e) => {
                    &&& e == RecorderError::UnsupportedChannels
                    &&& forall|j: int|
                        0 <= j < configs@.len() ==> configs@[j].channels != old(self).spec_recorder().channels
                    &&& final(self).spec_recorder() == old(self).spec_recorder()
                },
            },
    {
        if self.recorder.is_recording {
            return Err(RecorderError::AlreadyRecording);
        }
        if !self.shared_buffer.reset() {
            return Err(RecorderError::RegionFinalized);
        }
        match select_input_config(
            configs,
            self.recorder.channels,
            self.recorder.requested_sample_rate,
        ) {
            Ok(choice) => {
                self.recorder.device_sample_rate = choice.sample_rate;
                Ok(choice)
            },
            Err(_) => Err(RecorderError::UnsupportedChannels),
        }
    }

    /// Notes that the device is delivering audio.
    pub fn stream_started(&mut self)
        ensures
            final(self).spec_recorder() == (RecorderModel {
                is_recording: true,
                ..old(self).spec_recorder()
            }),
            final(self).spec_region() == old(self).spec_region(),
    {
        self.recorder.stream_started();
    }

    /// Takes audio from the device: writes what fits into the region and
    /// returns how much that was. The reader is to be notified when the
    /// result is not zero.
    pub fn on_audio(&mut self, samples: &[u32]) -> (written: usize)
        requires
            old(self).wf(),
        ensures
            final(self).wf(),
            written == spec_writable(old(self).spec_region(), samples@.len()),
            final(self).spec_region() == spec_after_write(old(self).spec_region(), samples@),
            final(self).spec_recorder() == old(self).spec_recorder(),
    {
        self.shared_buffer.write_samples(samples)
    }

    /// Ends the recording: the region is finalized, and the plan says what is
    /// to be done with its content. Refused when no recording is under way.
    pub fn stop(&mut self) -> (r: Result<StopPlan, RecorderError>)
        ensures
            !old(self).spec_recorder().is_recording ==> r == Err::<StopPlan, RecorderError>(
                RecorderError::NotRecording,
            ) && final(self).spec_recorder() == old(self).spec_recorder() && final(self).spec_region() == old(self).spec_region(),
            old(self).spec_recorder().is_recording ==> r == Ok::<StopPlan, RecorderError>(
                spec_stop_plan(old(self).spec_recorder(), old(self).spec_region().write_pos),
            ) && final(self).spec_recorder() == (RecorderModel {
                is_recording: false,
                ..old(self).spec_recorder()
            }) && final(self).spec_region() == (RegionModel {
                finalized: true,
                ..old(self).spec_region()
            }),
    {
        if !self.recorder.is_recording {
            return Err(RecorderError::NotRecording);
        }
        let data_len: usize = self.shared_buffer.get_data_len();
        self.shared_buffer.finalize();
        self.recorder.stop(data_len)
    }
}

} // verus!
