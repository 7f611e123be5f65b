//! Choosing an input device and the format to open it with.
//!
//! The platform enumerates devices and the ranges of formats each supports;
//! the choice among them is made here, on plain values.

use crate::config::AudioDeviceInfo;
use vstd::prelude::*;
use vstd::string::StringExecFns;

verus! {

/// One range of formats that a device supports.
#[derive(Debug, Clone, Copy, PartialEq, Eq, Structural)]
pub struct InputConfigRange {
    /// Channels per frame.
    pub channels: u16,
    /// Lowest supported sample rate.
    pub min_sample_rate: u32,
    /// Highest supported sample rate.
    pub max_sample_rate: u32,
}

/// The format chosen for a device.
#[derive(Debug, Clone, Copy, PartialEq, Eq, Structural)]
pub struct StreamChoice {
    /// Position of the chosen range among those offered.
    pub index: usize,
    /// The sample rate to open the device with.
    pub sample_rate: u32,
}

/// Why no device or format could be chosen.
#[derive(Debug, Clone, Copy, PartialEq, Eq, Structural)]
pub enum DeviceError {
    /// No device bears the requested identifier.
    NotFound,
    /// No supported range has the requested number of channels.
    UnsupportedChannels,
}

/// The rate to open a range with: the requested one where the range covers
/// it, else the highest the range offers.
pub open spec fn spec_target_rate(range: InputConfigRange, requested_rate: u32) -> u32 {
    if range.min_sample_rate <= requested_rate <= range.max_sample_rate {
        requested_rate
    } else {
        range.max_sample_rate
    }
}

/// True when `index` is the range to choose: it has the requested channels,
/// no range with those channels reaches a higher rate, and among equals it is
/// the last.
pub open spec fn is_best_range(configs: Seq<InputConfigRange>, channels: u16, index: int) -> bool {
    &&& 0 <= index < configs.len()
    &&& configs[index].channels == channels
    &&& forall|j: int|
        0 <= j < configs.len() && configs[j].channels == channels ==> configs[j].max_sample_rate
            <= configs[index].max_sample_rate
    &&& forall|j: int|
        index < j < configs.len() && configs[j].channels == channels ==> configs[j].max_sample_rate
            < configs[index].max_sample_rate
}

/// Chooses the format for a device: among the ranges with the requested
/// number of channels the one that reaches the highest rate, opened at the
/// requested rate where the range covers it and at its highest rate
/// otherwise.
pub fn select_input_config(configs: &[InputConfigRange], channels: u16, requested_rate: u32) -> (r:
    Result<StreamChoice, DeviceError>)
    ensures
        r is Ok ==> is_best_range(configs@, channels, r->Ok_0.index as int)
            && r->Ok_0.sample_rate == spec_target_rate(
            configs@[r->Ok_0.index as int],
            requested_rate,
        ),
        r is Err ==> r->Err_0 == DeviceError::UnsupportedChannels,
        r is Err <==> forall|j: int| 0 <= j < configs@.len() ==> configs@[j].channels != channels,
{
    let mut best: Option<usize> = None;
    let mut i: usize = 0;
    while i < configs.len()
        invariant
            0 <= i <= configs.len(),
            best is None ==> forall|j: int| 0 <= j < i ==> configs@[j].channels != channels,
            best is Some ==> is_best_range(configs@.take(i as int), channels, best->Some_0 as int),
        decreases configs.len() - i,
    {
        let candidate: InputConfigRange = configs[i];
        if candidate.channels == channels {
            let better: bool = match best {
                Some(b) => configs[b].max_sample_rate <= candidate.max_sample_rate,
                None => true,
            };
            if better {
                best = Some(i);
            }
        }
        i = i + 1;
    }
    proof {
        assert(configs@.take(configs.len() as int) =~= configs@);
    }
    match best {
        Some(index) => {
            let range: InputConfigRange = configs[index];
            let sample_rate: u32 = if range.min_sample_rate <= requested_rate && requested_rate
                <= range.max_sample_rate {
                requested_rate
            } else {
                range.max_sample_rate
            };
            Ok(StreamChoice { index, sample_rate })
        },
        None => Err(DeviceError::UnsupportedChannels),
    }
}

/// Which device to open.
#[derive(Debug, Clone, Copy, PartialEq, Eq, Structural)]
pub enum DeviceChoice {
    /// The system's default input.
    SystemDefault,
    /// The device at this position among those enumerated.
    Listed { index: usize },
}

/// Chooses the device to open: the first one whose name is the requested
/// identifier, or the system's default when none is requested.
pub fn select_input_device(names: &[String], device_id: Option<&str>) -> (r: Result<
    DeviceChoice,
    DeviceError,
>)
    ensures
        device_id is None ==> r == Ok::<DeviceChoice, DeviceError>(DeviceChoice::SystemDefault),
        device_id is Some ==> match r {
            Ok(DeviceChoice::Listed { index }) => {
                &&& index < names@.len()
                &&& names@[index as int]@ == device_id->Some_0@
                &&& forall|j: int| 0 <= j < index ==> names@[j]@ != device_id->Some_0@
            },
            Ok(DeviceChoice::SystemDefault) => false,
            Err(e) => {
                &&& e == DeviceError::NotFound
                &&& forall|j: int| 0 <= j < names@.len() ==> names@[j]@ != device_id->Some_0@
            },
        },
{
    match device_id {
        None => Ok(DeviceChoice::SystemDefault),
        Some(id) => {
            let wanted: String = String::from_str(id);
            let mut i: usize = 0;
            while i < names.len()
                invariant
                    0 <= i <= names.len(),
                    device_id == Some(id),
                    wanted@ == id@,
                    forall|j: int| 0 <= j < i ==> names@[j]@ != id@,
                decreases names.len() - i,
            {
                if names[i] == wanted {
                    return Ok(DeviceChoice::Listed { index: i });
                }
                i = i + 1;
            }
            Err(DeviceError::NotFound)
        },
    }
}

/// Describes the enumerated devices: each is identified by its name, and the
/// one that bears the default device's name is marked.
pub fn list_input_devices(names: &[String], default_name: Option<&str>) -> (devices: Vec<
    AudioDeviceInfo,
>)
    ensures
        devices@.len() == names@.len(),
        forall|i: int|
            0 <= i < names@.len() ==> {
                &&& (#[trigger] devices@[i]).id@ == names@[i]@
                &&& devices@[i].name@ == names@[i]@
                &&& devices@[i].is_default == (default_name is Some && default_name->Some_0@
                    == names@[i]@)
            },
{
    let mut devices: Vec<AudioDeviceInfo> = Vec::new();
    let mut i: usize = 0;
    while i < names.len()
        invariant
            0 <= i <= names.len(),
            devices@.len() == i,
            forall|k: int|
                0 <= k < i ==> {
                    &&& (#[trigger] devices@[k]).id@ == names@[k]@
                    &&& devices@[k].name@ == names@[k]@
                    &&& devices@[k].is_default == (default_name is Some && default_name->Some_0@
                        == names@[k]@)
                },
        decreases names.len() - i,
    {
        let name: &str = names[i].as_str();
        let is_default: bool = match default_name {
            Some(d) => String::from_str(d) == String::from_str(name),
            None => false,
        };
        devices.push(
            AudioDeviceInfo { id: String::from_str(name), name: String::from_str(name), is_default },
        );
        i = i + 1;
    }
    devices
}

} // verus!
