//! Audible cues.
//!
//! Each cue is a short clip in WAV form: a 44-byte header for 8-bit mono audio
//! at 8 kHz and a burst of a square wave whose pitch tells the cues apart. The
//! library chooses the clip; playing it is left to the caller.

use vstd::prelude::*;

verus! {

/// Length in bytes of every clip: the header and 64 samples.
pub const CLIP_LEN: usize = 108;

/// A rising pair of tones: recording has begun.
pub const START_SOUND: [u8; 108] = [
    82, 73, 70, 70, 100, 0, 0, 0, 87, 65, 86, 69,
    102, 109, 116, 32, 16, 0, 0, 0, 1, 0, 1, 0,
    64, 31, 0, 0, 64, 31, 0, 0, 1, 0, 8, 0,
    100, 97, 116, 97, 64, 0, 0, 0, 192, 192, 192, 192,
    192, 192, 192, 192, 64, 64, 64, 64, 64, 64, 64, 64,
    192, 192, 192, 192, 192, 192, 192, 192, 64, 64, 64, 64,
    64, 64, 64, 64, 192, 192, 192, 192, 64, 64, 64, 64,
    192, 192, 192, 192, 64, 64, 64, 64, 192, 192, 192, 192,
    64, 64, 64, 64, 192, 192, 192, 192, 64, 64, 64, 64,
];

/// One low tone: recording has stopped.
pub const STOP_SOUND: [u8; 108] = [
    82, 73, 70, 70, 100, 0, 0, 0, 87, 65, 86, 69,
    102, 109, 116, 32, 16, 0, 0, 0, 1, 0, 1, 0,
    64, 31, 0, 0, 64, 31, 0, 0, 1, 0, 8, 0,
    100, 97, 116, 97, 64, 0, 0, 0, 192, 192, 192, 192,
    192, 192, 192, 192, 64, 64, 64, 64, 64, 64, 64, 64,
    192, 192, 192, 192, 192, 192, 192, 192, 64, 64, 64, 64,
    64, 64, 64, 64, 192, 192, 192, 192, 192, 192, 192, 192,
    64, 64, 64, 64, 64, 64, 64, 64, 192, 192, 192, 192,
    192, 192, 192, 192, 64, 64, 64, 64, 64, 64, 64, 64,
];

/// One high tone: the text is on the clipboard.
pub const SUCCESS_SOUND: [u8; 108] = [
    82, 73, 70, 70, 100, 0, 0, 0, 87, 65, 86, 69,
    102, 109, 116, 32, 16, 0, 0, 0, 1, 0, 1, 0,
    64, 31, 0, 0, 64, 31, 0, 0, 1, 0, 8, 0,
    100, 97, 116, 97, 64, 0, 0, 0, 192, 192, 64, 64,
    192, 192, 64, 64, 192, 192, 64, 64, 192, 192, 64, 64,
    192, 192, 64, 64, 192, 192, 64, 64, 192, 192, 64, 64,
    192, 192, 64, 64, 192, 192, 64, 64, 192, 192, 64, 64,
    192, 192, 64, 64, 192, 192, 64, 64, 192, 192, 64, 64,
    192, 192, 64, 64, 192, 192, 64, 64, 192, 192, 64, 64,
];

/// A falling pair of tones: something went wrong.
pub const ERROR_SOUND: [u8; 108] = [
    82, 73, 70, 70, 100, 0, 0, 0, 87, 65, 86, 69,
    102, 109, 116, 32, 16, 0, 0, 0, 1, 0, 1, 0,
    64, 31, 0, 0, 64, 31, 0, 0, 1, 0, 8, 0,
    100, 97, 116, 97, 64, 0, 0, 0, 192, 192, 192, 192,
    64, 64, 64, 64, 192, 192, 192, 192, 64, 64, 64, 64,
    192, 192, 192, 192, 64, 64, 64, 64, 192, 192, 192, 192,
    64, 64, 64, 64, 192, 192, 192, 192, 192, 192, 192, 192,
    64, 64, 64, 64, 64, 64, 64, 64, 192, 192, 192, 192,
    192, 192, 192, 192, 64, 64, 64, 64, 64, 64, 64, 64,
];

/// The moments at which the user hears something.
#[derive(Debug, Clone, Copy, PartialEq, Eq, Structural)]
pub enum SoundCue {
    /// Recording has begun.
    Start,
    /// Recording has stopped.
    Stop,
    /// The text was delivered.
    Success,
    /// Something went wrong.
    Error,
}

impl SoundCue {
    /// The clip of the cue as a sequence of bytes.
    pub open spec fn spec_bytes(self) -> Seq<u8> {
        match self {
            SoundCue::Start => START_SOUND@,
            SoundCue::Stop => STOP_SOUND@,
            SoundCue::Success => SUCCESS_SOUND@,
            SoundCue::Error => ERROR_SOUND@,
        }
    }

    /// The clip of the cue.
    pub fn get_bytes(&self) -> (r: &'static [u8])
        ensures
            r@ == self.spec_bytes(),
            r@.len() == CLIP_LEN,
    {
        match self {
            SoundCue::Start => {
                let clip: &'static [u8; 108] = &START_SOUND;
                clip.as_slice()
            },
            SoundCue::Stop => {
                let clip: &'static [u8; 108] = &STOP_SOUND;
                clip.as_slice()
            },
            SoundCue::Success => {
                let clip: &'static [u8; 108] = &SUCCESS_SOUND;
                clip.as_slice()
            },
            SoundCue::Error => {
                let clip: &'static [u8; 108] = &ERROR_SOUND;
                clip.as_slice()
            },
        }
    }
}

/// The clip to play for `cue`, or `None` when cues are switched off.
pub fn play_sound_if_enabled(cue: SoundCue, sound_enabled: bool) -> (r: Option<&'static [u8]>)
    ensures
        sound_enabled ==> r is Some && r->Some_0@ == cue.spec_bytes(),
        !sound_enabled ==> r is None,
{
    if sound_enabled {
        Some(cue.get_bytes())
    } else {
        None
    }
}

} // verus!
