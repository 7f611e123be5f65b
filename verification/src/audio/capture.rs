//! What a capture is configured with and what the device hands over.

use vstd::prelude::*;

verus! {

/// Settings of a capture.
#[derive(Debug, Clone)]
pub struct CaptureConfig {
    /// The device to open; `None` opens the system's default input.
    pub device_id: Option<String>,
    /// How many chunks the channel between the device callback and the worker
    /// holds.
    pub buffer_size: usize,
}

impl Default for CaptureConfig {
    fn default() -> (r: Self)
        ensures
            r.device_id is None,
            r.buffer_size == 64,
    {
        CaptureConfig { device_id: None, buffer_size: 64 }
    }
}

/// Interleaved audio as the device delivers it.
#[derive(Debug, Clone)]
pub struct AudioChunk {
    /// Samples, frame by frame, each frame holding one sample per channel.
    pub samples: Vec<u32>,
    /// Samples per second and channel.
    pub sample_rate: u32,
    /// Channels per frame.
    pub channels: u16,
}

impl AudioChunk {
    /// A chunk holds whole frames at a positive rate.
    pub open spec fn wf(&self) -> bool {
        &&& self.sample_rate > 0
        &&& self.channels > 0
        &&& self.samples@.len() % (self.channels as nat) == 0
    }

    /// Tells whether the chunk holds whole frames at a positive rate.
    pub fn is_valid(&self) -> (r: bool)
        ensures
            r == self.wf(),
    {
        self.sample_rate > 0 && self.channels > 0 && self.samples.len() % (self.channels as usize)
            == 0
    }

    /// The number of frames in the chunk.
    pub fn frames(&self) -> (n: usize)
        requires
            self.wf(),
        ensures
            n == self.samples@.len() / (self.channels as nat),
            n * self.channels == self.samples@.len(),
    {
        let n: usize = self.samples.len() / (self.channels as usize);
        assert(n * self.channels == self.samples@.len()) by {
            vstd::arithmetic::div_mod::lemma_fundamental_div_mod(
                self.samples@.len() as int,
                self.channels as int,
            );
            assert(self.channels * n == n * self.channels) by (nonlinear_arith);
        }
        n
    }
}

} // verus!
