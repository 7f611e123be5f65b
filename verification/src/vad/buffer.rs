//! Pre-roll and speech accumulation.
//!
//! While nothing is being said, a bounded ring keeps the most recent audio.
//! When speech is confirmed the ring's contents open the segment, so that the
//! first syllable is not clipped; from then on samples are appended until a
//! cap is reached.

use ringbuffer::AllocRingBuffer;
use ringbuffer::RingBuffer;
use vstd::prelude::*;
use vstd::slice::slice_subrange;
use vstd::slice::slice_to_vec;

verus! {

/// The ring of the `ringbuffer` crate, opaque to the verifier.
#[verifier::external_type_specification]
#[verifier::external_body]
#[verifier::reject_recursive_types(T)]
pub struct ExAllocRingBuffer<T>(AllocRingBuffer<T>);

/// What a ring holds, oldest first.
pub uninterp spec fn ring_items(ring: AllocRingBuffer<u32>) -> Seq<u32>;

/// The number of items a ring was made to hold.
pub uninterp spec fn ring_capacity(ring: AllocRingBuffer<u32>) -> nat;

/// Makes an empty ring for `capacity` items.
///
/// Calls `AllocRingBuffer::new`, which panics on a capacity of zero and on one
/// whose allocation, rounded up to a power of two, exceeds the address space;
/// both are excluded here.
#[verifier::external_body]
fn ring_new(capacity: usize) -> (ring: AllocRingBuffer<u32>)
    requires
        0 < capacity <= isize::MAX / 8,
    ensures
        ring_items(ring) == Seq::<u32>::empty(),
        ring_capacity(ring) == capacity,
{
    AllocRingBuffer::new(capacity)
}

/// Appends one item; a full ring first gives up its oldest.
///
/// Calls `RingBuffer::push` of `AllocRingBuffer`.
#[verifier::external_body]
fn ring_push(ring: &mut AllocRingBuffer<u32>, value: u32)
    ensures
        ring_capacity(*final(ring)) == ring_capacity(*old(ring)),
        ring_items(*final(ring)) == if ring_items(*old(ring)).len() >= ring_capacity(*old(ring)) {
            ring_items(*old(ring)).skip(1).push(value)
        } else {
            ring_items(*old(ring)).push(value)
        },
{
    ring.push(value)
}

/// Copies the items out, oldest first.
///
/// Calls `RingBuffer::to_vec` of `AllocRingBuffer`.
#[verifier::external_body]
fn ring_to_vec(ring: &AllocRingBuffer<u32>) -> (items: Vec<u32>)
    ensures
        items@ == ring_items(*ring),
{
    ring.to_vec()
}

/// Empties the ring.
///
/// Calls `RingBuffer::clear` of `AllocRingBuffer`.
#[verifier::external_body]
fn ring_clear(ring: &mut AllocRingBuffer<u32>)
    ensures
        ring_capacity(*final(ring)) == ring_capacity(*old(ring)),
        ring_items(*final(ring)) == Seq::<u32>::empty(),
{
    ring.clear()
}

/// The last `n` items of `s`, or all of `s` when it has no more than `n`.
pub open spec fn keep_last(s: Seq<u32>, n: nat) -> Seq<u32> {
    if s.len() <= n {
        s
    } else {
        s.skip(s.len() - n)
    }
}

/// The number of samples that `duration_ms` milliseconds take at `sample_rate`.
pub open spec fn samples_for(sample_rate: u32, duration_ms: u64) -> nat {
    (sample_rate as nat * duration_ms as nat) / 1000
}

/// `n`, or the largest `usize` when `n` does not fit.
pub open spec fn saturated(n: nat) -> nat {
    if n > usize::MAX {
        usize::MAX as nat
    } else {
        n
    }
}

/// The duration in milliseconds of `len` samples at `sample_rate`. At a rate
/// of zero no duration exists: an empty buffer lasts 0 and any other lasts
/// the largest value.
pub open spec fn duration_ms_of(len: nat, sample_rate: u32) -> nat {
    if sample_rate == 0 {
        if len == 0 {
            0
        } else {
            u64::MAX as nat
        }
    } else {
        saturated_u64((len * 1000) / (sample_rate as nat))
    }
}

/// `n`, or the largest `u64` when `n` does not fit.
pub open spec fn saturated_u64(n: nat) -> nat {
    if n > u64::MAX {
        u64::MAX as nat
    } else {
        n
    }
}

/// The part of `samples` that still fits when `held` samples are held and at
/// most `max` may be.
pub open spec fn accepted(held: nat, max: nat, samples: Seq<u32>) -> Seq<u32> {
    if held >= max {
        Seq::<u32>::empty()
    } else if samples.len() <= max - held {
        samples
    } else {
        samples.take(max - held)
    }
}

/// The buffer as contracts see it.
pub struct SpeechBufferModel {
    /// The pre-roll, oldest sample first.
    pub pre_roll: Seq<u32>,
    /// The most samples the pre-roll keeps.
    pub pre_roll_capacity: nat,
    /// The segment accumulated so far.
    pub speech: Seq<u32>,
    /// The cap on appended speech.
    pub max_speech_samples: nat,
    /// Samples per second.
    pub sample_rate: u32,
}

/// Audio kept for one capture: a bounded pre-roll and the open segment.
pub struct SpeechBuffer {
    pre_speech: AllocRingBuffer<u32>,
    speech: Vec<u32>,
    max_speech_samples: usize,
    sample_rate: u32,
}

impl View for SpeechBuffer {
    type V = SpeechBufferModel;

    closed spec fn view(&self) -> SpeechBufferModel {
        SpeechBufferModel {
            pre_roll: ring_items(self.pre_speech),
            pre_roll_capacity: ring_capacity(self.pre_speech),
            speech: self.speech@,
            max_speech_samples: self.max_speech_samples as nat,
            sample_rate: self.sample_rate,
        }
    }
}

/// Dropping the oldest of a full window and appending is keeping the last
/// items of the longer sequence.
proof fn lemma_keep_last_push(s: Seq<u32>, n: nat, x: u32)
    requires
        n >= 1,
    ensures
        keep_last(s.push(x), n) == if keep_last(s, n).len() >= n {
            keep_last(s, n).skip(1).push(x)
        } else {
            keep_last(s, n).push(x)
        },
{
    if s.len() < n {
        assert(keep_last(s, n) == s);
    } else {
        let k = keep_last(s, n);
        assert(k.len() == n);
        assert(k.skip(1).push(x) =~= s.push(x).skip(s.len() + 1 - n));
    }
}

/// Counts the samples that `duration_ms` milliseconds take at `sample_rate`.
fn samples_in(sample_rate: u32, duration_ms: u64) -> (n: u128)
    ensures
        n == samples_for(sample_rate, duration_ms),
{
    assert(sample_rate as nat * duration_ms as nat <= 0xFFFF_FFFF * 0xFFFF_FFFF_FFFF_FFFF)
        by (nonlinear_arith)
        requires
            sample_rate <= 0xFFFF_FFFF,
            duration_ms <= 0xFFFF_FFFF_FFFF_FFFF,
    ;
    (sample_rate as u128) * (duration_ms as u128) / 1000
}

impl SpeechBuffer {
    /// The pre-roll never holds more than its capacity, which is at least
    /// one, and the segment never holds more than its cap.
    pub open spec fn wf(&self) -> bool {
        &&& self@.pre_roll_capacity >= 1
        &&& self@.pre_roll.len() <= self@.pre_roll_capacity
        &&& self@.speech.len() <= self@.max_speech_samples
    }

    /// An empty buffer whose pre-roll keeps `pre_speech_duration_ms` of audio
    /// (one sample at least) and whose segment is capped at
    /// `max_speech_duration_ms`.
    pub fn new(sample_rate: u32, pre_speech_duration_ms: u64, max_speech_duration_ms: u64) -> (r:
        Self)
        requires
            samples_for(sample_rate, pre_speech_duration_ms) <= isize::MAX / 8,
        ensures
            r.wf(),
            r@.pre_roll == Seq::<u32>::empty(),
            r@.speech == Seq::<u32>::empty(),
            r@.pre_roll_capacity == if samples_for(sample_rate, pre_speech_duration_ms) == 0 {
                1
            } else {
                samples_for(sample_rate, pre_speech_duration_ms)
            },
            r@.max_speech_samples == saturated(samples_for(sample_rate, max_speech_duration_ms)),
            r@.sample_rate == sample_rate,
    {
        let pre_wide: u128 = samples_in(sample_rate, pre_speech_duration_ms);
        let pre_speech_samples: usize = pre_wide as usize;
        let max_wide: u128 = samples_in(sample_rate, max_speech_duration_ms);
        let max_speech_samples: usize = if max_wide > usize::MAX as u128 {
            usize::MAX
        } else {
            max_wide as usize
        };
        let capacity: usize = if pre_speech_samples == 0 {
            1
        } else {
            pre_speech_samples
        };
        SpeechBuffer {
            pre_speech: ring_new(capacity),
            speech: Vec::new(),
            max_speech_samples,
            sample_rate,
        }
    }

    /// Feeds the pre-roll, which keeps the most recent samples only.
    pub fn push_pre_speech(&mut self, samples: &[u32])
        requires
            old(self).wf(),
        ensures
            final(self).wf(),
            final(self)@.pre_roll == keep_last(
                old(self)@.pre_roll + samples@,
                old(self)@.pre_roll_capacity,
            ),
            final(self)@.pre_roll_capacity == old(self)@.pre_roll_capacity,
            final(self)@.speech == old(self)@.speech,
            final(self)@.max_speech_samples == old(self)@.max_speech_samples,
            final(self)@.sample_rate == old(self)@.sample_rate,
    {
        let ghost before = ring_items(self.pre_speech);
        let ghost capacity = ring_capacity(self.pre_speech);
        proof {
            assert(before + samples@.take(0) =~= before);
        }
        let mut i: usize = 0;
        while i < samples.len()
            invariant
                0 <= i <= samples.len(),
                capacity >= 1,
                ring_capacity(self.pre_speech) == capacity,
                ring_items(self.pre_speech) == keep_last(before + samples@.take(i as int), capacity),
                self.speech == old(self).speech,
                self.max_speech_samples == old(self).max_speech_samples,
                self.sample_rate == old(self).sample_rate,
            decreases samples.len() - i,
        {
            proof {
                lemma_keep_last_push(before + samples@.take(i as int), capacity, samples@[i as int]);
                assert((before + samples@.take(i as int)).push(samples@[i as int]) =~= before
                    + samples@.take(i + 1));
            }
            ring_push(&mut self.pre_speech, samples[i]);
            i = i + 1;
        }
        proof {
            assert(samples@.take(samples.len() as int) =~= samples@);
        }
    }

    /// Opens a segment with what the pre-roll holds, in arrival order. Where
    /// the pre-roll holds more than the segment's cap allows, its newest
    /// samples are kept: they are the ones next to the speech.
    pub fn start_speech(&mut self)
        ensures
            final(self)@.speech == keep_last(old(self)@.pre_roll, old(self)@.max_speech_samples),
            final(self)@.speech.len() <= old(self)@.max_speech_samples,
            final(self)@.pre_roll == old(self)@.pre_roll,
            final(self)@.pre_roll_capacity == old(self)@.pre_roll_capacity,
            final(self)@.max_speech_samples == old(self)@.max_speech_samples,
            final(self)@.sample_rate == old(self)@.sample_rate,
            old(self).wf() ==> final(self).wf(),
    {
        let held: Vec<u32> = ring_to_vec(&self.pre_speech);
        if held.len() > self.max_speech_samples {
            let newest: &[u32] = slice_subrange(
                held.as_slice(),
                held.len() - self.max_speech_samples,
                held.len(),
            );
            proof {
                assert(newest@ =~= keep_last(held@, self.max_speech_samples as nat));
            }
            self.speech = slice_to_vec(newest);
        } else {
            self.speech = held;
        }
    }

    /// Appends to the segment as much of `samples` as the cap leaves room for.
    pub fn push_speech(&mut self, samples: &[u32])
        ensures
            final(self)@.speech == old(self)@.speech + accepted(
                old(self)@.speech.len(),
                old(self)@.max_speech_samples,
                samples@,
            ),
            final(self)@.pre_roll == old(self)@.pre_roll,
            final(self)@.pre_roll_capacity == old(self)@.pre_roll_capacity,
            final(self)@.max_speech_samples == old(self)@.max_speech_samples,
            final(self)@.sample_rate == old(self)@.sample_rate,
            old(self).wf() ==> final(self).wf(),
    {
        let held: usize = self.speech.len();
        if held < self.max_speech_samples {
            let remaining: usize = self.max_speech_samples - held;
            let to_add: usize = if samples.len() < remaining {
                samples.len()
            } else {
                remaining
            };
            let part = slice_subrange(samples, 0, to_add);
            proof {
                assert(samples@.subrange(0, to_add as int) =~= accepted(
                    held as nat,
                    self.max_speech_samples as nat,
                    samples@,
                ));
            }
            self.speech.extend_from_slice(part);
        } else {
            proof {
                assert(self.speech@ + Seq::<u32>::empty() =~= self.speech@);
            }
        }
    }

    /// Hands out the segment and leaves none.
    pub fn end_speech(&mut self) -> (speech: Vec<u32>)
        ensures
            speech@ == old(self)@.speech,
            final(self)@.speech == Seq::<u32>::empty(),
            final(self)@.pre_roll == old(self)@.pre_roll,
            final(self)@.pre_roll_capacity == old(self)@.pre_roll_capacity,
            final(self)@.max_speech_samples == old(self)@.max_speech_samples,
            final(self)@.sample_rate == old(self)@.sample_rate,
            old(self).wf() ==> final(self).wf(),
    {
        let mut speech: Vec<u32> = Vec::new();
        core::mem::swap(&mut self.speech, &mut speech);
        speech
    }

    /// True when the segment has reached its cap.
    pub fn is_at_capacity(&self) -> (r: bool)
        ensures
            r == (self@.speech.len() >= self@.max_speech_samples),
    {
        self.speech.len() >= self.max_speech_samples
    }

    /// Duration of the segment in milliseconds, rounded down.
    pub fn speech_duration_ms(&self) -> (r: u64)
        ensures
            r == duration_ms_of(self@.speech.len(), self@.sample_rate),
    {
        let len: usize = self.speech.len();
        if self.sample_rate == 0 {
            if len == 0 {
                0
            } else {
                u64::MAX
            }
        } else {
            let wide: u128 = (len as u128) * 1000 / (self.sample_rate as u128);
            if wide > u64::MAX as u128 {
                u64::MAX
            } else {
                wide as u64
            }
        }
    }

    /// Number of samples in the segment.
    pub fn speech_len(&self) -> (r: usize)
        ensures
            r == self@.speech.len(),
    {
        self.speech.len()
    }

    /// Empties the pre-roll and the segment.
    pub fn clear(&mut self)
        ensures
            final(self)@.pre_roll == Seq::<u32>::empty(),
            final(self)@.speech == Seq::<u32>::empty(),
            final(self)@.pre_roll_capacity == old(self)@.pre_roll_capacity,
            final(self)@.max_speech_samples == old(self)@.max_speech_samples,
            final(self)@.sample_rate == old(self)@.sample_rate,
            old(self).wf() ==> final(self).wf(),
    {
        ring_clear(&mut self.pre_speech);
        self.speech.clear();
    }

    /// True when the segment holds at least one sample.
    pub fn has_speech(&self) -> (r: bool)
        ensures
            r == (self@.speech.len() > 0),
    {
        self.speech.len() > 0
    }
}

impl Default for SpeechBuffer {
    /// Half a second of pre-roll and thirty seconds of speech at 16 kHz.
    fn default() -> (r: Self)
        ensures
            r.wf(),
            r@.pre_roll == Seq::<u32>::empty(),
            r@.speech == Seq::<u32>::empty(),
            r@.pre_roll_capacity == 8000,
            r@.max_speech_samples == 480000,
            r@.sample_rate == 16000,
    {
        SpeechBuffer::new(16000, 500, 30000)
    }
}

/// The pre-roll always ends with the samples that arrived last: after feeding
/// `samples`, the newest of them that fit are its tail.
pub proof fn lemma_pre_roll_keeps_newest(before: Seq<u32>, samples: Seq<u32>, capacity: nat)
    requires
        capacity >= 1,
        before.len() <= capacity,
    ensures
        keep_last(before + samples, capacity).len() <= capacity,
        samples.len() >= capacity ==> keep_last(before + samples, capacity) == keep_last(
            samples,
            capacity,
        ),
        samples.len() <= capacity ==> keep_last(before + samples, capacity).skip(
            keep_last(before + samples, capacity).len() - samples.len(),
        ) == samples,
{
    let all = before + samples;
    let kept = keep_last(all, capacity);
    if samples.len() >= capacity {
        assert(kept =~= keep_last(samples, capacity));
    }
    if samples.len() <= capacity {
        assert(kept.skip(kept.len() - samples.len()) =~= samples);
    }
}

} // verus!
