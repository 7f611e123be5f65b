//! Speech regions of a finished recording.
//!
//! The recording is cut into frames of 10, 20 or 30 ms. A frame-level
//! detector says for each frame whether it holds voice; from those decisions
//! the regions of continuous speech are found, with a minimum run of voiced
//! frames to open a region and a minimum run of silent frames to close it.

use vstd::prelude::*;
use vstd::slice::slice_subrange;
use webrtc_vad::Vad;

verus! {

/// The frame-level detector of the `webrtc-vad` crate, opaque to the verifier.
#[verifier::external_type_specification]
#[verifier::external_body]
pub struct ExVad(Vad);

/// Sample rates that the frame-level detector takes.
#[derive(Debug, Clone, Copy, PartialEq, Eq, Structural)]
pub enum SampleRate {
    Rate8kHz,
    Rate16kHz,
    Rate32kHz,
    Rate48kHz,
}

/// How restrictive the detector is in reporting voice.
#[derive(Debug, Clone, Copy, PartialEq, Eq, Structural)]
pub enum Aggressiveness {
    Quality,
    LowBitrate,
    Aggressive,
    VeryAggressive,
}

/// Why the detector cannot be made or run.
#[derive(Debug, Clone, Copy, PartialEq, Eq, Structural)]
pub enum SegmentError {
    /// The sample rate is none of 8000, 16000, 32000 and 48000.
    InvalidSampleRate,
    /// The aggressiveness is none of 0, 1, 2 and 3.
    InvalidAggressiveness,
    /// The frame duration is none of 10, 20 and 30 ms.
    InvalidFrameDuration,
    /// The frame is empty or the detector refused its length.
    InvalidFrame,
    /// The two forms of the recording differ in length.
    LengthMismatch,
}

/// Makes a detector for a sample rate and an aggressiveness.
///
/// Calls `Vad::new_with_rate_and_mode`, which panics only when memory runs
/// out.
#[verifier::external_body]
fn vad_new(sample_rate: SampleRate, mode: Aggressiveness) -> (vad: Vad) {
    let rate = match sample_rate {
        SampleRate::Rate8kHz => webrtc_vad::SampleRate::Rate8kHz,
        SampleRate::Rate16kHz => webrtc_vad::SampleRate::Rate16kHz,
        SampleRate::Rate32kHz => webrtc_vad::SampleRate::Rate32kHz,
        SampleRate::Rate48kHz => webrtc_vad::SampleRate::Rate48kHz,
    };
    let mode = match mode {
        Aggressiveness::Quality => webrtc_vad::VadMode::Quality,
        Aggressiveness::LowBitrate => webrtc_vad::VadMode::LowBitrate,
        Aggressiveness::Aggressive => webrtc_vad::VadMode::Aggressive,
        Aggressiveness::VeryAggressive => webrtc_vad::VadMode::VeryAggressive,
    };
    Vad::new_with_rate_and_mode(rate, mode)
}

/// Asks the detector about one frame: `Some(true)` for voice, `Some(false)`
/// for none, `None` where the detector refuses the frame's length.
///
/// Calls `Vad::is_voice_segment`, which reads the first sample before it looks
/// at the length and so panics on an empty frame; that is excluded here. The
/// decision depends on the frames the detector has seen before, so nothing is
/// claimed of it.
#[verifier::external_body]
fn vad_is_voice_segment(vad: &mut Vad, frame: &[i16]) -> (decision: Option<bool>)
    requires
        frame@.len() > 0,
{
    vad.is_voice_segment(frame).ok()
}

/// Samples per second of a rate.
pub open spec fn spec_samples_per_sec(rate: SampleRate) -> u32 {
    match rate {
        SampleRate::Rate8kHz => 8_000,
        SampleRate::Rate16kHz => 16_000,
        SampleRate::Rate32kHz => 32_000,
        SampleRate::Rate48kHz => 48_000,
    }
}

/// True for the frame durations that the detector takes.
pub open spec fn valid_frame_ms(frame_ms: u32) -> bool {
    frame_ms == 10 || frame_ms == 20 || frame_ms == 30
}

/// Samples in a frame of `frame_ms` at `rate`.
pub open spec fn spec_frame_samples(rate: SampleRate, frame_ms: u32) -> nat {
    (spec_samples_per_sec(rate) as nat * frame_ms as nat) / 1000
}

/// What a scan of the frames knows after some of them.
pub struct Scan {
    /// Whether a region is open.
    pub in_speech: bool,
    /// First sample of the open region.
    pub speech_start: int,
    /// Voiced frames counted towards opening a region.
    pub speech_frames: int,
    /// Silent frames counted towards closing the open region.
    pub silence_frames: int,
    /// The regions closed so far, each from its first sample up to the one
    /// after its last.
    pub segments: Seq<(int, int)>,
}

/// A scan before its first frame.
pub open spec fn scan_start() -> Scan {
    Scan {
        in_speech: false,
        speech_start: 0,
        speech_frames: 0,
        silence_frames: 0,
        segments: Seq::<(int, int)>::empty(),
    }
}

/// A scan after the frame at `index` with the decision `is_voice`.
///
/// A voiced frame ends any run of silence and counts towards opening; once
/// `min_speech` are counted a region opens, dated back by `min_speech` frames
/// from the end of this one. A silent frame inside a region counts towards
/// closing; once `min_silence` are counted the region closes `min_silence`
/// frames before this one, and is kept if it is not empty. A silent frame
/// outside a region ends the run of voiced frames.
pub open spec fn scan_step(
    s: Scan,
    index: int,
    is_voice: bool,
    frame_samples: int,
    min_speech: int,
    min_silence: int,
) -> Scan {
    if is_voice {
        let counted = s.speech_frames + 1;
        if !s.in_speech && counted >= min_speech {
            Scan {
                in_speech: true,
                speech_start: (index - min_speech + 1) * frame_samples,
                speech_frames: counted,
                silence_frames: 0,
                ..s
            }
        } else {
            Scan { speech_frames: counted, silence_frames: 0, ..s }
        }
    } else if s.in_speech {
        let counted = s.silence_frames + 1;
        if counted >= min_silence {
            let speech_end = (index - min_silence) * frame_samples;
            Scan {
                in_speech: false,
                speech_frames: 0,
                silence_frames: counted,
                segments: if speech_end > s.speech_start {
                    s.segments.push((s.speech_start, speech_end))
                } else {
                    s.segments
                },
                ..s
            }
        } else {
            Scan { silence_frames: counted, ..s }
        }
    } else {
        Scan { speech_frames: 0, ..s }
    }
}

/// A scan after all the frames of `decisions`.
pub open spec fn scan(
    decisions: Seq<bool>,
    frame_samples: int,
    min_speech: int,
    min_silence: int,
) -> Scan
    decreases decisions.len(),
{
    if decisions.len() == 0 {
        scan_start()
    } else {
        scan_step(
            scan(decisions.drop_last(), frame_samples, min_speech, min_silence),
            decisions.len() - 1,
            decisions.last(),
            frame_samples,
            min_speech,
            min_silence,
        )
    }
}

/// The speech regions of a recording of `total_len` samples, given the
/// decision for each of its frames: the regions the scan closed and, where the
/// recording ends inside a region, that region up to the recording's end.
pub open spec fn spec_segments(
    decisions: Seq<bool>,
    frame_samples: int,
    total_len: int,
    min_speech: int,
    min_silence: int,
) -> Seq<(int, int)> {
    let s = scan(decisions, frame_samples, min_speech, min_silence);
    if s.in_speech {
        s.segments.push((s.speech_start, total_len))
    } else {
        s.segments
    }
}

/// The regions of `segments` as pairs of integers.
pub open spec fn segment_views(segments: Seq<(usize, usize)>) -> Seq<(int, int)> {
    segments.map_values(|p: (usize, usize)| (p.0 as int, p.1 as int))
}

/// What a scan keeps true: the counters never exceed the frames seen, every
/// closed region is non-empty and lies before the frames seen, the regions
/// follow each other without overlap, and an open region starts after the last
/// closed one and no later than the end of the frames seen.
pub open spec fn scan_wf(s: Scan, seen: int, frame_samples: int) -> bool {
    &&& 0 <= s.speech_frames <= seen
    &&& 0 <= s.silence_frames <= seen
    &&& s.in_speech ==> s.silence_frames < seen
    &&& s.in_speech ==> 0 <= s.speech_start <= seen * frame_samples
    &&& forall|i: int|
        0 <= i < s.segments.len() ==> 0 <= (#[trigger] s.segments[i]).0 < s.segments[i].1 <= seen
            * frame_samples
    &&& forall|i: int, j: int|
        0 <= i < j < s.segments.len() ==> (#[trigger] s.segments[i]).1 <= (
        #[trigger] s.segments[j]).0
    &&& s.in_speech ==> forall|i: int|
        0 <= i < s.segments.len() ==> (#[trigger] s.segments[i]).1 <= s.speech_start
    &&& s.in_speech ==> s.speech_start + s.silence_frames * frame_samples <= seen * frame_samples
    &&& !s.in_speech ==> forall|i: int|
        0 <= i < s.segments.len() ==> (#[trigger] s.segments[i]).1 + s.speech_frames
            * frame_samples <= seen * frame_samples
}

/// One frame keeps what a scan keeps true.
pub proof fn lemma_scan_step_wf(
    s: Scan,
    index: int,
    is_voice: bool,
    frame_samples: int,
    min_speech: int,
    min_silence: int,
)
    requires
        scan_wf(s, index, frame_samples),
        index >= 0,
        frame_samples > 0,
        min_speech >= 0,
        min_silence >= 0,
    ensures
        scan_wf(
            scan_step(s, index, is_voice, frame_samples, min_speech, min_silence),
            index + 1,
            frame_samples,
        ),
{
    let t = scan_step(s, index, is_voice, frame_samples, min_speech, min_silence);
    let f = frame_samples;
    assert((index + 1) * f == index * f + f) by (nonlinear_arith);
    if is_voice {
        let counted = s.speech_frames + 1;
        if !s.in_speech && counted >= min_speech {
            let start = (index - min_speech + 1) * f;
            assert(0 <= start <= (index + 1) * f) by (nonlinear_arith)
                requires
                    start == (index - min_speech + 1) * f,
                    0 <= min_speech <= index + 1,
                    f > 0,
                    index >= 0,
            ;
            assert(counted * f <= (min_speech + (counted - min_speech)) * f);
            assert forall|i: int| 0 <= i < t.segments.len() implies (#[trigger] t.segments[i]).1
                <= t.speech_start by {
                assert(s.segments[i].1 + s.speech_frames * f <= index * f);
                assert(start >= (index - s.speech_frames) * f) by (nonlinear_arith)
                    requires
                        start == (index - min_speech + 1) * f,
                        min_speech <= s.speech_frames + 1,
                        f > 0,
                ;
                assert((index - s.speech_frames) * f == index * f - s.speech_frames * f)
                    by (nonlinear_arith);
            }
            assert(t.silence_frames * f == 0) by (nonlinear_arith)
                requires
                    t.silence_frames == 0,
            ;
        } else {
            if s.in_speech {
                assert(t.silence_frames * f == 0) by (nonlinear_arith)
                    requires
                        t.silence_frames == 0,
                ;
            } else {
                assert((s.speech_frames + 1) * f == s.speech_frames * f + f) by (nonlinear_arith);
            }
        }
    } else if s.in_speech {
        let counted = s.silence_frames + 1;
        assert(counted * f == s.silence_frames * f + f) by (nonlinear_arith)
            requires
                counted == s.silence_frames + 1,
        ;
        if counted >= min_silence {
            let speech_end = (index - min_silence) * f;
            assert(speech_end <= index * f) by (nonlinear_arith)
                requires
                    speech_end == (index - min_silence) * f,
                    min_silence >= 0,
                    f > 0,
            ;
            assert(0 * f == 0) by (nonlinear_arith);
            assert(t.speech_frames * f == 0) by (nonlinear_arith)
                requires
                    t.speech_frames == 0,
            ;
        }
    } else {
        assert(t.speech_frames * f == 0) by (nonlinear_arith)
            requires
                t.speech_frames == 0,
        ;
    }
}

/// A scan keeps true what it is meant to, however long the recording.
pub proof fn lemma_scan_wf(
    decisions: Seq<bool>,
    frame_samples: int,
    min_speech: int,
    min_silence: int,
)
    requires
        frame_samples > 0,
        min_speech >= 0,
        min_silence >= 0,
    ensures
        scan_wf(
            scan(decisions, frame_samples, min_speech, min_silence),
            decisions.len() as int,
            frame_samples,
        ),
    decreases decisions.len(),
{
    if decisions.len() > 0 {
        lemma_scan_wf(decisions.drop_last(), frame_samples, min_speech, min_silence);
        lemma_scan_step_wf(
            scan(decisions.drop_last(), frame_samples, min_speech, min_silence),
            decisions.len() - 1,
            decisions.last(),
            frame_samples,
            min_speech,
            min_silence,
        );
    } else {
        assert(0 * frame_samples == 0) by (nonlinear_arith);
    }
}

/// The regions lie within the recording, in order and without overlap; all
/// but the last are non-empty.
pub proof fn lemma_segments_ordered(
    decisions: Seq<bool>,
    frame_samples: int,
    total_len: int,
    min_speech: int,
    min_silence: int,
)
    requires
        frame_samples > 0,
        min_speech >= 0,
        min_silence >= 0,
        decisions.len() * frame_samples <= total_len,
    ensures
        ({
            let segments = spec_segments(
                decisions,
                frame_samples,
                total_len,
                min_speech,
                min_silence,
            );
            &&& forall|i: int|
                0 <= i < segments.len() ==> 0 <= (#[trigger] segments[i]).0 <= segments[i].1
                    <= total_len
            &&& forall|i: int, j: int|
                0 <= i < j < segments.len() ==> (#[trigger] segments[i]).1 <= (
                #[trigger] segments[j]).0
            &&& forall|i: int|
                0 <= i < segments.len() - 1 ==> (#[trigger] segments[i]).0 < segments[i].1
        }),
{
    lemma_scan_wf(decisions, frame_samples, min_speech, min_silence);
}

/// Finds the speech regions of a recording of `total_len` samples from the
/// decisions for its frames.
pub fn segments_from_decisions(
    decisions: &[bool],
    frame_samples: usize,
    total_len: usize,
    min_speech_frames: usize,
    min_silence_frames: usize,
) -> (segments: Vec<(usize, usize)>)
    requires
        frame_samples > 0,
        decisions@.len() * frame_samples <= total_len,
    ensures
        segment_views(segments@) == spec_segments(
            decisions@,
            frame_samples as int,
            total_len as int,
            min_speech_frames as int,
            min_silence_frames as int,
        ),
{
    let ghost f = frame_samples as int;
    let ghost ms = min_speech_frames as int;
    let ghost sl = min_silence_frames as int;
    let mut segments: Vec<(usize, usize)> = Vec::new();
    let mut in_speech: bool = false;
    let mut speech_start: usize = 0;
    let mut speech_frame_count: usize = 0;
    let mut silence_frame_count: usize = 0;
    let mut frame_idx: usize = 0;
    proof {
        assert(decisions@.take(0) =~= Seq::<bool>::empty());
        assert(segment_views(segments@) =~= Seq::<(int, int)>::empty());
        assert(0 * f == 0) by (nonlinear_arith);
    }
    while frame_idx < decisions.len()
        invariant
            0 <= frame_idx <= decisions.len(),
            f == frame_samples as int,
            ms == min_speech_frames as int,
            sl == min_silence_frames as int,
            f > 0,
            decisions@.len() * f <= total_len,
            scan(decisions@.take(frame_idx as int), f, ms, sl) == (Scan {
                in_speech,
                speech_start: speech_start as int,
                speech_frames: speech_frame_count as int,
                silence_frames: silence_frame_count as int,
                segments: segment_views(segments@),
            }),
            scan_wf(scan(decisions@.take(frame_idx as int), f, ms, sl), frame_idx as int, f),
        decreases decisions.len() - frame_idx,
    {
        let ghost before = scan(decisions@.take(frame_idx as int), f, ms, sl);
        let ghost old_views = segment_views(segments@);
        let is_voice: bool = decisions[frame_idx];
        proof {
            let next = decisions@.take(frame_idx + 1);
            assert(next.drop_last() =~= decisions@.take(frame_idx as int));
            assert(next.last() == is_voice);
            lemma_scan_step_wf(before, frame_idx as int, is_voice, f, ms, sl);
            assert(frame_idx * f <= decisions@.len() * f) by (nonlinear_arith)
                requires
                    frame_idx <= decisions@.len(),
                    f > 0,
            ;
            assert((frame_idx + 1) * f <= decisions@.len() * f) by (nonlinear_arith)
                requires
                    frame_idx + 1 <= decisions@.len(),
                    f > 0,
            ;
        }
        if is_voice {
            silence_frame_count = 0;
            speech_frame_count = speech_frame_count + 1;
            if !in_speech && speech_frame_count >= min_speech_frames {
                in_speech = true;
                proof {
                    assert(ms <= frame_idx + 1);
                    assert(0 <= (frame_idx + 1 - ms) * f <= (frame_idx + 1) * f)
                        by (nonlinear_arith)
                        requires
                            0 <= ms <= frame_idx + 1,
                            f > 0,
                    ;
                }
                speech_start = (frame_idx + 1 - min_speech_frames) * frame_samples;
            }
        } else {
            if in_speech {
                silence_frame_count = silence_frame_count + 1;
                if silence_frame_count >= min_silence_frames {
                    proof {
                        assert(0 <= (frame_idx - sl) * f <= frame_idx * f) by (nonlinear_arith)
                            requires
                                0 <= sl <= frame_idx,
                                f > 0,
                        ;
                    }
                    let speech_end: usize = (frame_idx - min_silence_frames) * frame_samples;
                    if speech_end > speech_start {
                        segments.push((speech_start, speech_end));
                        proof {
                            assert(segment_views(segments@) =~= old_views.push(
                                (speech_start as int, speech_end as int),
                            ));
                        }
                    }
                    in_speech = false;
                    speech_frame_count = 0;
                }
            } else {
                speech_frame_count = 0;
            }
        }
        frame_idx = frame_idx + 1;
    }
    proof {
        assert(decisions@.take(decisions.len() as int) =~= decisions@);
    }
    if in_speech {
        let ghost old_views = segment_views(segments@);
        segments.push((speech_start, total_len));
        proof {
            assert(segment_views(segments@) =~= old_views.push(
                (speech_start as int, total_len as int),
            ));
        }
    }
    segments
}

/// Frame-level detector with its sample rate.
pub struct VoiceActivityDetector {
    vad: Vad,
    sample_rate: SampleRate,
}

impl VoiceActivityDetector {
    /// The sample rate as contracts see it.
    pub closed spec fn spec_sample_rate(&self) -> SampleRate {
        self.sample_rate
    }

    /// The rate that `sample_rate` names, if it is one the detector takes.
    pub fn parse_sample_rate(sample_rate: u32) -> (r: Option<SampleRate>)
        ensures
            r is Some <==> (sample_rate == 8_000 || sample_rate == 16_000 || sample_rate == 32_000
                || sample_rate == 48_000),
            r is Some ==> spec_samples_per_sec(r->Some_0) == sample_rate,
    {
        if sample_rate == 8_000 {
            Some(SampleRate::Rate8kHz)
        } else if sample_rate == 16_000 {
            Some(SampleRate::Rate16kHz)
        } else if sample_rate == 32_000 {
            Some(SampleRate::Rate32kHz)
        } else if sample_rate == 48_000 {
            Some(SampleRate::Rate48kHz)
        } else {
            None
        }
    }

    /// The aggressiveness that `level` names, if it is one of 0 to 3.
    pub fn parse_aggressiveness(level: i32) -> (r: Option<Aggressiveness>)
        ensures
            r == if level == 0 {
                Some(Aggressiveness::Quality)
            } else if level == 1 {
                Some(Aggressiveness::LowBitrate)
            } else if level == 2 {
                Some(Aggressiveness::Aggressive)
            } else if level == 3 {
                Some(Aggressiveness::VeryAggressive)
            } else {
                None::<Aggressiveness>
            },
    {
        if level == 0 {
            Some(Aggressiveness::Quality)
        } else if level == 1 {
            Some(Aggressiveness::LowBitrate)
        } else if level == 2 {
            Some(Aggressiveness::Aggressive)
        } else if level == 3 {
            Some(Aggressiveness::VeryAggressive)
        } else {
            None
        }
    }

    /// A detector for audio at `sample_rate` with the given aggressiveness.
    pub fn new(aggressiveness: i32, sample_rate: u32) -> (r: Result<Self, SegmentError>)
        ensures
            !(sample_rate == 8_000 || sample_rate == 16_000 || sample_rate == 32_000 || sample_rate
                == 48_000) ==> r is Err && r->Err_0 == SegmentError::InvalidSampleRate,
            (sample_rate == 8_000 || sample_rate == 16_000 || sample_rate == 32_000 || sample_rate
                == 48_000) && !(0 <= aggressiveness <= 3) ==> r is Err && r->Err_0
                == SegmentError::InvalidAggressiveness,
            (sample_rate == 8_000 || sample_rate == 16_000 || sample_rate == 32_000 || sample_rate
                == 48_000) && 0 <= aggressiveness <= 3 ==> r is Ok && spec_samples_per_sec(
                r->Ok_0.spec_sample_rate(),
            ) == sample_rate,
    {
        let rate: SampleRate = match Self::parse_sample_rate(sample_rate) {
            Some(rate) => rate,
            None => {
                return Err(SegmentError::InvalidSampleRate);
            },
        };
        let mode: Aggressiveness = match Self::parse_aggressiveness(aggressiveness) {
            Some(mode) => mode,
            None => {
                return Err(SegmentError::InvalidAggressiveness);
            },
        };
        Ok(VoiceActivityDetector { vad: vad_new(rate, mode), sample_rate: rate })
    }

    /// Samples in a frame of `frame_ms`, which must be 10, 20 or 30.
    pub fn frame_samples(&self, frame_ms: u32) -> (r: Result<usize, SegmentError>)
        ensures
            valid_frame_ms(frame_ms) ==> r is Ok && r->Ok_0 == spec_frame_samples(
                self.spec_sample_rate(),
                frame_ms,
            ) && r->Ok_0 > 0,
            !valid_frame_ms(frame_ms) ==> r is Err && r->Err_0
                == SegmentError::InvalidFrameDuration,
    {
        if frame_ms != 10 && frame_ms != 20 && frame_ms != 30 {
            return Err(SegmentError::InvalidFrameDuration);
        }
        let samples_per_sec: u32 = match self.sample_rate {
            SampleRate::Rate8kHz => 8_000,
            SampleRate::Rate16kHz => 16_000,
            SampleRate::Rate32kHz => 32_000,
            SampleRate::Rate48kHz => 48_000,
        };
        Ok((samples_per_sec * frame_ms / 1000) as usize)
    }

    /// Tells whether one frame holds voice. The frame must last 10, 20 or
    /// 30 ms at the detector's rate.
    pub fn is_speech(&mut self, frame: &[i16]) -> (r: Result<bool, SegmentError>)
        ensures
            frame@.len() == 0 ==> r is Err,
            r is Err ==> r->Err_0 == SegmentError::InvalidFrame,
            final(self).spec_sample_rate() == old(self).spec_sample_rate(),
    {
        if frame.len() == 0 {
            return Err(SegmentError::InvalidFrame);
        }
        match vad_is_voice_segment(&mut self.vad, frame) {
            Some(decision) => Ok(decision),
            None => Err(SegmentError::InvalidFrame),
        }
    }

    /// Asks the detector about each whole frame of `audio`, in order. A frame
    /// that the detector refuses counts as silent.
    pub fn decide_frames(&mut self, audio: &[i16], frame_samples: usize) -> (decisions: Vec<bool>)
        requires
            frame_samples > 0,
        ensures
            decisions@.len() == audio@.len() / (frame_samples as nat),
            decisions@.len() * frame_samples <= audio@.len(),
            final(self).spec_sample_rate() == old(self).spec_sample_rate(),
    {
        let total_frames: usize = audio.len() / frame_samples;
        proof {
            vstd::arithmetic::div_mod::lemma_fundamental_div_mod(
                audio@.len() as int,
                frame_samples as int,
            );
            assert(total_frames * frame_samples == frame_samples * total_frames)
                by (nonlinear_arith);
        }
        let mut decisions: Vec<bool> = Vec::new();
        let mut frame_idx: usize = 0;
        while frame_idx < total_frames
            invariant
                0 <= frame_idx <= total_frames,
                frame_samples > 0,
                total_frames * frame_samples <= audio@.len(),
                audio@.len() <= usize::MAX,
                decisions@.len() == frame_idx,
                self.spec_sample_rate() == old(self).spec_sample_rate(),
            decreases total_frames - frame_idx,
        {
            proof {
                assert((frame_idx + 1) * frame_samples <= total_frames * frame_samples)
                    by (nonlinear_arith)
                    requires
                        frame_idx + 1 <= total_frames,
                        frame_samples > 0,
                ;
                assert((frame_idx + 1) * frame_samples == frame_idx * frame_samples
                    + frame_samples) by (nonlinear_arith);
                assert(frame_idx * frame_samples >= 0) by (nonlinear_arith)
                    requires
                        frame_idx >= 0,
                        frame_samples > 0,
                ;
            }
            let start: usize = frame_idx * frame_samples;
            let end: usize = start + frame_samples;
            let frame: &[i16] = slice_subrange(audio, start, end);
            let is_voice: bool = match vad_is_voice_segment(&mut self.vad, frame) {
                Some(decision) => decision,
                None => false,
            };
            decisions.push(is_voice);
            frame_idx = frame_idx + 1;
        }
        decisions
    }

    /// Finds the speech regions of `audio`: frames of `frame_ms` are judged
    /// one by one, and the regions follow from the decisions as
    /// `segments_from_decisions` says.
    pub fn detect_segments(
        &mut self,
        audio: &[i16],
        frame_ms: u32,
        min_speech_frames: usize,
        min_silence_frames: usize,
    ) -> (r: Result<Vec<(usize, usize)>, SegmentError>)
        ensures
            !valid_frame_ms(frame_ms) ==> r is Err && r->Err_0
                == SegmentError::InvalidFrameDuration,
            valid_frame_ms(frame_ms) ==> r is Ok && exists|decisions: Seq<bool>|
                {
                    &&& decisions.len() == audio@.len() / spec_frame_samples(
                        old(self).spec_sample_rate(),
                        frame_ms,
                    )
                    &&& segment_views(r->Ok_0@) == spec_segments(
                        decisions,
                        spec_frame_samples(old(self).spec_sample_rate(), frame_ms) as int,
                        audio@.len() as int,
                        min_speech_frames as int,
                        min_silence_frames as int,
                    )
                },
            final(self).spec_sample_rate() == old(self).spec_sample_rate(),
    {
        let frame_samples: usize = match self.frame_samples(frame_ms) {
            Ok(n) => n,
            Err(e) => {
                return Err(e);
            },
        };
        let decisions: Vec<bool> = self.decide_frames(audio, frame_samples);
        Ok(
            segments_from_decisions(
                decisions.as_slice(),
                frame_samples,
                audio.len(),
                min_speech_frames,
                min_silence_frames,
            ),
        )
    }
}

/// The samples of `audio` that lie in `segments`, region after region.
pub open spec fn spec_selected(audio: Seq<u32>, segments: Seq<(usize, usize)>) -> Seq<u32>
    decreases segments.len(),
{
    if segments.len() == 0 {
        Seq::<u32>::empty()
    } else {
        let last = segments.last();
        let end = if last.1 <= audio.len() {
            last.1 as int
        } else {
            audio.len() as int
        };
        let start = if last.0 <= end {
            last.0 as int
        } else {
            end
        };
        spec_selected(audio, segments.drop_last()) + audio.subrange(start, end)
    }
}

/// Keeps of `audio` what lies in `segments`, region after region. A region
/// that reaches past the audio is cut at its end.
pub fn select_segments(audio: &[u32], segments: &[(usize, usize)]) -> (kept: Vec<u32>)
    ensures
        kept@ == spec_selected(audio@, segments@),
{
    let mut kept: Vec<u32> = Vec::new();
    let mut i: usize = 0;
    proof {
        assert(segments@.take(0) =~= Seq::<(usize, usize)>::empty());
    }
    while i < segments.len()
        invariant
            0 <= i <= segments.len(),
            kept@ == spec_selected(audio@, segments@.take(i as int)),
        decreases segments.len() - i,
    {
        let (first, last) = segments[i];
        let end: usize = if last <= audio.len() {
            last
        } else {
            audio.len()
        };
        let start: usize = if first <= end {
            first
        } else {
            end
        };
        proof {
            assert(segments@.take(i + 1).drop_last() =~= segments@.take(i as int));
            assert(segments@.take(i + 1).last() == segments@[i as int]);
        }
        kept.extend_from_slice(slice_subrange(audio, start, end));
        i = i + 1;
    }
    proof {
        assert(segments@.take(segments.len() as int) =~= segments@);
    }
    kept
}

/// Minimum run of voiced frames with which `filter_speech` opens a region.
pub const FILTER_MIN_SPEECH_FRAMES: usize = 3;

/// Minimum run of silent frames with which `filter_speech` closes a region.
pub const FILTER_MIN_SILENCE_FRAMES: usize = 10;

impl VoiceActivityDetector {
    /// Keeps of a recording what lies in its speech regions. The recording
    /// comes in two forms of the same length: `audio`, which is kept from,
    /// and `pcm`, its 16-bit form, which the detector judges.
    pub fn filter_speech(&mut self, audio: &[u32], pcm: &[i16], frame_ms: u32) -> (r: Result<
        Vec<u32>,
        SegmentError,
    >)
        ensures
            audio@.len() != pcm@.len() ==> r is Err && r->Err_0 == SegmentError::LengthMismatch,
            audio@.len() == pcm@.len() && !valid_frame_ms(frame_ms) ==> r is Err && r->Err_0
                == SegmentError::InvalidFrameDuration,
            audio@.len() == pcm@.len() && valid_frame_ms(frame_ms) ==> r is Ok && exists|
                segments: Seq<(usize, usize)>,
                decisions: Seq<bool>,
            |
                {
                    &&& r->Ok_0@ == spec_selected(audio@, segments)
                    &&& decisions.len() == pcm@.len() / spec_frame_samples(
                        old(self).spec_sample_rate(),
                        frame_ms,
                    )
                    &&& segment_views(segments) == spec_segments(
                        decisions,
                        spec_frame_samples(old(self).spec_sample_rate(), frame_ms) as int,
                        pcm@.len() as int,
                        FILTER_MIN_SPEECH_FRAMES as int,
                        FILTER_MIN_SILENCE_FRAMES as int,
                    )
                },
            final(self).spec_sample_rate() == old(self).spec_sample_rate(),
    {
        if audio.len() != pcm.len() {
            return Err(SegmentError::LengthMismatch);
        }
        match self.detect_segments(
            pcm,
            frame_ms,
            FILTER_MIN_SPEECH_FRAMES,
            FILTER_MIN_SILENCE_FRAMES,
        ) {
            Ok(segments) => Ok(select_segments(audio, segments.as_slice())),
            Err(e) => Err(e),
        }
    }
}

} // verus!
