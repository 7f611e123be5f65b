//! Settings of the transcriber and the text it returns.

use vstd::prelude::*;
use vstd::string::StringExecFns;

verus! {

/// Threads used when nothing else is asked for.
pub const DEFAULT_THREADS: i32 = 4;

/// Bit pattern of the no-speech threshold handed to the model, `0.4`.
pub const NO_SPEECH_THRESHOLD_BITS: u32 = 0x3ECC_CCCD;

/// The characters that are left of `text` once white space at both ends is
/// taken off.
pub uninterp spec fn spec_trimmed(text: Seq<char>) -> Seq<char>;

/// Takes white space off both ends.
///
/// Calls `str::trim`, whose result depends on the text alone. White space is
/// what the Unicode property of that name says.
#[verifier::external_body]
fn trimmed(text: &str) -> (r: String)
    ensures
        r@ == spec_trimmed(text@),
{
    text.trim().to_string()
}

/// The segments one after the other, each followed by a space.
pub open spec fn spec_joined(segments: Seq<String>) -> Seq<char>
    decreases segments.len(),
{
    if segments.len() == 0 {
        Seq::<char>::empty()
    } else {
        spec_joined(segments.drop_last()) + segments.last()@ + " "@
    }
}

/// Settings with which the transcriber is run.
#[derive(Debug, Clone)]
pub struct WhisperTranscriber {
    language: String,
    n_threads: i32,
}

impl WhisperTranscriber {
    /// The language as contracts see it.
    pub closed spec fn spec_language(&self) -> Seq<char> {
        self.language@
    }

    /// The number of threads as contracts see it.
    pub closed spec fn spec_threads(&self) -> i32 {
        self.n_threads
    }

    /// Settings for `language` with the default number of threads.
    pub fn new(language: &str) -> (r: Self)
        ensures
            r.spec_language() == language@,
            r.spec_threads() == DEFAULT_THREADS,
    {
        WhisperTranscriber { language: String::from_str(language), n_threads: DEFAULT_THREADS }
    }

    /// Changes the language.
    pub fn set_language(&mut self, language: &str)
        ensures
            final(self).spec_language() == language@,
            final(self).spec_threads() == old(self).spec_threads(),
    {
        self.language = String::from_str(language);
    }

    /// The language.
    pub fn language(&self) -> (r: &str)
        ensures
            r@ == self.spec_language(),
    {
        self.language.as_str()
    }

    /// Changes the number of threads; at least one is used.
    pub fn set_threads(&mut self, threads: i32)
        ensures
            final(self).spec_threads() == if threads < 1 {
                1
            } else {
                threads
            },
            final(self).spec_language() == old(self).spec_language(),
    {
        self.n_threads = if threads < 1 {
            1
        } else {
            threads
        };
    }

    /// The number of threads.
    pub fn threads(&self) -> (r: i32)
        ensures
            r == self.spec_threads(),
    {
        self.n_threads
    }

    /// Tells whether the model has to run at all: empty audio gives empty
    /// text without it.
    pub fn needs_inference(&self, audio_len: usize) -> (r: bool)
        ensures
            r == (audio_len > 0),
    {
        audio_len > 0
    }

    /// The text of a transcription: the segments in order, a space after
    /// each, with white space taken off both ends.
    pub fn assemble(&self, segments: &[String]) -> (text: String)
        ensures
            text@ == spec_trimmed(spec_joined(segments@)),
    {
        let mut result: String = String::from_str("");
        let mut i: usize = 0;
        proof {
            reveal_strlit("");
            assert(segments@.take(0) =~= Seq::<String>::empty());
            assert(result@ =~= spec_joined(segments@.take(0)));
        }
        while i < segments.len()
            invariant
                0 <= i <= segments.len(),
                result@ == spec_joined(segments@.take(i as int)),
            decreases segments.len() - i,
        {
            proof {
                assert(segments@.take(i + 1).drop_last() =~= segments@.take(i as int));
                assert(segments@.take(i + 1).last() == segments@[i as int]);
            }
            result.append(segments[i].as_str());
            result.append(" ");
            i = i + 1;
        }
        proof {
            assert(segments@.take(segments.len() as int) =~= segments@);
        }
        trimmed(result.as_str())
    }
}

/// What a transcription yielded.
#[derive(Debug, Clone)]
pub struct TranscriptionResult {
    /// The text.
    pub text: String,
    /// Duration of the audio in milliseconds.
    pub audio_duration_ms: u64,
    /// Time the transcriber took, in milliseconds.
    pub processing_time_ms: u64,
}

impl TranscriptionResult {
    /// A result.
    pub fn new(text: String, audio_duration_ms: u64, processing_time_ms: u64) -> (r: Self)
        ensures
            r.text == text,
            r.audio_duration_ms == audio_duration_ms,
            r.processing_time_ms == processing_time_ms,
    {
        TranscriptionResult { text, audio_duration_ms, processing_time_ms }
    }

    /// True when there was audio and the transcriber took less time than the
    /// audio lasts.
    pub fn faster_than_real_time(&self) -> (r: bool)
        ensures
            r == (self.audio_duration_ms > 0 && self.processing_time_ms < self.audio_duration_ms),
    {
        self.audio_duration_ms > 0 && self.processing_time_ms < self.audio_duration_ms
    }
}

} // verus!
