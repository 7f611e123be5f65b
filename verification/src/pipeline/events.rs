//! What the pipeline publishes.

use crate::audio::SoundCue;
use crate::config::RecordingState;
use vstd::prelude::*;

verus! {

/// One published event.
#[derive(Debug, Clone)]
pub enum PipelineEvent {
    /// The user-visible state changed.
    StateChanged { state: RecordingState },
    /// The detector confirmed the start of a segment.
    SpeechStarted,
    /// The detector confirmed the end of a segment.
    SpeechEnded { duration_ms: u64 },
    /// The transcriber returned text.
    TranscriptionComplete { text: String, audio_duration_ms: u64, processing_time_ms: u64 },
    /// The text is on the clipboard.
    CopiedToClipboard { text: String },
    /// A phase failed.
    Error { message: String },
}

/// An event as contracts see it: strings by their characters.
pub enum EventView {
    StateChanged { state: RecordingState },
    SpeechStarted,
    SpeechEnded { duration_ms: u64 },
    TranscriptionComplete { text: Seq<char>, audio_duration_ms: u64, processing_time_ms: u64 },
    CopiedToClipboard { text: Seq<char> },
    Error { message: Seq<char> },
}

impl View for PipelineEvent {
    type V = EventView;

    open spec fn view(&self) -> EventView {
        match *self {
            PipelineEvent::StateChanged { state } => EventView::StateChanged { state },
            PipelineEvent::SpeechStarted => EventView::SpeechStarted,
            PipelineEvent::SpeechEnded { duration_ms } => EventView::SpeechEnded { duration_ms },
            PipelineEvent::TranscriptionComplete { text, audio_duration_ms, processing_time_ms } =>
                EventView::TranscriptionComplete {
                    text: text@,
                    audio_duration_ms,
                    processing_time_ms,
                },
            PipelineEvent::CopiedToClipboard { text } => EventView::CopiedToClipboard {
                text: text@,
            },
            PipelineEvent::Error { message } => EventView::Error { message: message@ },
        }
    }
}

/// The events of a sequence by their views, in order.
pub open spec fn event_views(events: Seq<PipelineEvent>) -> Seq<EventView> {
    events.map_values(|e: PipelineEvent| e@)
}

/// What one phase asks of the caller: events to publish, in order, and at most
/// one cue to play.
#[derive(Debug)]
pub struct StepOutput {
    /// Events to publish, in order.
    pub events: Vec<PipelineEvent>,
    /// The cue to play, if any.
    pub cue: Option<SoundCue>,
}

impl StepOutput {
    /// The published events by their views.
    pub open spec fn published(&self) -> Seq<EventView> {
        event_views(self.events@)
    }

    /// Nothing to publish and nothing to play.
    pub fn silent() -> (r: Self)
        ensures
            r.published() == Seq::<EventView>::empty(),
            r.cue is None,
    {
        let r = StepOutput { events: Vec::new(), cue: None };
        assert(r.published() =~= Seq::<EventView>::empty());
        r
    }
}

/// The cue, unless cues are switched off.
pub open spec fn cue_if(enabled: bool, cue: SoundCue) -> Option<SoundCue> {
    if enabled {
        Some(cue)
    } else {
        None
    }
}

/// The cue, unless cues are switched off.
pub fn cue_when(enabled: bool, cue: SoundCue) -> (r: Option<SoundCue>)
    ensures
        r == cue_if(enabled, cue),
{
    if enabled {
        Some(cue)
    } else {
        None
    }
}

} // verus!
