//! The session orchestrator.
//!
//! The orchestrator owns the user-visible state and the two flags that guard a
//! session. It performs no work of its own: each method takes what happened,
//! moves the state, and returns what is to be published and played. The caller
//! opens devices, runs the transcriber and writes the clipboard, and reports
//! back.
//!
//! The state moves only along Idle → Recording → Processing → Idle, with
//! Recording → Idle when a capture yields nothing. A report that does not fit
//! the current state is ignored.

use crate::audio::SoundCue;
use crate::config::{AppConfig, ConfigError, RecordingState};
use crate::pipeline::events::{cue_if, cue_when, EventView, PipelineEvent, StepOutput};
use vstd::prelude::*;
use vstd::string::StringExecFns;

verus! {

/// Toggles closer than this to the last accepted one are ignored.
pub const DEBOUNCE_MS: u64 = 300;

/// Settings of the pipeline.
#[derive(Debug, Clone)]
pub struct PipelineConfig {
    /// The user's settings.
    pub app_config: AppConfig,
    /// Longest recording, in milliseconds.
    pub max_recording_duration_ms: u64,
}

impl Default for PipelineConfig {
    fn default() -> (r: Self)
        ensures
            r.max_recording_duration_ms == 30_000,
            r.app_config.language@ == "es"@,
            r.app_config.shortcut@ == "Ctrl+Shift+Space"@,
            r.app_config.sound_enabled,
            r.app_config.audio_device_id is None,
            r.app_config.vad.min_speech_duration_ms == 150,
            r.app_config.vad.min_silence_duration_ms == 800,
            r.app_config.vad.speech_pad_ms == 300,
    {
        PipelineConfig { app_config: AppConfig::default(), max_recording_duration_ms: 30_000 }
    }
}

/// What a toggle amounts to.
#[derive(Debug, Clone, Copy, PartialEq, Eq, Structural)]
pub enum ToggleDecision {
    /// Too close to the last accepted toggle: ignored.
    Debounced,
    /// A session is to start; the slot is claimed.
    Start,
    /// The running capture is asked to stop.
    Cancel,
    /// Transcription is under way and cannot be interrupted.
    RefusedProcessing,
    /// A session is still starting up.
    RefusedStarting,
    /// Recording was shown with no session behind it; the state was put back
    /// to idle.
    Inconsistent,
}

/// The orchestrator as contracts see it.
pub struct PipelineModel {
    /// User-visible state.
    pub state: RecordingState,
    /// Whether a session holds the slot.
    pub is_running: bool,
    /// Whether the capture was asked to stop.
    pub cancel_requested: bool,
    /// Clock reading of the last accepted toggle.
    pub last_toggle_ms: Option<u64>,
    /// Whether the transcription model is in memory.
    pub model_loaded: bool,
    /// Whether cues are played.
    pub sound_enabled: bool,
}

/// The moves of the user-visible state that a session may make.
pub open spec fn allowed_transition(from: RecordingState, to: RecordingState) -> bool {
    ||| from == to
    ||| from == RecordingState::Idle && to == RecordingState::Recording
    ||| from == RecordingState::Recording && to == RecordingState::Processing
    ||| from == RecordingState::Recording && to == RecordingState::Idle
    ||| from == RecordingState::Processing && to == RecordingState::Idle
}

/// True when a toggle at `now_ms` falls within the debounce time of the last
/// accepted one. A clock reading before the last one counts as no time passed.
pub open spec fn within_debounce(last_toggle_ms: Option<u64>, now_ms: u64) -> bool {
    match last_toggle_ms {
        Some(last) => now_ms - last < DEBOUNCE_MS,
        None => false,
    }
}

/// What an accepted toggle amounts to, by the slot and the state.
pub open spec fn decide(is_running: bool, state: RecordingState) -> ToggleDecision {
    match (is_running, state) {
        (false, RecordingState::Idle) => ToggleDecision::Start,
        (true, RecordingState::Recording) => ToggleDecision::Cancel,
        (_, RecordingState::Processing) => ToggleDecision::RefusedProcessing,
        (true, RecordingState::Idle) => ToggleDecision::RefusedStarting,
        (false, RecordingState::Recording) => ToggleDecision::Inconsistent,
    }
}

/// The orchestrator after a toggle at `now_ms`, and what the toggle amounted
/// to.
pub open spec fn toggled(m: PipelineModel, now_ms: u64) -> (PipelineModel, ToggleDecision) {
    if within_debounce(m.last_toggle_ms, now_ms) {
        (m, ToggleDecision::Debounced)
    } else {
        let accepted = PipelineModel { last_toggle_ms: Some(now_ms), ..m };
        match decide(m.is_running, m.state) {
            ToggleDecision::Start => (
                PipelineModel { is_running: true, cancel_requested: false, ..accepted },
                ToggleDecision::Start,
            ),
            ToggleDecision::Cancel => (
                PipelineModel { cancel_requested: true, ..accepted },
                ToggleDecision::Cancel,
            ),
            ToggleDecision::Inconsistent => (
                PipelineModel { state: RecordingState::Idle, ..accepted },
                ToggleDecision::Inconsistent,
            ),
            d => (accepted, d),
        }
    }
}

/// What a toggle publishes: the return to idle after an inconsistency, nothing
/// otherwise.
pub open spec fn toggle_events(decision: ToggleDecision) -> Seq<EventView> {
    if decision == ToggleDecision::Inconsistent {
        seq![EventView::StateChanged { state: RecordingState::Idle }]
    } else {
        Seq::<EventView>::empty()
    }
}

/// What came of a toggle.
#[derive(Debug)]
pub struct ToggleOutcome {
    /// What the toggle amounted to.
    pub decision: ToggleDecision,
    /// Events to publish.
    pub events: Vec<PipelineEvent>,
}

impl ToggleOutcome {
    /// True when the toggle started a session.
    pub fn started(&self) -> (r: bool)
        ensures
            r == (self.decision == ToggleDecision::Start),
    {
        match self.decision {
            ToggleDecision::Start => true,
            _ => false,
        }
    }
}

/// Why a session could not start or finish.
#[derive(Debug, Clone, Copy, PartialEq, Eq, Structural)]
pub enum PipelineError {
    /// The platform names no data directory, so the model has no place.
    NoDataDir,
    /// The model file is not on disk.
    ModelMissing,
    /// No transcriber is in memory.
    TranscriberUnavailable,
}

impl PipelineError {
    /// The message of the error.
    pub open spec fn spec_message(self) -> Seq<char> {
        match self {
            PipelineError::NoDataDir => "No se pudo determinar el directorio de datos"@,
            PipelineError::ModelMissing => "Modelo no encontrado. Ejecuta la descarga primero."@,
            PipelineError::TranscriberUnavailable => "Transcriber no disponible"@,
        }
    }

    /// The message of the error.
    pub fn message(&self) -> (r: &'static str)
        ensures
            r@ == self.spec_message(),
    {
        match self {
            PipelineError::NoDataDir => "No se pudo determinar el directorio de datos",
            PipelineError::ModelMissing => "Modelo no encontrado. Ejecuta la descarga primero.",
            PipelineError::TranscriberUnavailable => "Transcriber no disponible",
        }
    }
}

/// What has to happen before the transcriber can be used.
#[derive(Debug, Clone)]
pub enum ModelStep {
    /// The model is in memory already.
    AlreadyLoaded,
    /// The model at `path` is to be loaded for `language`.
    Load { path: String, language: String },
}

/// How a capture ended.
#[derive(Debug, Clone, Copy, PartialEq, Eq, Structural)]
pub enum CaptureKind {
    /// Audio was captured.
    Captured,
    /// The user stopped before any speech.
    Cancelled,
    /// The capture ended without speech.
    NoSpeech,
}

/// The session orchestrator.
pub struct Pipeline {
    state: RecordingState,
    cancel_flag: bool,
    is_running: bool,
    last_toggle_ms: Option<u64>,
    model_loaded: bool,
    config: PipelineConfig,
}

impl View for Pipeline {
    type V = PipelineModel;

    closed spec fn view(&self) -> PipelineModel {
        PipelineModel {
            state: self.state,
            is_running: self.is_running,
            cancel_requested: self.cancel_flag,
            last_toggle_ms: self.last_toggle_ms,
            model_loaded: self.model_loaded,
            sound_enabled: self.config.app_config.sound_enabled,
        }
    }
}

/// Recording and processing happen only inside a session.
pub open spec fn model_wf(m: PipelineModel) -> bool {
    m.state != RecordingState::Idle ==> m.is_running
}

/// The orchestrator after a session has ended, for whatever reason.
pub open spec fn released(m: PipelineModel) -> PipelineModel {
    PipelineModel { state: RecordingState::Idle, is_running: false, ..m }
}

fn state_changed(state: RecordingState) -> (r: Vec<PipelineEvent>)
    ensures
        r@.len() == 1,
        r@[0]@ == (EventView::StateChanged { state }),
{
    let mut events: Vec<PipelineEvent> = Vec::new();
    events.push(PipelineEvent::StateChanged { state });
    events
}

impl Pipeline {
    /// The configuration in use.
    pub closed spec fn spec_config(&self) -> PipelineConfig {
        self.config
    }

    /// The invariant that every method keeps.
    pub open spec fn wf(&self) -> bool {
        model_wf(self@)
    }

    /// An idle orchestrator with no session, no toggle seen and no model.
    pub fn new(config: PipelineConfig) -> (r: Self)
        ensures
            r@ == (PipelineModel {
                state: RecordingState::Idle,
                is_running: false,
                cancel_requested: false,
                last_toggle_ms: None,
                model_loaded: false,
                sound_enabled: config.app_config.sound_enabled,
            }),
            r.spec_config() == config,
            r.wf(),
    {
        Pipeline {
            state: RecordingState::Idle,
            cancel_flag: false,
            is_running: false,
            last_toggle_ms: None,
            model_loaded: false,
            config,
        }
    }

    /// The user-visible state.
    pub fn state(&self) -> (r: RecordingState)
        ensures
            r == self@.state,
    {
        self.state
    }

    /// Whether a session holds the slot.
    pub fn is_running(&self) -> (r: bool)
        ensures
            r == self@.is_running,
    {
        self.is_running
    }

    /// Whether the capture was asked to stop.
    pub fn is_cancel_requested(&self) -> (r: bool)
        ensures
            r == self@.cancel_requested,
    {
        self.cancel_flag
    }

    /// Whether the transcription model is in memory.
    pub fn is_model_loaded(&self) -> (r: bool)
        ensures
            r == self@.model_loaded,
    {
        self.model_loaded
    }

    /// The configuration in use.
    pub fn config(&self) -> (r: &PipelineConfig)
        ensures
            *r == self.spec_config(),
    {
        &self.config
    }

    /// Replaces the user's settings. The state and the flags stay.
    pub fn update_config(&mut self, new_config: AppConfig)
        ensures
            final(self).spec_config().app_config == new_config,
            final(self).spec_config().max_recording_duration_ms
                == old(self).spec_config().max_recording_duration_ms,
            final(self)@ == (PipelineModel {
                sound_enabled: new_config.sound_enabled,
                ..old(self)@
            }),
    {
        self.config.app_config = new_config;
    }

    /// Says what has to happen before the transcriber can be used: nothing
    /// when the model is in memory; else a load of the file at `model_path`
    /// for the configured language, provided the path is known and
    /// `file_exists` says the file is there.
    pub fn ensure_model_loaded(
        &self,
        model_path: Result<String, ConfigError>,
        file_exists: bool,
    ) -> (r: Result<ModelStep, PipelineError>)
        ensures
            self@.model_loaded ==> r is Ok && r->Ok_0 is AlreadyLoaded,
            !self@.model_loaded && model_path is Err ==> r == Err::<ModelStep, PipelineError>(
                PipelineError::NoDataDir,
            ),
            !self@.model_loaded && model_path is Ok && !file_exists ==> r == Err::<
                ModelStep,
                PipelineError,
            >(PipelineError::ModelMissing),
            !self@.model_loaded && model_path is Ok && file_exists ==> r is Ok && r->Ok_0 is Load
                && r->Ok_0->path == model_path->Ok_0 && r->Ok_0->language@
                == self.spec_config().app_config.language@,
    {
        if self.model_loaded {
            return Ok(ModelStep::AlreadyLoaded);
        }
        match model_path {
            Err(_) => Err(PipelineError::NoDataDir),
            Ok(path) => {
                if !file_exists {
                    Err(PipelineError::ModelMissing)
                } else {
                    let language = String::from_str(self.config.app_config.language.as_str());
                    Ok(ModelStep::Load { path, language })
                }
            },
        }
    }

    /// Checks that a transcriber is there for the captured audio.
    pub fn require_transcriber(&self) -> (r: Result<(), PipelineError>)
        ensures
            self@.model_loaded ==> r is Ok,
            !self@.model_loaded ==> r == Err::<(), PipelineError>(
                PipelineError::TranscriberUnavailable,
            ),
    {
        if self.model_loaded {
            Ok(())
        } else {
            Err(PipelineError::TranscriberUnavailable)
        }
    }

    /// Records that the model is in memory.
    pub fn model_loaded(&mut self)
        ensures
            final(self)@ == (PipelineModel { model_loaded: true, ..old(self)@ }),
            final(self).spec_config() == old(self).spec_config(),
    {
        self.model_loaded = true;
    }

    /// Handles a toggle at clock reading `now_ms`.
    ///
    /// A toggle within the debounce time of the last accepted one changes
    /// nothing. Otherwise the slot and the state decide: an idle orchestrator
    /// claims the slot for a new session, a recording one is asked to stop,
    /// and every other combination is refused.
    pub fn toggle_recording(&mut self, now_ms: u64) -> (outcome: ToggleOutcome)
        ensures
            (final(self)@, outcome.decision) == toggled(old(self)@, now_ms),
            crate::pipeline::events::event_views(outcome.events@) == toggle_events(
                outcome.decision,
            ),
            final(self).spec_config() == old(self).spec_config(),
            allowed_transition(old(self)@.state, final(self)@.state),
            old(self).wf() ==> final(self).wf(),
    {
        let debounced: bool = match self.last_toggle_ms {
            Some(last) => {
                let elapsed: u64 = if now_ms >= last {
                    now_ms - last
                } else {
                    0
                };
                elapsed < DEBOUNCE_MS
            },
            None => false,
        };
        if debounced {
            let events: Vec<PipelineEvent> = Vec::new();
            assert(crate::pipeline::events::event_views(events@) =~= Seq::<EventView>::empty());
            return ToggleOutcome { decision: ToggleDecision::Debounced, events };
        }
        self.last_toggle_ms = Some(now_ms);
        let decision: ToggleDecision = match (self.is_running, self.state) {
            (false, RecordingState::Idle) => ToggleDecision::Start,
            (true, RecordingState::Recording) => ToggleDecision::Cancel,
            (_, RecordingState::Processing) => ToggleDecision::RefusedProcessing,
            (true, RecordingState::Idle) => ToggleDecision::RefusedStarting,
            (false, RecordingState::Recording) => ToggleDecision::Inconsistent,
        };
        match decision {
            ToggleDecision::Start => {
                self.is_running = true;
                self.cancel_flag = false;
            },
            ToggleDecision::Cancel => {
                self.cancel_flag = true;
            },
            ToggleDecision::Inconsistent => {
                self.state = RecordingState::Idle;
            },
            _ => {},
        }
        let events: Vec<PipelineEvent> = match decision {
            ToggleDecision::Inconsistent => state_changed(RecordingState::Idle),
            _ => Vec::new(),
        };
        assert(crate::pipeline::events::event_views(events@) =~= toggle_events(decision));
        ToggleOutcome { decision, events }
    }

    /// Asks the running capture to stop.
    pub fn cancel_recording(&mut self)
        ensures
            final(self)@ == (PipelineModel { cancel_requested: true, ..old(self)@ }),
            final(self).spec_config() == old(self).spec_config(),
    {
        self.cancel_flag = true;
    }

    /// The session has its model and starts to record.
    ///
    /// Has an effect only on a claimed slot in the idle state: the state
    /// becomes Recording, the change is published and the start cue chosen.
    pub fn start_recording(&mut self) -> (out: StepOutput)
        ensures
            old(self)@.is_running && old(self)@.state == RecordingState::Idle ==> {
                &&& final(self)@ == (PipelineModel {
                    state: RecordingState::Recording,
                    cancel_requested: false,
                    ..old(self)@
                })
                &&& out.published() == seq![
                    EventView::StateChanged { state: RecordingState::Recording },
                ]
                &&& out.cue == cue_if(old(self)@.sound_enabled, SoundCue::Start)
            },
            !(old(self)@.is_running && old(self)@.state == RecordingState::Idle) ==> {
                &&& final(self)@ == old(self)@
                &&& out.published() == Seq::<EventView>::empty()
                &&& out.cue is None
            },
            final(self).spec_config() == old(self).spec_config(),
            allowed_transition(old(self)@.state, final(self)@.state),
            old(self).wf() ==> final(self).wf(),
    {
        if !(self.is_running && matches!(self.state, RecordingState::Idle)) {
            return StepOutput::silent();
        }
        self.cancel_flag = false;
        self.state = RecordingState::Recording;
        let out = StepOutput {
            events: state_changed(RecordingState::Recording),
            cue: cue_when(self.config.app_config.sound_enabled, SoundCue::Start),
        };
        assert(out.published() =~= seq![
            EventView::StateChanged { state: RecordingState::Recording },
        ]);
        out
    }

    /// The capture has ended.
    ///
    /// Has an effect only while recording. Captured audio moves the state to
    /// Processing; a capture without audio ends the session. Either way the
    /// change is published and the stop cue chosen.
    pub fn capture_finished(&mut self, kind: CaptureKind) -> (out: StepOutput)
        ensures
            old(self)@.state == RecordingState::Recording && kind == CaptureKind::Captured ==> {
                &&& final(self)@ == (PipelineModel {
                    state: RecordingState::Processing,
                    ..old(self)@
                })
                &&& out.published() == seq![
                    EventView::StateChanged { state: RecordingState::Processing },
                ]
                &&& out.cue == cue_if(old(self)@.sound_enabled, SoundCue::Stop)
            },
            old(self)@.state == RecordingState::Recording && kind != CaptureKind::Captured ==> {
                &&& final(self)@ == released(old(self)@)
                &&& out.published() == seq![EventView::StateChanged { state: RecordingState::Idle }]
                &&& out.cue == cue_if(old(self)@.sound_enabled, SoundCue::Stop)
            },
            old(self)@.state != RecordingState::Recording ==> {
                &&& final(self)@ == old(self)@
                &&& out.published() == Seq::<EventView>::empty()
                &&& out.cue is None
            },
            final(self).spec_config() == old(self).spec_config(),
            allowed_transition(old(self)@.state, final(self)@.state),
            old(self).wf() ==> final(self).wf(),
    {
        if !matches!(self.state, RecordingState::Recording) {
            return StepOutput::silent();
        }
        let next: RecordingState = match kind {
            CaptureKind::Captured => RecordingState::Processing,
            _ => RecordingState::Idle,
        };
        self.state = next;
        match kind {
            CaptureKind::Captured => {},
            _ => {
                self.is_running = false;
            },
        }
        let out = StepOutput {
            events: state_changed(next),
            cue: cue_when(self.config.app_config.sound_enabled, SoundCue::Stop),
        };
        assert(out.published() =~= seq![EventView::StateChanged { state: next }]);
        out
    }

    /// The transcriber has returned `text`.
    ///
    /// Has an effect only while processing. Empty text ends the session: the
    /// return to idle is published and the stop cue chosen. Other text is
    /// published as a completed transcription; the session stays in
    /// Processing until `clipboard_finished` reports on the delivery.
    pub fn transcription_finished(
        &mut self,
        text: &str,
        audio_duration_ms: u64,
        processing_time_ms: u64,
    ) -> (out: StepOutput)
        ensures
            old(self)@.state == RecordingState::Processing && text@.len() == 0 ==> {
                &&& final(self)@ == released(old(self)@)
                &&& out.published() == seq![EventView::StateChanged { state: RecordingState::Idle }]
                &&& out.cue == cue_if(old(self)@.sound_enabled, SoundCue::Stop)
            },
            old(self)@.state == RecordingState::Processing && text@.len() > 0 ==> {
                &&& final(self)@ == old(self)@
                &&& out.published() == seq![
                    EventView::TranscriptionComplete {
                        text: text@,
                        audio_duration_ms,
                        processing_time_ms,
                    },
                ]
                &&& out.cue is None
            },
            old(self)@.state != RecordingState::Processing ==> {
                &&& final(self)@ == old(self)@
                &&& out.published() == Seq::<EventView>::empty()
                &&& out.cue is None
            },
            final(self).spec_config() == old(self).spec_config(),
            allowed_transition(old(self)@.state, final(self)@.state),
            old(self).wf() ==> final(self).wf(),
    {
        if !matches!(self.state, RecordingState::Processing) {
            return StepOutput::silent();
        }
        if text.unicode_len() == 0 {
            self.state = RecordingState::Idle;
            self.is_running = false;
            let out = StepOutput {
                events: state_changed(RecordingState::Idle),
                cue: cue_when(self.config.app_config.sound_enabled, SoundCue::Stop),
            };
            assert(out.published() =~= seq![
                EventView::StateChanged { state: RecordingState::Idle },
            ]);
            out
        } else {
            let mut events: Vec<PipelineEvent> = Vec::new();
            events.push(
                PipelineEvent::TranscriptionComplete {
                    text: String::from_str(text),
                    audio_duration_ms,
                    processing_time_ms,
                },
            );
            let out = StepOutput { events, cue: None };
            assert(out.published() =~= seq![
                EventView::TranscriptionComplete { text: text@, audio_duration_ms, processing_time_ms },
            ]);
            out
        }
    }

    /// The delivery of `text` to the clipboard has ended, with an error
    /// message or without.
    ///
    /// Has an effect only while processing: the delivery or its failure is
    /// published, then the return to idle, and the session ends.
    pub fn clipboard_finished(&mut self, text: &str, failure: Option<String>) -> (out: StepOutput)
        ensures
            old(self)@.state == RecordingState::Processing && failure is None ==> {
                &&& final(self)@ == released(old(self)@)
                &&& out.published() == seq![
                    EventView::CopiedToClipboard { text: text@ },
                    EventView::StateChanged { state: RecordingState::Idle },
                ]
                &&& out.cue == cue_if(old(self)@.sound_enabled, SoundCue::Success)
            },
            old(self)@.state == RecordingState::Processing && failure is Some ==> {
                &&& final(self)@ == released(old(self)@)
                &&& out.published() == seq![
                    EventView::Error {
                        message: "Error copiando al clipboard: "@ + failure->Some_0@,
                    },
                    EventView::StateChanged { state: RecordingState::Idle },
                ]
                &&& out.cue == cue_if(old(self)@.sound_enabled, SoundCue::Error)
            },
            old(self)@.state != RecordingState::Processing ==> {
                &&& final(self)@ == old(self)@
                &&& out.published() == Seq::<EventView>::empty()
                &&& out.cue is None
            },
            final(self).spec_config() == old(self).spec_config(),
            allowed_transition(old(self)@.state, final(self)@.state),
            old(self).wf() ==> final(self).wf(),
    {
        if !matches!(self.state, RecordingState::Processing) {
            return StepOutput::silent();
        }
        self.state = RecordingState::Idle;
        self.is_running = false;
        let enabled: bool = self.config.app_config.sound_enabled;
        match failure {
            None => {
                let mut events: Vec<PipelineEvent> = Vec::new();
                events.push(PipelineEvent::CopiedToClipboard { text: String::from_str(text) });
                events.push(PipelineEvent::StateChanged { state: RecordingState::Idle });
                let out = StepOutput { events, cue: cue_when(enabled, SoundCue::Success) };
                assert(out.published() =~= seq![
                    EventView::CopiedToClipboard { text: text@ },
                    EventView::StateChanged { state: RecordingState::Idle },
                ]);
                out
            },
            Some(reason) => {
                let message = String::from_str("Error copiando al clipboard: ").concat(
                    reason.as_str(),
                );
                let mut events: Vec<PipelineEvent> = Vec::new();
                events.push(PipelineEvent::Error { message });
                events.push(PipelineEvent::StateChanged { state: RecordingState::Idle });
                let out = StepOutput { events, cue: cue_when(enabled, SoundCue::Error) };
                assert(out.published() =~= seq![
                    EventView::Error { message: "Error copiando al clipboard: "@ + reason@ },
                    EventView::StateChanged { state: RecordingState::Idle },
                ]);
                out
            },
        }
    }

    /// A phase of the session has failed with `message`.
    ///
    /// Has an effect only on a claimed slot: the failure is published, the
    /// slot released and the state put back to idle, with that change
    /// published too where the state was not idle already.
    pub fn session_failed(&mut self, message: &str) -> (out: StepOutput)
        ensures
            old(self)@.is_running ==> {
                &&& final(self)@ == released(old(self)@)
                &&& out.published() == if old(self)@.state == RecordingState::Idle {
                    seq![EventView::Error { message: message@ }]
                } else {
                    seq![
                        EventView::Error { message: message@ },
                        EventView::StateChanged { state: RecordingState::Idle },
                    ]
                }
                &&& out.cue == cue_if(old(self)@.sound_enabled, SoundCue::Error)
            },
            !old(self)@.is_running ==> {
                &&& final(self)@ == old(self)@
                &&& out.published() == Seq::<EventView>::empty()
                &&& out.cue is None
            },
            final(self).spec_config() == old(self).spec_config(),
            old(self).wf() ==> allowed_transition(old(self)@.state, final(self)@.state),
            old(self).wf() ==> final(self).wf(),
    {
        if !self.is_running {
            return StepOutput::silent();
        }
        let was_idle: bool = matches!(self.state, RecordingState::Idle);
        self.state = RecordingState::Idle;
        self.is_running = false;
        let mut events: Vec<PipelineEvent> = Vec::new();
        events.push(PipelineEvent::Error { message: String::from_str(message) });
        if !was_idle {
            events.push(PipelineEvent::StateChanged { state: RecordingState::Idle });
        }
        let out = StepOutput {
            events,
            cue: cue_when(self.config.app_config.sound_enabled, SoundCue::Error),
        };
        if was_idle {
            assert(out.published() =~= seq![EventView::Error { message: message@ }]);
        } else {
            assert(out.published() =~= seq![
                EventView::Error { message: message@ },
                EventView::StateChanged { state: RecordingState::Idle },
            ]);
        }
        out
    }
}

/// Two toggles closer together than the debounce time change the orchestrator
/// at most once: one of them is ignored and leaves everything as it was.
pub proof fn lemma_debounce(m: PipelineModel, first_ms: u64, second_ms: u64)
    requires
        first_ms <= second_ms,
        second_ms - first_ms < DEBOUNCE_MS,
    ensures
        ({
            let (after_first, first) = toggled(m, first_ms);
            let (after_second, second) = toggled(after_first, second_ms);
            &&& first == ToggleDecision::Debounced || second == ToggleDecision::Debounced
            &&& first == ToggleDecision::Debounced ==> after_first == m
            &&& second == ToggleDecision::Debounced ==> after_second == after_first
            &&& first != ToggleDecision::Debounced ==> second == ToggleDecision::Debounced
        }),
{
}

/// A toggle never interrupts processing, and it starts a session only from an
/// idle orchestrator whose slot is free.
pub proof fn lemma_toggle_respects_session(m: PipelineModel, now_ms: u64)
    ensures
        ({
            let (after, decision) = toggled(m, now_ms);
            &&& m.state == RecordingState::Processing ==> after.state == RecordingState::Processing
                && after.is_running == m.is_running
            &&& decision == ToggleDecision::Start ==> !m.is_running && m.state
                == RecordingState::Idle && after.is_running
            &&& allowed_transition(m.state, after.state)
            &&& model_wf(m) ==> model_wf(after)
        }),
{
}

} // verus!
