use capture::audio::SoundCue;
use capture::config::{AppConfig, ConfigError, RecordingState};
use capture::pipeline::{
    CaptureKind, ModelStep, Pipeline, PipelineConfig, PipelineError, PipelineEvent, StepOutput,
    ToggleDecision, DEBOUNCE_MS,
};

fn names(out: &StepOutput) -> Vec<String> {
    out.events.iter().map(describe).collect()
}

fn describe(event: &PipelineEvent) -> String {
    match event {
        PipelineEvent::StateChanged { state } => format!("state:{}", state.name()),
        PipelineEvent::SpeechStarted => "speech_started".to_string(),
        PipelineEvent::SpeechEnded { duration_ms } => format!("speech_ended:{duration_ms}"),
        PipelineEvent::TranscriptionComplete { text, audio_duration_ms, processing_time_ms } => {
            format!("transcribed:{text}:{audio_duration_ms}:{processing_time_ms}")
        }
        PipelineEvent::CopiedToClipboard { text } => format!("copied:{text}"),
        PipelineEvent::Error { message } => format!("error:{message}"),
    }
}

fn recording_pipeline() -> Pipeline {
    let mut pipeline = Pipeline::new(PipelineConfig::default());
    assert!(pipeline.toggle_recording(1_000).started());
    pipeline.start_recording();
    pipeline
}

#[test]
fn test_pipeline_config_default() {
    let config = PipelineConfig::default();
    assert_eq!(config.max_recording_duration_ms, 30_000);
    assert_eq!(config.app_config.language, "es");
}

#[test]
fn test_pipeline_creation() {
    let config = PipelineConfig::default();
    let pipeline = Pipeline::new(config);

    assert_eq!(pipeline.state(), RecordingState::Idle);
    assert!(!pipeline.is_running());
    assert!(!pipeline.is_cancel_requested());
    assert!(!pipeline.is_model_loaded());
}

#[test]
fn first_toggle_starts_a_session() {
    let mut pipeline = Pipeline::new(PipelineConfig::default());
    let outcome = pipeline.toggle_recording(0);
    assert_eq!(outcome.decision, ToggleDecision::Start);
    assert!(outcome.started());
    assert!(outcome.events.is_empty());
    assert!(pipeline.is_running());
    assert_eq!(pipeline.state(), RecordingState::Idle);

    let out = pipeline.start_recording();
    assert_eq!(names(&out), vec!["state:recording"]);
    assert_eq!(out.cue, Some(SoundCue::Start));
    assert_eq!(pipeline.state(), RecordingState::Recording);
}

#[test]
fn toggles_within_the_debounce_time_are_ignored() {
    assert_eq!(DEBOUNCE_MS, 300);
    let mut pipeline = recording_pipeline();
    let outcome = pipeline.toggle_recording(1_299);
    assert_eq!(outcome.decision, ToggleDecision::Debounced);
    assert!(!outcome.started());
    assert!(!pipeline.is_cancel_requested());
    assert_eq!(pipeline.state(), RecordingState::Recording);

    let outcome = pipeline.toggle_recording(1_300);
    assert_eq!(outcome.decision, ToggleDecision::Cancel);
    assert!(pipeline.is_cancel_requested());
    assert_eq!(pipeline.state(), RecordingState::Recording);
}

#[test]
fn a_clock_that_goes_back_counts_as_no_time_passed() {
    let mut pipeline = recording_pipeline();
    assert_eq!(pipeline.toggle_recording(10).decision, ToggleDecision::Debounced);
}

#[test]
fn toggle_while_starting_up_is_refused() {
    let mut pipeline = Pipeline::new(PipelineConfig::default());
    pipeline.toggle_recording(0);
    let outcome = pipeline.toggle_recording(5_000);
    assert_eq!(outcome.decision, ToggleDecision::RefusedStarting);
    assert!(pipeline.is_running());
    assert_eq!(pipeline.state(), RecordingState::Idle);
}

#[test]
fn toggle_while_processing_is_refused() {
    let mut pipeline = recording_pipeline();
    pipeline.capture_finished(CaptureKind::Captured);
    let outcome = pipeline.toggle_recording(9_000);
    assert_eq!(outcome.decision, ToggleDecision::RefusedProcessing);
    assert_eq!(pipeline.state(), RecordingState::Processing);
    assert!(pipeline.is_running());
    assert!(!pipeline.is_cancel_requested());
}

#[test]
fn successful_session_publishes_in_order() {
    let mut pipeline = recording_pipeline();
    let out = pipeline.capture_finished(CaptureKind::Captured);
    assert_eq!(names(&out), vec!["state:processing"]);
    assert_eq!(out.cue, Some(SoundCue::Stop));

    let out = pipeline.transcription_finished("hola mundo", 1_500, 420);
    assert_eq!(names(&out), vec!["transcribed:hola mundo:1500:420"]);
    assert_eq!(out.cue, None);
    assert_eq!(pipeline.state(), RecordingState::Processing);

    let out = pipeline.clipboard_finished("hola mundo", None);
    assert_eq!(names(&out), vec!["copied:hola mundo", "state:idle"]);
    assert_eq!(out.cue, Some(SoundCue::Success));
    assert_eq!(pipeline.state(), RecordingState::Idle);
    assert!(!pipeline.is_running());
}

#[test]
fn capture_without_speech_goes_straight_back_to_idle() {
    for kind in [CaptureKind::Cancelled, CaptureKind::NoSpeech] {
        let mut pipeline = recording_pipeline();
        let out = pipeline.capture_finished(kind);
        assert_eq!(names(&out), vec!["state:idle"]);
        assert_eq!(out.cue, Some(SoundCue::Stop));
        assert_eq!(pipeline.state(), RecordingState::Idle);
        assert!(!pipeline.is_running());
    }
}

#[test]
fn empty_text_ends_the_session_quietly() {
    let mut pipeline = recording_pipeline();
    pipeline.capture_finished(CaptureKind::Captured);
    let out = pipeline.transcription_finished("", 900, 100);
    assert_eq!(names(&out), vec!["state:idle"]);
    assert_eq!(out.cue, Some(SoundCue::Stop));
    assert!(!pipeline.is_running());
    assert_eq!(pipeline.state(), RecordingState::Idle);
}

#[test]
fn clipboard_failure_is_published_as_an_error() {
    let mut pipeline = recording_pipeline();
    pipeline.capture_finished(CaptureKind::Captured);
    pipeline.transcription_finished("texto", 900, 100);
    let out = pipeline.clipboard_finished("texto", Some("sin display".to_string()));
    assert_eq!(
        names(&out),
        vec!["error:Error copiando al clipboard: sin display", "state:idle"]
    );
    assert_eq!(out.cue, Some(SoundCue::Error));
    assert!(!pipeline.is_running());
}

#[test]
fn failure_releases_the_slot_in_every_state() {
    let mut starting = Pipeline::new(PipelineConfig::default());
    starting.toggle_recording(0);
    let out = starting.session_failed("sin modelo");
    assert_eq!(names(&out), vec!["error:sin modelo"]);
    assert_eq!(out.cue, Some(SoundCue::Error));
    assert!(!starting.is_running());

    let mut recording = recording_pipeline();
    let out = recording.session_failed("sin micrófono");
    assert_eq!(names(&out), vec!["error:sin micrófono", "state:idle"]);
    assert_eq!(recording.state(), RecordingState::Idle);
    assert!(!recording.is_running());

    let mut processing = recording_pipeline();
    processing.capture_finished(CaptureKind::Captured);
    let out = processing.session_failed("fallo de inferencia");
    assert_eq!(names(&out), vec!["error:fallo de inferencia", "state:idle"]);
    assert_eq!(processing.state(), RecordingState::Idle);
    assert!(!processing.is_running());

    let mut idle = Pipeline::new(PipelineConfig::default());
    let out = idle.session_failed("nada");
    assert!(out.events.is_empty());
    assert_eq!(out.cue, None);
}

#[test]
fn reports_out_of_turn_are_ignored() {
    let mut pipeline = Pipeline::new(PipelineConfig::default());
    assert!(pipeline.start_recording().events.is_empty());
    assert!(pipeline.capture_finished(CaptureKind::Captured).events.is_empty());
    assert!(pipeline.transcription_finished("x", 1, 1).events.is_empty());
    assert!(pipeline.clipboard_finished("x", None).events.is_empty());
    assert_eq!(pipeline.state(), RecordingState::Idle);
    assert!(!pipeline.is_running());

    let mut recording = recording_pipeline();
    assert!(recording.transcription_finished("x", 1, 1).events.is_empty());
    assert!(recording.start_recording().events.is_empty());
    assert_eq!(recording.state(), RecordingState::Recording);
}

#[test]
fn a_new_session_can_start_after_the_last_has_ended() {
    let mut pipeline = recording_pipeline();
    pipeline.toggle_recording(2_000);
    assert!(pipeline.is_cancel_requested());
    pipeline.capture_finished(CaptureKind::Cancelled);
    let outcome = pipeline.toggle_recording(3_000);
    assert_eq!(outcome.decision, ToggleDecision::Start);
    assert!(!pipeline.is_cancel_requested());
    assert!(pipeline.is_running());
}

#[test]
fn cues_follow_the_setting() {
    let mut config = PipelineConfig::default();
    config.app_config.sound_enabled = false;
    let mut pipeline = Pipeline::new(config);
    pipeline.toggle_recording(0);
    assert_eq!(pipeline.start_recording().cue, None);
    assert_eq!(pipeline.capture_finished(CaptureKind::Captured).cue, None);

    let mut louder = AppConfig::default();
    louder.language = "en".to_string();
    pipeline.update_config(louder);
    assert_eq!(pipeline.config().app_config.language, "en");
    assert_eq!(pipeline.state(), RecordingState::Processing);
    pipeline.transcription_finished("x", 1, 1);
    assert_eq!(pipeline.clipboard_finished("x", None).cue, Some(SoundCue::Success));
}

#[test]
fn model_is_loaded_once() {
    let mut pipeline = Pipeline::new(PipelineConfig::default());
    let path = "/data/capture/models/ggml-large-v3-turbo.bin".to_string();
    match pipeline.ensure_model_loaded(Ok(path.clone()), true) {
        Ok(ModelStep::Load { path: p, language }) => {
            assert_eq!(p, path);
            assert_eq!(language, "es");
        }
        other => panic!("unexpected {other:?}"),
    }
    assert_eq!(
        pipeline.ensure_model_loaded(Ok(path.clone()), false).unwrap_err(),
        PipelineError::ModelMissing
    );
    assert_eq!(
        pipeline.ensure_model_loaded(Err(ConfigError::NoDataDir), true).unwrap_err(),
        PipelineError::NoDataDir
    );
    assert_eq!(pipeline.require_transcriber(), Err(PipelineError::TranscriberUnavailable));
    pipeline.model_loaded();
    assert!(pipeline.is_model_loaded());
    assert_eq!(pipeline.require_transcriber(), Ok(()));
    assert!(matches!(
        pipeline.ensure_model_loaded(Err(ConfigError::NoDataDir), false),
        Ok(ModelStep::AlreadyLoaded)
    ));
    assert_eq!(
        PipelineError::ModelMissing.message(),
        "Modelo no encontrado. Ejecuta la descarga primero."
    );
    assert_eq!(PipelineError::TranscriberUnavailable.message(), "Transcriber no disponible");
}

#[test]
fn cancel_request_is_remembered() {
    let mut pipeline = recording_pipeline();
    assert!(!pipeline.is_cancel_requested());
    pipeline.cancel_recording();
    assert!(pipeline.is_cancel_requested());
    assert_eq!(pipeline.state(), RecordingState::Recording);
}
