use capture::config::{
    app_data_dir_under, get_model_path, get_models_dir, model_path_under, models_dir_under,
    AppConfig, ConfigError, DownloadStatus, RecordingState, VadConfig, MODEL_EXPECTED_SIZE,
};

#[test]
fn test_default_config() {
    let config = AppConfig::default();
    assert_eq!(config.shortcut, "Ctrl+Shift+Space");
    assert_eq!(config.language, "es");
    assert!(config.sound_enabled);
    assert_eq!(f32::from_bits(config.vad.threshold_bits), 0.35);
}

#[test]
fn test_recording_state_serialization() {
    let state = RecordingState::Recording;
    let json = format!("\"{}\"", state.name());
    assert_eq!(json, "\"recording\"");
}

#[test]
fn default_vad_config_has_the_documented_values() {
    let vad = VadConfig::default();
    assert_eq!(f32::from_bits(vad.threshold_bits), 0.35);
    assert_eq!(vad.min_speech_duration_ms, 150);
    assert_eq!(vad.min_silence_duration_ms, 800);
    assert_eq!(vad.speech_pad_ms, 300);
    assert_eq!(f32::from_bits(vad.energy_fallback_threshold_bits), 0.005);
    assert_eq!(AppConfig::default().audio_device_id, None);
}

#[test]
fn state_names_are_lower_case() {
    assert_eq!(RecordingState::Idle.name(), "idle");
    assert_eq!(RecordingState::Processing.name(), "processing");
    assert_eq!(RecordingState::default(), RecordingState::Idle);
    assert_eq!(DownloadStatus::Preparing.name(), "preparing");
    assert_eq!(DownloadStatus::Downloading.name(), "downloading");
    assert_eq!(DownloadStatus::Verifying.name(), "verifying");
    assert_eq!(DownloadStatus::Completed.name(), "completed");
    assert_eq!(DownloadStatus::Failed.name(), "failed");
}

#[test]
fn model_lives_below_the_data_directory() {
    let base = Some("/home/alice/.local/share".to_string());
    assert_eq!(
        app_data_dir_under(base.clone()).unwrap(),
        "/home/alice/.local/share/capture"
    );
    assert_eq!(
        models_dir_under(base.clone()).unwrap(),
        "/home/alice/.local/share/capture/models"
    );
    assert_eq!(
        model_path_under(base).unwrap(),
        "/home/alice/.local/share/capture/models/ggml-large-v3-turbo.bin"
    );
}

#[test]
fn no_data_directory_is_an_error() {
    assert_eq!(app_data_dir_under(None), Err(ConfigError::NoDataDir));
    assert_eq!(models_dir_under(None), Err(ConfigError::NoDataDir));
    assert_eq!(model_path_under(None), Err(ConfigError::NoDataDir));
    assert_eq!(
        ConfigError::NoDataDir.message(),
        "No se pudo determinar el directorio de datos"
    );
}

#[test]
fn platform_paths_end_in_the_expected_names() {
    match get_models_dir() {
        Ok(dir) => assert!(dir.ends_with("/capture/models")),
        Err(e) => assert_eq!(e, ConfigError::NoDataDir),
    }
    match get_model_path() {
        Ok(path) => {
            assert!(path.ends_with("/capture/models/ggml-large-v3-turbo.bin"));
            let dir = get_models_dir().unwrap();
            assert_eq!(path, format!("{}/ggml-large-v3-turbo.bin", dir));
        }
        Err(e) => assert_eq!(e, ConfigError::NoDataDir),
    }
    assert_eq!(MODEL_EXPECTED_SIZE, 1_550_000_000);
}
