//! Application settings and the value types shared by the other modules.

pub mod settings;

pub use settings::{
    get_app_data_dir, get_model_path, get_models_dir, model_path_under, models_dir_under,
    app_data_dir_under, AppConfig, AudioDeviceInfo, ConfigError, DownloadProgress, DownloadStatus,
    ModelInfo, RecordingState, VadConfig, APP_DIR_NAME, DEFAULT_ENERGY_FALLBACK_BITS,
    DEFAULT_THRESHOLD_BITS, MODELS_DIR_NAME, MODEL_DOWNLOAD_URL, MODEL_EXPECTED_SIZE,
    MODEL_FILE_NAME,
};
