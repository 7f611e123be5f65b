//! The settings schema, its defaults, and where the model lives on disk.

use vstd::prelude::*;
use vstd::string::StringExecFns;

verus! {

/// Bit pattern of the default speech-probability threshold, `0.35`.
pub const DEFAULT_THRESHOLD_BITS: u32 = 0x3EB3_3333;

/// Bit pattern of the default energy threshold of the fallback path, `0.005`.
pub const DEFAULT_ENERGY_FALLBACK_BITS: u32 = 0x3BA3_D70A;

/// Where the model is downloaded from.
pub const MODEL_DOWNLOAD_URL: &'static str =
    "https://huggingface.co/ggerganov/whisper.cpp/resolve/main/ggml-large-v3-turbo.bin";

/// Approximate size of the model file in bytes.
pub const MODEL_EXPECTED_SIZE: u64 = 1_550_000_000;

/// Name of the application's directory below the user's data directory.
pub const APP_DIR_NAME: &'static str = "capture";

/// Name of the directory that holds model files.
pub const MODELS_DIR_NAME: &'static str = "models";

/// File name of the transcription model.
pub const MODEL_FILE_NAME: &'static str = "ggml-large-v3-turbo.bin";

/// Settings of the voice-activity detector.
///
/// The two levels are bit patterns of single-precision values.
#[derive(Debug, Clone, Copy, PartialEq, Eq, Structural)]
pub struct VadConfig {
    /// Speech probability above which a window counts as speech.
    pub threshold_bits: u32,
    /// Shortest run of speech, in milliseconds, that confirms a segment.
    pub min_speech_duration_ms: u64,
    /// Shortest run of silence, in milliseconds, that ends a segment.
    pub min_silence_duration_ms: u64,
    /// Audio kept from before the confirmed start, in milliseconds.
    pub speech_pad_ms: u64,
    /// Root-mean-square energy above which the fallback path reports speech.
    pub energy_fallback_threshold_bits: u32,
}

impl Default for VadConfig {
    fn default() -> (r: Self)
        ensures
            r.threshold_bits == DEFAULT_THRESHOLD_BITS,
            r.min_speech_duration_ms == 150,
            r.min_silence_duration_ms == 800,
            r.speech_pad_ms == 300,
            r.energy_fallback_threshold_bits == DEFAULT_ENERGY_FALLBACK_BITS,
    {
        VadConfig {
            threshold_bits: DEFAULT_THRESHOLD_BITS,
            min_speech_duration_ms: 150,
            min_silence_duration_ms: 800,
            speech_pad_ms: 300,
            energy_fallback_threshold_bits: DEFAULT_ENERGY_FALLBACK_BITS,
        }
    }
}

/// The user's settings.
#[derive(Debug, Clone)]
pub struct AppConfig {
    /// Chosen input device; `None` selects the system default.
    pub audio_device_id: Option<String>,
    /// Global shortcut that toggles recording.
    pub shortcut: String,
    /// Language code handed to the transcriber.
    pub language: String,
    /// Whether audible cues are played.
    pub sound_enabled: bool,
    /// Detector settings.
    pub vad: VadConfig,
}

impl Default for AppConfig {
    fn default() -> (r: Self)
        ensures
            r.audio_device_id is None,
            r.shortcut@ == "Ctrl+Shift+Space"@,
            r.language@ == "es"@,
            r.sound_enabled,
            r.vad.threshold_bits == DEFAULT_THRESHOLD_BITS,
            r.vad.min_speech_duration_ms == 150,
            r.vad.min_silence_duration_ms == 800,
            r.vad.speech_pad_ms == 300,
            r.vad.energy_fallback_threshold_bits == DEFAULT_ENERGY_FALLBACK_BITS,
    {
        AppConfig {
            audio_device_id: None,
            shortcut: String::from_str("Ctrl+Shift+Space"),
            language: String::from_str("es"),
            sound_enabled: true,
            vad: VadConfig::default(),
        }
    }
}

/// One input device as shown to the user.
#[derive(Debug, Clone)]
pub struct AudioDeviceInfo {
    /// Identifier by which the device is selected.
    pub id: String,
    /// Readable name.
    pub name: String,
    /// Whether this is the system's default input.
    pub is_default: bool,
}

/// What the user sees the engine doing.
#[derive(Debug, Clone, Copy, PartialEq, Eq, Structural)]
pub enum RecordingState {
    /// Waiting for a toggle.
    Idle,
    /// Capturing microphone audio.
    Recording,
    /// Transcribing what was captured.
    Processing,
}

impl Default for RecordingState {
    fn default() -> (r: Self)
        ensures
            r == RecordingState::Idle,
    {
        RecordingState::Idle
    }
}

impl RecordingState {
    /// The lower-case name under which the state is published.
    pub open spec fn spec_name(self) -> Seq<char> {
        match self {
            RecordingState::Idle => "idle"@,
            RecordingState::Recording => "recording"@,
            RecordingState::Processing => "processing"@,
        }
    }

    /// The lower-case name under which the state is published.
    pub fn name(&self) -> (r: &'static str)
        ensures
            r@ == self.spec_name(),
    {
        match self {
            RecordingState::Idle => "idle",
            RecordingState::Recording => "recording",
            RecordingState::Processing => "processing",
        }
    }
}

/// Facts about the model file.
#[derive(Debug, Clone)]
pub struct ModelInfo {
    /// Where the file is.
    pub path: String,
    /// Name of the model.
    pub name: String,
    /// Size of the file in bytes.
    pub size_bytes: u64,
    /// Whether the file is present and large enough to be the model.
    pub verified: bool,
}

/// How far a download has come.
#[derive(Debug, Clone, Copy, PartialEq, Eq, Structural)]
pub struct DownloadProgress {
    /// Bytes received so far.
    pub downloaded: u64,
    /// Bytes expected in all.
    pub total: u64,
    /// Stage of the download.
    pub status: DownloadStatus,
}

/// Stage of a download.
#[derive(Debug, Clone, Copy, PartialEq, Eq, Structural)]
pub enum DownloadStatus {
    /// Getting ready.
    Preparing,
    /// Receiving bytes.
    Downloading,
    /// Checking what was received.
    Verifying,
    /// Finished.
    Completed,
    /// Gave up.
    Failed,
}

impl DownloadStatus {
    /// The lower-case name under which the stage is published.
    pub open spec fn spec_name(self) -> Seq<char> {
        match self {
            DownloadStatus::Preparing => "preparing"@,
            DownloadStatus::Downloading => "downloading"@,
            DownloadStatus::Verifying => "verifying"@,
            DownloadStatus::Completed => "completed"@,
            DownloadStatus::Failed => "failed"@,
        }
    }

    /// The lower-case name under which the stage is published.
    pub fn name(&self) -> (r: &'static str)
        ensures
            r@ == self.spec_name(),
    {
        match self {
            DownloadStatus::Preparing => "preparing",
            DownloadStatus::Downloading => "downloading",
            DownloadStatus::Verifying => "verifying",
            DownloadStatus::Completed => "completed",
            DownloadStatus::Failed => "failed",
        }
    }
}

/// Why a location could not be given.
#[derive(Debug, Clone, Copy, PartialEq, Eq, Structural)]
pub enum ConfigError {
    /// The platform names no data directory for this user.
    NoDataDir,
}

impl ConfigError {
    /// The message shown for the error.
    pub fn message(&self) -> (r: &'static str)
        ensures
            r@ == "No se pudo determinar el directorio de datos"@,
    {
        "No se pudo determinar el directorio de datos"
    }
}

/// `base`, a separator, then `name`.
pub open spec fn joined(base: Seq<char>, name: Seq<char>) -> Seq<char> {
    base + "/"@ + name
}

/// The application's directory below a data directory.
pub open spec fn spec_app_data_dir(data_dir: Seq<char>) -> Seq<char> {
    joined(data_dir, APP_DIR_NAME@)
}

/// The models directory below a data directory.
pub open spec fn spec_models_dir(data_dir: Seq<char>) -> Seq<char> {
    joined(spec_app_data_dir(data_dir), MODELS_DIR_NAME@)
}

/// The model file below a data directory.
pub open spec fn spec_model_path(data_dir: Seq<char>) -> Seq<char> {
    joined(spec_models_dir(data_dir), MODEL_FILE_NAME@)
}

fn join(base: String, name: &str) -> (r: String)
    ensures
        r@ == joined(base@, name@),
{
    base.concat("/").concat(name)
}

/// The user's data directory as the platform reports it.
///
/// Calls `dirs::data_dir`. The answer depends on the platform and on the
/// environment of the process, so nothing is claimed of it. A directory whose
/// name is not valid UTF-8 is reported as absent.
#[verifier::external_body]
fn platform_data_dir() -> (r: Option<String>) {
    dirs::data_dir().and_then(|p| p.into_os_string().into_string().ok())
}

/// The application's directory below the given data directory.
pub fn app_data_dir_under(data_dir: Option<String>) -> (r: Result<String, ConfigError>)
    ensures
        data_dir is None ==> r == Err::<String, ConfigError>(ConfigError::NoDataDir),
        data_dir is Some ==> r is Ok && r->Ok_0@ == spec_app_data_dir(data_dir->Some_0@),
{
    match data_dir {
        Some(base) => Ok(join(base, APP_DIR_NAME)),
        None => Err(ConfigError::NoDataDir),
    }
}

/// The models directory below the given data directory.
pub fn models_dir_under(data_dir: Option<String>) -> (r: Result<String, ConfigError>)
    ensures
        data_dir is None ==> r == Err::<String, ConfigError>(ConfigError::NoDataDir),
        data_dir is Some ==> r is Ok && r->Ok_0@ == spec_models_dir(data_dir->Some_0@),
{
    match app_data_dir_under(data_dir) {
        Ok(dir) => Ok(join(dir, MODELS_DIR_NAME)),
        Err(e) => Err(e),
    }
}

/// The model file below the given data directory.
pub fn model_path_under(data_dir: Option<String>) -> (r: Result<String, ConfigError>)
    ensures
        data_dir is None ==> r == Err::<String, ConfigError>(ConfigError::NoDataDir),
        data_dir is Some ==> r is Ok && r->Ok_0@ == spec_model_path(data_dir->Some_0@),
{
    match models_dir_under(data_dir) {
        Ok(dir) => Ok(join(dir, MODEL_FILE_NAME)),
        Err(e) => Err(e),
    }
}

/// The application's data directory for the current user.
///
/// Fails only with `NoDataDir`; on success the path ends in the application's
/// directory name.
pub fn get_app_data_dir() -> (r: Result<String, ConfigError>)
    ensures
        r is Err ==> r->Err_0 == ConfigError::NoDataDir,
        r is Ok ==> exists|base: Seq<char>| r->Ok_0@ == spec_app_data_dir(base),
{
    app_data_dir_under(platform_data_dir())
}

/// The directory that holds model files for the current user.
pub fn get_models_dir() -> (r: Result<String, ConfigError>)
    ensures
        r is Err ==> r->Err_0 == ConfigError::NoDataDir,
        r is Ok ==> exists|base: Seq<char>| r->Ok_0@ == spec_models_dir(base),
{
    models_dir_under(platform_data_dir())
}

/// The model file for the current user.
pub fn get_model_path() -> (r: Result<String, ConfigError>)
    ensures
        r is Err ==> r->Err_0 == ConfigError::NoDataDir,
        r is Ok ==> exists|base: Seq<char>| r->Ok_0@ == spec_model_path(base),
{
    model_path_under(platform_data_dir())
}

} // verus!
