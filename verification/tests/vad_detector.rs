use capture::config::VadConfig;
use capture::vad::{VadDetector, VadError, VadMethod, WINDOW_SAMPLES};

fn rms(samples: &[f32]) -> f32 {
    let sum_squares: f32 = samples.iter().map(|s| s * s).sum();
    (sum_squares / samples.len() as f32).sqrt()
}

fn energy(samples: &[f32]) -> Option<(u32, u32)> {
    if samples.is_empty() {
        None
    } else {
        let r = rms(samples);
        Some((r.to_bits(), (r / 0.15).to_bits()))
    }
}

#[test]
fn test_vad_creation() {
    let config = VadConfig::default();
    let result = VadDetector::new(16000, config);
    assert!(result.is_ok());
}

#[test]
fn test_energy_fallback() {
    let config = VadConfig::default();
    let detector = VadDetector::new(16000, config).unwrap();

    let silence = vec![0.0f32; 100];
    let result = detector.predict_energy(energy(&silence));
    assert!(!result.is_speech);
    assert_eq!(result.method, VadMethod::Energy);

    let noise: Vec<f32> = (0..100).map(|i| (i as f32 * 0.1).sin() * 0.5).collect();
    let result = detector.predict_energy(energy(&noise));
    assert!(result.is_speech);
}

#[test]
fn unsupported_rate_is_refused() {
    assert_eq!(
        VadDetector::new(44_100, VadConfig::default()),
        Err(VadError::UnsupportedSampleRate)
    );
    assert_eq!(
        VadDetector::new(8_000, VadConfig::default()),
        Err(VadError::UnsupportedSampleRate)
    );
    assert_eq!(VadDetector::new(0, VadConfig::default()), Err(VadError::UnsupportedSampleRate));
    assert!(VadDetector::new(16_000, VadConfig::default()).is_ok());
}

#[test]
fn short_windows_go_to_the_energy_path() {
    let detector = VadDetector::new(16000, VadConfig::default()).unwrap();
    assert_eq!(WINDOW_SAMPLES, 512);
    assert_eq!(detector.method_for(0), VadMethod::Energy);
    assert_eq!(detector.method_for(511), VadMethod::Energy);
    assert_eq!(detector.method_for(512), VadMethod::Silero);
    assert_eq!(detector.method_for(4096), VadMethod::Silero);
}

#[test]
fn probability_is_held_against_the_threshold() {
    let detector = VadDetector::new(16000, VadConfig::default()).unwrap();
    let at = detector.predict(0.35f32.to_bits());
    assert!(!at.is_speech);
    assert_eq!(at.method, VadMethod::Silero);
    assert_eq!(f32::from_bits(at.probability_bits), 0.35);
    assert!(detector.predict(0.350_000_1f32.to_bits()).is_speech);
    assert!(!detector.predict(f32::NAN.to_bits()).is_speech);
}

#[test]
fn energy_path_scales_and_limits_the_probability() {
    let detector = VadDetector::new(16000, VadConfig::default()).unwrap();
    let empty = detector.predict_energy(None);
    assert_eq!(f32::from_bits(empty.probability_bits), 0.0);
    assert!(!empty.is_speech);
    assert_eq!(empty.method, VadMethod::Energy);

    let loud = detector.predict_energy(energy(&[0.3; 10]));
    assert_eq!(f32::from_bits(loud.probability_bits), 1.0);
    assert!(loud.is_speech);

    let faint = detector.predict_energy(energy(&[0.003; 10]));
    assert!(!faint.is_speech);
    let p = f32::from_bits(faint.probability_bits);
    assert!((p - 0.02).abs() < 1.0e-6);
}

#[test]
fn threshold_is_limited_to_the_unit_interval() {
    let mut detector = VadDetector::new(16000, VadConfig::default()).unwrap();
    detector.set_threshold(1.7f32.to_bits());
    assert_eq!(f32::from_bits(detector.config().threshold_bits), 1.0);
    detector.set_threshold((-0.2f32).to_bits());
    assert_eq!(f32::from_bits(detector.config().threshold_bits), 0.0);
    detector.set_threshold(0.6f32.to_bits());
    assert_eq!(f32::from_bits(detector.config().threshold_bits), 0.6);
    assert_eq!(detector.config().min_speech_duration_ms, 150);
}
