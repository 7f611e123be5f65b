use capture::audio::{
    play_sound_if_enabled, SoundCue, CLIP_LEN, ERROR_SOUND, START_SOUND, STOP_SOUND, SUCCESS_SOUND,
};

#[test]
fn test_sound_bytes_exist() {
    assert!(!START_SOUND.is_empty());
    assert!(!STOP_SOUND.is_empty());
    assert!(!SUCCESS_SOUND.is_empty());
    assert!(!ERROR_SOUND.is_empty());
}

#[test]
fn test_get_bytes() {
    assert_eq!(SoundCue::Start.get_bytes().as_ptr(), START_SOUND.as_ptr());
    assert_eq!(SoundCue::Stop.get_bytes().as_ptr(), STOP_SOUND.as_ptr());
}

#[test]
fn every_cue_has_its_own_clip() {
    assert_eq!(SoundCue::Start.get_bytes(), &START_SOUND[..]);
    assert_eq!(SoundCue::Stop.get_bytes(), &STOP_SOUND[..]);
    assert_eq!(SoundCue::Success.get_bytes(), &SUCCESS_SOUND[..]);
    assert_eq!(SoundCue::Error.get_bytes(), &ERROR_SOUND[..]);
    assert_ne!(START_SOUND, STOP_SOUND);
    assert_ne!(START_SOUND, ERROR_SOUND);
    assert_ne!(SUCCESS_SOUND, STOP_SOUND);
}

#[test]
fn clips_are_well_formed_wav() {
    for cue in [SoundCue::Start, SoundCue::Stop, SoundCue::Success, SoundCue::Error] {
        let b = cue.get_bytes();
        assert_eq!(b.len(), CLIP_LEN);
        assert_eq!(&b[0..4], b"RIFF");
        assert_eq!(u32::from_le_bytes([b[4], b[5], b[6], b[7]]) as usize, b.len() - 8);
        assert_eq!(&b[8..16], b"WAVEfmt ");
        assert_eq!(u16::from_le_bytes([b[20], b[21]]), 1);
        assert_eq!(u16::from_le_bytes([b[22], b[23]]), 1);
        assert_eq!(u32::from_le_bytes([b[24], b[25], b[26], b[27]]), 8000);
        assert_eq!(u16::from_le_bytes([b[34], b[35]]), 8);
        assert_eq!(&b[36..40], b"data");
        assert_eq!(u32::from_le_bytes([b[40], b[41], b[42], b[43]]) as usize, b.len() - 44);
    }
}

#[test]
fn cues_are_silenced_when_switched_off() {
    assert_eq!(play_sound_if_enabled(SoundCue::Start, false), None);
    assert_eq!(play_sound_if_enabled(SoundCue::Error, true), Some(&ERROR_SOUND[..]));
}
