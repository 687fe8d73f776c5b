use local_whisper::arith::{floor_div_i64, isqrt_u64};
use local_whisper::clipboard::{
    copy_and_paste_plan, paste_key_sequence, KeyMotion, PasteKey, PasteModifier,
};
use local_whisper::sounds::{start_cue, stop_cue, wav_from_pcm16};

#[test]
fn start_cue_rises_and_stop_cue_falls() {
    let up = start_cue();
    assert_eq!(up.len(), 2);
    assert_eq!(up[0].frequency_hz, 880);
    assert_eq!(up[1].frequency_hz, 1100);
    assert_eq!(up[0].duration_ms, 80);
    assert_eq!(up[0].volume_permille, 300);
    let down = stop_cue();
    assert_eq!(down[0].frequency_hz, 1100);
    assert_eq!(down[1].frequency_hz, 880);
}

#[test]
fn wav_framing_is_byte_exact() {
    let samples: Vec<i16> = vec![0, 1000, -1000];
    let wav = wav_from_pcm16(&samples, 44100);
    let expected: Vec<u8> = vec![
        b'R', b'I', b'F', b'F', 42, 0, 0, 0, // file size 36 + 6
        b'W', b'A', b'V', b'E', b'f', b'm', b't', b' ', 16, 0, 0, 0, // fmt chunk size
        1, 0, // PCM
        1, 0, // mono
        0x44, 0xAC, 0, 0, // 44100 Hz
        0x88, 0x58, 1, 0, // byte rate 88200
        2, 0, // block align
        16, 0, // bits per sample
        b'd', b'a', b't', b'a', 6, 0, 0, 0, // data size
        0, 0, 0xE8, 0x03, 0x18, 0xFC, // 0, 1000, -1000
    ];
    assert_eq!(wav, expected);
}

#[test]
fn empty_recording_still_frames_a_valid_header() {
    let samples: Vec<i16> = Vec::new();
    let wav = wav_from_pcm16(&samples, 8000);
    assert_eq!(wav.len(), 44);
    assert_eq!(wav[0..4].to_vec(), b"RIFF".to_vec());
    assert_eq!(wav[8..12].to_vec(), b"WAVE".to_vec());
    assert_eq!(wav[36..40].to_vec(), b"data".to_vec());
    assert_eq!(wav[40..44].to_vec(), vec![0, 0, 0, 0]);
}

#[test]
fn paste_sequence_holds_the_modifier_around_v() {
    for modifier in [PasteModifier::Meta, PasteModifier::Control] {
        let steps = paste_key_sequence(modifier);
        assert_eq!(
            steps,
            vec![
                (KeyMotion::Press, PasteKey::Modifier),
                (KeyMotion::Click, PasteKey::LetterV),
                (KeyMotion::Release, PasteKey::Modifier),
            ]
        );
    }
}

#[test]
fn paste_only_happens_when_auto_paste_is_on() {
    assert!(copy_and_paste_plan(false, PasteModifier::Meta).is_none());
    let steps = copy_and_paste_plan(true, PasteModifier::Control).unwrap();
    assert_eq!(steps.len(), 3);
}

#[test]
fn floor_division_rounds_toward_negative_infinity() {
    assert_eq!(floor_div_i64(7, 2), 3);
    assert_eq!(floor_div_i64(-7, 2), -4);
    assert_eq!(floor_div_i64(-8, 2), -4);
    assert_eq!(floor_div_i64(0, 5), 0);
}

#[test]
fn integer_square_root_brackets_its_argument() {
    assert_eq!(isqrt_u64(0), 0);
    assert_eq!(isqrt_u64(1), 1);
    assert_eq!(isqrt_u64(10), 3);
    assert_eq!(isqrt_u64(16), 4);
    assert_eq!(isqrt_u64(u64::MAX), 0xFFFF_FFFF);
}
