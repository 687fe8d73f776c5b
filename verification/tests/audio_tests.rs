use local_whisper::audio::{downmix, list_input_devices, mic_level, select_device};
use local_whisper::errors::AppError;

#[test]
fn stereo_downmix_averages_pairs() {
    let data: Vec<i32> = vec![10, 20, 30, 40];
    assert_eq!(downmix(&data, 2), vec![15, 35]);
}

#[test]
fn mono_downmix_is_identity() {
    let data: Vec<i32> = vec![5, -7, 9];
    assert_eq!(downmix(&data, 1), data);
}

#[test]
fn trailing_partial_frame_still_divides_by_channel_count() {
    // The last lone sample is averaged over the full channel count.
    let data: Vec<i32> = vec![10, 20, 30];
    assert_eq!(downmix(&data, 2), vec![15, 15]);
}

#[test]
fn downmix_of_negative_samples() {
    let data: Vec<i32> = vec![-10, -20];
    assert_eq!(downmix(&data, 2), vec![-15]);
}

#[test]
fn four_channel_downmix() {
    let data: Vec<i32> = vec![1, 2, 3, 6, 10, 10, 10, 10];
    assert_eq!(downmix(&data, 4), vec![3, 10]);
}

#[test]
fn device_list_marks_the_default() {
    let names = vec!["USB Mic".to_string(), "Built-in".to_string()];
    let default_name = "Built-in".to_string();
    let devices = list_input_devices(names, &default_name);
    assert_eq!(devices.len(), 2);
    assert_eq!(devices[0].name, "USB Mic");
    assert!(!devices[0].is_default);
    assert_eq!(devices[1].name, "Built-in");
    assert!(devices[1].is_default);
}

#[test]
fn select_device_finds_requested_name() {
    let names = vec!["A".to_string(), "B".to_string(), "B".to_string()];
    let r = select_device(&names, &Some("B".to_string()), Some(0));
    assert_eq!(r.unwrap(), 1);
}

#[test]
fn select_device_unknown_name_is_an_audio_error() {
    let names = vec!["A".to_string()];
    let r = select_device(&names, &Some("Z".to_string()), Some(0));
    match r {
        Err(AppError::Audio(m)) => assert_eq!(m, "Peripherique introuvable : Z"),
        other => panic!("expected an audio error, got {:?}", other),
    }
}

#[test]
fn select_device_without_request_takes_the_default() {
    let names = vec!["A".to_string(), "B".to_string()];
    let r = select_device(&names, &None, Some(1));
    assert_eq!(r.unwrap(), 1);
}

#[test]
fn select_device_without_any_default_is_an_audio_error() {
    let names: Vec<String> = Vec::new();
    let r = select_device(&names, &None, None);
    match r {
        Err(AppError::Audio(m)) => assert_eq!(m, "Aucun micro par defaut detecte"),
        other => panic!("expected an audio error, got {:?}", other),
    }
}

#[test]
fn mic_level_of_silence_is_zero() {
    assert_eq!(mic_level(&vec![0, 0, 0], 32768), 0);
    let empty: Vec<i32> = Vec::new();
    assert_eq!(mic_level(&empty, 32768), 0);
}

#[test]
fn mic_level_is_ten_times_the_rms() {
    // Constant amplitude 3000: RMS 3000, amplified to 30000.
    assert_eq!(mic_level(&vec![3000, 3000], 1_000_000), 30000);
}

#[test]
fn mic_level_clamps_to_full_scale() {
    assert_eq!(mic_level(&vec![30000, -30000], 32768), 32768);
}
