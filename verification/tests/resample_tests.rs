use local_whisper::resample::resample;

#[test]
fn identity_rate_preserves_samples_exactly() {
    let input: Vec<i32> = vec![100, -200, 300, 0, 7];
    let out = resample(&input, 44100, 44100);
    assert_eq!(out, input);
}

#[test]
fn identity_rate_preserves_length() {
    let input: Vec<i32> = (0..1000).map(|i| i * 3 - 1500).collect();
    let out = resample(&input, 48000, 48000);
    assert_eq!(out.len(), input.len());
    assert_eq!(out, input);
}

#[test]
fn length_law_44100_to_16000() {
    let input: Vec<i32> = vec![0; 44100];
    let out = resample(&input, 44100, 16000);
    assert_eq!(out.len(), 16000);
}

#[test]
fn length_law_48000_to_16000() {
    let input: Vec<i32> = vec![0; 48000];
    let out = resample(&input, 48000, 16000);
    assert_eq!(out.len(), 16000);
}

#[test]
fn length_law_rounds_down() {
    // floor(1000 * 16000 / 44100) == 362
    let input: Vec<i32> = vec![0; 1000];
    let out = resample(&input, 44100, 16000);
    assert_eq!(out.len(), 362);
}

#[test]
fn upsampling_interpolates_linearly() {
    // Doubling the rate: position i/2, so odd outputs sit halfway between
    // neighbours and the final one clamps to the last sample.
    let input: Vec<i32> = vec![0, 1000];
    let out = resample(&input, 1, 2);
    assert_eq!(out, vec![0, 500, 1000, 1000]);
}

#[test]
fn empty_input_gives_empty_output() {
    let input: Vec<i32> = Vec::new();
    let out = resample(&input, 48000, 16000);
    assert!(out.is_empty());
}

#[test]
fn downsampling_by_half_keeps_even_samples() {
    let input: Vec<i32> = vec![10, 20, 30, 40, 50, 60];
    let out = resample(&input, 2, 1);
    assert_eq!(out, vec![10, 30, 50]);
}
