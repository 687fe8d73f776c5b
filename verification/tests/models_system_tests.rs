use local_whisper::models::{get_model_path, list_models, model_file_name};
use local_whisper::permissions::check_permissions;
use local_whisper::system_info::{recommend_model, recommendation_for_this_machine, GIB};

#[test]
fn model_file_name_is_the_id_under_models() {
    assert_eq!(model_file_name("ggml-base"), "models/ggml-base.bin");
}

#[test]
fn catalog_has_fourteen_models() {
    let flags = vec![false; 14];
    let models = list_models(&flags);
    assert_eq!(models.len(), 14);
}

#[test]
fn catalog_first_entry_is_tiny() {
    let flags = vec![true; 14];
    let models = list_models(&flags);
    let tiny = &models[0];
    assert_eq!(tiny.id, "ggml-tiny");
    assert_eq!(tiny.name, "Tiny");
    assert_eq!(tiny.size_bytes, 77_700_000);
    assert_eq!(tiny.size_label, "75 Mo");
    assert_eq!(
        tiny.url,
        "https://huggingface.co/ggerganov/whisper.cpp/resolve/main/ggml-tiny.bin"
    );
    assert!(!tiny.is_english_only);
    assert!(!tiny.is_quantized);
    assert!(tiny.is_downloaded);
}

#[test]
fn catalog_flags_follow_the_install_state() {
    let mut flags = vec![false; 14];
    flags[3] = true;
    let models = list_models(&flags);
    assert!(models[3].is_downloaded);
    assert!(!models[2].is_downloaded);
}

#[test]
fn catalog_last_entry_is_quantized_large() {
    let flags = vec![false; 14];
    let models = list_models(&flags);
    let large = &models[13];
    assert_eq!(large.id, "ggml-large-v3-q5_0");
    assert_eq!(large.name, "Large v3 Q5");
    assert_eq!(large.size_bytes, 1_100_000_000);
    assert!(large.is_quantized);
    assert!(!large.is_english_only);
}

#[test]
fn english_only_models_are_marked() {
    let flags = vec![false; 14];
    let models = list_models(&flags);
    assert!(models[1].is_english_only);
    assert_eq!(models[1].id, "ggml-tiny.en");
}

#[test]
fn recommendation_thresholds() {
    assert_eq!(recommend_model(2 * GIB).0, "ggml-tiny-q5_1");
    assert_eq!(recommend_model(4 * GIB).0, "ggml-base");
    assert_eq!(recommend_model(8 * GIB).0, "ggml-small");
    assert_eq!(recommend_model(16 * GIB).0, "ggml-medium");
    assert_eq!(recommend_model(64 * GIB).0, "ggml-medium");
}

#[test]
fn recommendation_reason_matches_the_class() {
    let (model, reason) = recommend_model(6 * GIB);
    assert_eq!(model, "ggml-base");
    assert_eq!(
        reason,
        "Avec 4 à 8 Go de RAM, le modèle Base offre un bon équilibre entre précision et performance."
    );
}

#[test]
fn model_path_exists_only_for_installed_models() {
    assert_eq!(get_model_path("/data", "ggml-tiny", false), None);
    assert_eq!(
        get_model_path("/data", "ggml-tiny", true),
        Some("/data/models/ggml-tiny.bin".to_string())
    );
}

#[test]
fn machine_recommendation_agrees_with_the_thresholds() {
    // Runs the real memory probe; the recommendation must be the one the
    // decision table gives for the probed byte count.
    let (bytes, model, reason) = recommendation_for_this_machine();
    let (expected_model, expected_reason) = recommend_model(bytes);
    assert_eq!(model, expected_model);
    assert_eq!(reason, expected_reason);
}

#[test]
fn permissions_are_granted_without_a_broker() {
    let status = check_permissions();
    assert!(status.microphone);
    assert!(status.accessibility);
}
