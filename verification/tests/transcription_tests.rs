use local_whisper::errors::AppError;
use local_whisper::transcription::{
    assemble_transcript, dispatch_transcript, model_lookup_outcome, resolve_engine,
    transcribe_request, EngineSource, OutputAction,
};

#[test]
fn empty_audio_is_not_sent_to_the_engine() {
    let audio: Vec<i32> = Vec::new();
    assert!(transcribe_request(&audio, "fr").is_none());
}

#[test]
fn nonempty_audio_is_transcribed_with_fixed_flags() {
    let audio: Vec<i32> = vec![1, 2, 3];
    let params = transcribe_request(&audio, "fr").unwrap();
    assert_eq!(params.best_of, 1);
    assert!(!params.print_special);
    assert!(!params.print_progress);
    assert!(!params.print_realtime);
    assert!(!params.print_timestamps);
    assert!(params.no_timestamps);
    assert!(!params.single_segment);
    assert_eq!(params.language, Some("fr".to_string()));
}

#[test]
fn auto_language_lets_the_engine_detect() {
    let audio: Vec<i32> = vec![1];
    let params = transcribe_request(&audio, "auto").unwrap();
    assert_eq!(params.language, None);
}

#[test]
fn segments_are_joined_without_separators_and_trimmed() {
    let segments = vec!["  Bonjour".to_string(), " tout le monde ".to_string()];
    assert_eq!(assemble_transcript(&segments), "Bonjour tout le monde");
}

#[test]
fn all_whitespace_segments_give_an_empty_transcript() {
    let segments = vec!["  ".to_string(), "\t\n".to_string()];
    assert_eq!(assemble_transcript(&segments), "");
}

#[test]
fn no_segments_give_an_empty_transcript() {
    let segments: Vec<String> = Vec::new();
    assert_eq!(assemble_transcript(&segments), "");
}

#[test]
fn interior_whitespace_is_kept() {
    let segments = vec!["a ".to_string(), " b".to_string()];
    assert_eq!(assemble_transcript(&segments), "a  b");
}

#[test]
fn no_selected_model_aborts_with_a_message() {
    let r = model_lookup_outcome(&None, false);
    assert_eq!(
        r.unwrap_err(),
        "Aucun modele selectionne. Veuillez configurer un modele dans les parametres."
    );
}

#[test]
fn missing_model_file_aborts_with_a_message() {
    let r = model_lookup_outcome(&Some("ggml-base".to_string()), false);
    assert_eq!(
        r.unwrap_err(),
        "Aucun modele installe. Veuillez telecharger un modele dans les parametres."
    );
}

#[test]
fn installed_model_resolves_to_its_file() {
    let r = model_lookup_outcome(&Some("ggml-base".to_string()), true);
    assert_eq!(r.unwrap(), "models/ggml-base.bin");
}

#[test]
fn a_cached_context_is_reused() {
    let r = resolve_engine(true, &None, false);
    assert!(matches!(r, Ok(EngineSource::Cached)));
}

#[test]
fn without_a_cache_the_active_model_is_loaded() {
    let r = resolve_engine(false, &Some("ggml-tiny".to_string()), true);
    match r {
        Ok(EngineSource::LoadFrom(file)) => assert_eq!(file, "models/ggml-tiny.bin"),
        _ => panic!("expected a load decision"),
    }
}

#[test]
fn without_cache_or_model_transcription_is_abandoned() {
    let r = resolve_engine(false, &None, true);
    assert_eq!(
        r.unwrap_err(),
        "Aucun modele selectionne. Veuillez configurer un modele dans les parametres."
    );
}

#[test]
fn empty_transcript_is_only_announced() {
    let action = dispatch_transcript(Ok(String::new()), true);
    assert!(matches!(action, OutputAction::AnnounceEmpty));
}

#[test]
fn real_transcript_is_delivered_with_the_paste_setting() {
    let action = dispatch_transcript(Ok("bonjour".to_string()), true);
    match action {
        OutputAction::Deliver { text, auto_paste } => {
            assert_eq!(text, "bonjour");
            assert!(auto_paste);
        }
        other => panic!("expected delivery, got another action: {:?}", describe(&other)),
    }
}

#[test]
fn engine_failure_is_reported_to_the_user() {
    let action = dispatch_transcript(Err(AppError::Transcription("boom".to_string())), false);
    match action {
        OutputAction::Report { message } => {
            assert_eq!(message, "Erreur de transcription : boom");
        }
        other => panic!("expected a report, got another action: {:?}", describe(&other)),
    }
}

fn describe(action: &OutputAction) -> &'static str {
    match action {
        OutputAction::AnnounceEmpty => "announce-empty",
        OutputAction::Deliver { .. } => "deliver",
        OutputAction::Report { .. } => "report",
    }
}
