use local_whisper::config::{default_ui_locale, AppConfig};
use local_whisper::errors::AppError;
use local_whisper::hotkey::{binding_registration, normalize_hotkey};

#[test]
fn super_is_rewritten_to_ctrl_on_windows() {
    assert_eq!(normalize_hotkey("Super+Insert", true), "Ctrl+Insert");
}

#[test]
fn other_hosts_keep_the_shortcut_as_written() {
    assert_eq!(normalize_hotkey("Super+Insert", false), "Super+Insert");
}

#[test]
fn every_occurrence_of_super_is_rewritten() {
    assert_eq!(normalize_hotkey("SuperSuper", true), "CtrlCtrl");
    assert_eq!(normalize_hotkey("Shift+Super+S", true), "Shift+Ctrl+S");
}

#[test]
fn partial_and_absent_matches_are_untouched() {
    assert_eq!(normalize_hotkey("Sup", true), "Sup");
    assert_eq!(normalize_hotkey("Ctrl+Alt+S", true), "Ctrl+Alt+S");
    assert_eq!(normalize_hotkey("", true), "");
}

#[test]
fn empty_binding_registers_nothing() {
    assert!(binding_registration("", true).is_none());
    assert!(binding_registration("", false).is_none());
}

#[test]
fn bound_shortcut_registers_its_normalized_form() {
    assert_eq!(binding_registration("Insert", false).unwrap(), "Insert");
    assert_eq!(binding_registration("Super+D", true).unwrap(), "Ctrl+D");
}

#[test]
fn default_config_values() {
    let c = AppConfig::default();
    assert_eq!(c.hotkey, "Super+Insert");
    assert_eq!(c.hotkey_ptt, "Insert");
    assert!(c.auto_paste);
    assert_eq!(c.active_model, None);
    assert_eq!(c.language, "fr");
    assert_eq!(c.audio_device, None);
    assert_eq!(c.ui_locale, "en");
    assert!(!c.first_run_complete);
    assert_eq!(default_ui_locale(), "en");
}

#[test]
fn config_updates_touch_only_their_field() {
    let mut c = AppConfig::default();
    c.set_language("en".to_string());
    assert_eq!(c.language, "en");
    assert_eq!(c.hotkey, "Super+Insert");
    c.set_auto_paste(false);
    assert!(!c.auto_paste);
    c.set_audio_device(Some("USB Mic".to_string()));
    assert_eq!(c.audio_device, Some("USB Mic".to_string()));
    c.set_ui_locale("fr".to_string());
    assert_eq!(c.ui_locale, "fr");
    c.set_hotkey("Alt+R".to_string());
    c.set_hotkey_ptt("F13".to_string());
    assert_eq!(c.hotkey, "Alt+R");
    assert_eq!(c.hotkey_ptt, "F13");
    c.set_active_model("ggml-base".to_string());
    assert_eq!(c.active_model, Some("ggml-base".to_string()));
    assert_eq!(c.language, "en");
}

#[test]
fn first_run_follows_the_setup_flag() {
    let mut c = AppConfig::default();
    assert!(c.is_first_run());
    c.mark_setup_complete();
    assert!(!c.is_first_run());
}

#[test]
fn config_path_is_under_the_data_directory() {
    assert_eq!(AppConfig::config_path("/data/app"), "/data/app/config.json");
}

#[test]
fn error_messages_carry_their_kind_prefix() {
    assert_eq!(AppError::Audio("a".to_string()).message(), "Erreur audio : a");
    assert_eq!(
        AppError::Transcription("b".to_string()).message(),
        "Erreur de transcription : b"
    );
    assert_eq!(AppError::Config("c".to_string()).message(), "Erreur de configuration : c");
    assert_eq!(AppError::Clipboard("d".to_string()).message(), "Erreur presse-papier : d");
    assert_eq!(AppError::Hotkey("e".to_string()).message(), "Erreur raccourci clavier : e");
    assert_eq!(AppError::Download("f".to_string()).message(), "Erreur de téléchargement : f");
    assert_eq!(AppError::Io("g".to_string()).message(), "Erreur I/O : g");
}
