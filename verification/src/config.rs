//! The persisted user settings this pipeline reads: hotkey bindings, the
//! active model, the transcription language, the capture device and the
//! paste behaviour.
//!
//! Reading and writing the configuration file is an external collaborator's
//! job; the values, their defaults and the updates the interface performs
//! are plain data and live here.

use vstd::prelude::*;
use vstd::string::StringExecFns;

verus! {

/// The application's settings, replaced wholesale when the user saves.
#[derive(Debug, Clone)]
pub struct AppConfig {
    /// Toggle shortcut (press to start, press again to stop); empty means
    /// unbound.
    pub hotkey: String,
    /// Push-to-talk shortcut (hold to record); empty means unbound.
    pub hotkey_ptt: String,
    /// Whether a finished transcription is pasted as a keystroke after the
    /// clipboard write.
    pub auto_paste: bool,
    /// The selected model's identifier; `None` until one is chosen.
    pub active_model: Option<String>,
    /// Transcription language, or `"auto"` to let the engine detect it.
    pub language: String,
    /// The capture device's name; `None` selects the platform default.
    pub audio_device: Option<String>,
    /// The interface language.
    pub ui_locale: String,
    /// Whether the first-run setup has been completed.
    pub first_run_complete: bool,
}

/// The interface language used until one is chosen.
pub fn default_ui_locale() -> (l: String)
    ensures
        l@ == "en"@,
{
    String::from_str("en")
}

impl Default for AppConfig {
    /// The settings a fresh installation starts with.
    fn default() -> (c: Self)
        ensures
            c.hotkey@ == "Super+Insert"@,
            c.hotkey_ptt@ == "Insert"@,
            c.auto_paste == true,
            c.active_model is None,
            c.language@ == "fr"@,
            c.audio_device is None,
            c.ui_locale@ == "en"@,
            c.first_run_complete == false,
    {
        AppConfig {
            hotkey: String::from_str("Super+Insert"),
            hotkey_ptt: String::from_str("Insert"),
            auto_paste: true,
            active_model: None,
            language: String::from_str("fr"),
            audio_device: None,
            ui_locale: String::from_str("en"),
            first_run_complete: false,
        }
    }
}

impl AppConfig {
    /// Where the settings file lives under the data directory.
    pub fn config_path(app_data_dir: &str) -> (p: String)
        ensures
            p@ == app_data_dir@ + "/config.json"@,
    {
        String::from_str(app_data_dir).concat("/config.json")
    }

    /// Whether the first-run setup still has to be shown.
    pub fn is_first_run(&self) -> (r: bool)
        ensures
            r == !self.first_run_complete,
    {
        !self.first_run_complete
    }

    /// Record whether finished transcriptions are pasted automatically.
    pub fn set_auto_paste(&mut self, enabled: bool)
        ensures
            *final(self) == (AppConfig { auto_paste: enabled, ..*old(self) }),
    {
        self.auto_paste = enabled;
    }

    /// Record the transcription language.
    pub fn set_language(&mut self, language: String)
        ensures
            *final(self) == (AppConfig { language, ..*old(self) }),
    {
        self.language = language;
    }

    /// Record the interface language.
    pub fn set_ui_locale(&mut self, locale: String)
        ensures
            *final(self) == (AppConfig { ui_locale: locale, ..*old(self) }),
    {
        self.ui_locale = locale;
    }

    /// Record the capture device (`None` selects the platform default).
    pub fn set_audio_device(&mut self, device_name: Option<String>)
        ensures
            *final(self) == (AppConfig { audio_device: device_name, ..*old(self) }),
    {
        self.audio_device = device_name;
    }

    /// Record that the first-run setup has been completed.
    pub fn mark_setup_complete(&mut self)
        ensures
            *final(self) == (AppConfig { first_run_complete: true, ..*old(self) }),
    {
        self.first_run_complete = true;
    }

    /// Record a new toggle shortcut. Both bindings must be re-registered
    /// afterwards: the listener has no single-shortcut replace operation.
    pub fn set_hotkey(&mut self, new_hotkey: String)
        ensures
            *final(self) == (AppConfig { hotkey: new_hotkey, ..*old(self) }),
    {
        self.hotkey = new_hotkey;
    }

    /// Record a new push-to-talk shortcut. Both bindings must be
    /// re-registered afterwards.
    pub fn set_hotkey_ptt(&mut self, new_hotkey: String)
        ensures
            *final(self) == (AppConfig { hotkey_ptt: new_hotkey, ..*old(self) }),
    {
        self.hotkey_ptt = new_hotkey;
    }

    /// Record the loaded model as active.
    pub fn set_active_model(&mut self, model_id: String)
        ensures
            *final(self) == (AppConfig { active_model: Some(model_id), ..*old(self) }),
    {
        self.active_model = Some(model_id);
    }
}

} // verus!
