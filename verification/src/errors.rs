//! Error kinds surfaced to the user interface.
//!
//! Every failure is reported as a human-readable string; none is fatal to
//! the process. `message` renders the French prefix the interface shows for
//! each kind.

use vstd::prelude::*;
use vstd::string::StringExecFns;

verus! {

/// A failure in one of the pipeline's collaborators, with detail text.
#[derive(Clone, Debug)]
pub enum AppError {
    /// Device enumeration, configuration or stream failure.
    Audio(String),
    /// Model load or inference failure.
    Transcription(String),
    /// Configuration read, write or parse failure.
    Config(String),
    /// Clipboard write or paste simulation failure.
    Clipboard(String),
    /// Shortcut parse or registration failure.
    Hotkey(String),
    /// Model download failure.
    Download(String),
    /// Filesystem failure, carried as its rendered text.
    Io(String),
}

impl AppError {
    /// The detail text the error was built with.
    pub open spec fn detail_spec(&self) -> Seq<char> {
        match self {
            AppError::Audio(s) => s@,
            AppError::Transcription(s) => s@,
            AppError::Config(s) => s@,
            AppError::Clipboard(s) => s@,
            AppError::Hotkey(s) => s@,
            AppError::Download(s) => s@,
            AppError::Io(s) => s@,
        }
    }

    /// The full user-visible message: a kind prefix followed by the detail.
    pub open spec fn message_spec(&self) -> Seq<char> {
        match self {
            AppError::Audio(s) => "Erreur audio : "@ + s@,
            AppError::Transcription(s) => "Erreur de transcription : "@ + s@,
            AppError::Config(s) => "Erreur de configuration : "@ + s@,
            AppError::Clipboard(s) => "Erreur presse-papier : "@ + s@,
            AppError::Hotkey(s) => "Erreur raccourci clavier : "@ + s@,
            AppError::Download(s) => "Erreur de téléchargement : "@ + s@,
            AppError::Io(s) => "Erreur I/O : "@ + s@,
        }
    }

    /// Render the user-visible message for this error.
    pub fn message(&self) -> (m: String)
        ensures
            m@ == self.message_spec(),
    {
        match self {
            AppError::Audio(s) => String::from_str("Erreur audio : ").concat(s.as_str()),
            AppError::Transcription(s) => String::from_str("Erreur de transcription : ").concat(
                s.as_str(),
            ),
            AppError::Config(s) => String::from_str("Erreur de configuration : ").concat(
                s.as_str(),
            ),
            AppError::Clipboard(s) => String::from_str("Erreur presse-papier : ").concat(
                s.as_str(),
            ),
            AppError::Hotkey(s) => String::from_str("Erreur raccourci clavier : ").concat(
                s.as_str(),
            ),
            AppError::Download(s) => String::from_str("Erreur de téléchargement : ").concat(
                s.as_str(),
            ),
            AppError::Io(s) => String::from_str("Erreur I/O : ").concat(s.as_str()),
        }
    }
}

/// Shorthand for results whose failure side is an [`AppError`].
pub type AppResult<T> = Result<T, AppError>;

} // verus!
