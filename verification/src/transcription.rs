//! The transcription pipeline's decisions: when the recognition engine is
//! invoked at all, with which parameters, how its segment texts become the
//! final transcript, and how the outcome is routed to the output
//! collaborator.
//!
//! The engine itself is an external collaborator (`load` a model file,
//! `transcribe` 16 kHz mono samples); it runs on a background worker and
//! hands back one text per segment. Everything around those calls is here,
//! on plain values.

use vstd::prelude::*;
use vstd::string::{StrSliceExecFns, StringExecFns};
use crate::errors::AppError;

verus! {

/// Whether a character counts as white space when a transcript is trimmed.
pub uninterp spec fn char_is_space(c: char) -> bool;

/// Relies on `char::is_whitespace`: whether a character is Unicode white
/// space depends on the character alone.
#[verifier::external_body]
fn is_space_char(c: char) -> (r: bool)
    ensures
        r == char_is_space(c),
{
    c.is_whitespace()
}

/// Decoding parameters for one engine invocation: greedy single-candidate
/// sampling with special, progress and timestamp output disabled, and the
/// user's language unless auto-detection was requested.
pub struct EngineParams {
    /// Number of decoding candidates (greedy sampling keeps the best of 1).
    pub best_of: u32,
    /// The language to transcribe in; `None` lets the engine auto-detect.
    pub language: Option<String>,
    /// Print special tokens: disabled.
    pub print_special: bool,
    /// Print progress: disabled.
    pub print_progress: bool,
    /// Print results as they arrive: disabled.
    pub print_realtime: bool,
    /// Print per-segment timestamps: disabled.
    pub print_timestamps: bool,
    /// Suppress timestamp tokens entirely: enabled.
    pub no_timestamps: bool,
    /// Force a single segment: disabled.
    pub single_segment: bool,
}

/// The fixed decoding flags every invocation uses.
pub open spec fn engine_flags_spec(p: EngineParams) -> bool {
    &&& p.best_of == 1
    &&& p.print_special == false
    &&& p.print_progress == false
    &&& p.print_realtime == false
    &&& p.print_timestamps == false
    &&& p.no_timestamps == true
    &&& p.single_segment == false
}

/// Build the engine parameters for one invocation. The sentinel language
/// `"auto"` becomes `None`, which lets the engine detect the language; any
/// other value is passed through.
pub fn engine_params(language: &str) -> (p: EngineParams)
    ensures
        engine_flags_spec(p),
        language@ == "auto"@ ==> p.language is None,
        language@ != "auto"@ ==> (p.language matches Some(l) && l@ == language@),
{
    let lang = String::from_str(language);
    let auto = String::from_str("auto");
    let language_choice = if lang.eq(&auto) {
        None
    } else {
        Some(lang)
    };
    EngineParams {
        best_of: 1,
        language: language_choice,
        print_special: false,
        print_progress: false,
        print_realtime: false,
        print_timestamps: false,
        no_timestamps: true,
        single_segment: false,
    }
}

/// Decide whether a recording is transcribed at all: an empty recording
/// yields empty text without invoking the engine; anything else is handed
/// to the engine with the parameters above.
pub fn transcribe_request(audio: &Vec<i32>, language: &str) -> (r: Option<EngineParams>)
    ensures
        r is Some <==> audio@.len() > 0,
        r matches Some(p) ==> {
            &&& engine_flags_spec(p)
            &&& (language@ == "auto"@ ==> p.language is None)
            &&& (language@ != "auto"@ ==> (p.language matches Some(l) && l@ == language@))
        },
{
    if audio.len() == 0 {
        None
    } else {
        Some(engine_params(language))
    }
}

/// The segment texts joined in order, without separators.
pub open spec fn concat_segments(segments: Seq<String>) -> Seq<char>
    decreases segments.len(),
{
    if segments.len() == 0 {
        Seq::<char>::empty()
    } else {
        segments[0]@ + concat_segments(segments.drop_first())
    }
}

/// Appending one segment appends its characters.
proof fn lemma_concat_segments_push(segments: Seq<String>, s: String)
    ensures
        concat_segments(segments.push(s)) == concat_segments(segments) + s@,
    decreases segments.len(),
{
    assert(concat_segments(segments.push(s)) == segments.push(s)[0]@ + concat_segments(
        segments.push(s).drop_first(),
    ));
    if segments.len() == 0 {
        assert(segments.push(s)[0] == s);
        assert(segments.push(s).drop_first() =~= Seq::<String>::empty());
        assert(concat_segments(Seq::<String>::empty()) == Seq::<char>::empty());
        assert(concat_segments(segments.push(s)) =~= concat_segments(segments) + s@);
    } else {
        assert(segments.push(s)[0] == segments[0]);
        assert(segments.push(s).drop_first() =~= segments.drop_first().push(s));
        lemma_concat_segments_push(segments.drop_first(), s);
        assert(segments[0]@ + (concat_segments(segments.drop_first()) + s@) =~= (segments[0]@
            + concat_segments(segments.drop_first())) + s@);
    }
}

/// The text with its leading white space removed.
pub open spec fn trim_left_spec(s: Seq<char>) -> Seq<char>
    decreases s.len(),
{
    if s.len() > 0 && char_is_space(s[0]) {
        trim_left_spec(s.drop_first())
    } else {
        s
    }
}

/// The text with its trailing white space removed.
pub open spec fn trim_right_spec(s: Seq<char>) -> Seq<char>
    decreases s.len(),
{
    if s.len() > 0 && char_is_space(s[s.len() - 1]) {
        trim_right_spec(s.drop_last())
    } else {
        s
    }
}

/// The text with white space removed from both ends.
pub open spec fn trimmed_spec(s: Seq<char>) -> Seq<char> {
    trim_right_spec(trim_left_spec(s))
}

/// When everything before `lo` is white space and `lo` itself is not (or
/// is the end), trimming from the left is dropping exactly `lo` characters.
proof fn lemma_trim_left_at(s: Seq<char>, lo: int)
    requires
        0 <= lo <= s.len(),
        forall|j: int| 0 <= j < lo ==> char_is_space(s[j]),
        lo < s.len() ==> !char_is_space(s[lo]),
    ensures
        trim_left_spec(s) =~= s.subrange(lo, s.len() as int),
    decreases lo,
{
    if lo == 0 {
        if s.len() > 0 && char_is_space(s[0]) {
            assert(false);
        }
        assert(s.subrange(0, s.len() as int) =~= s);
    } else {
        assert(char_is_space(s[0]));
        let t = s.drop_first();
        lemma_trim_left_at(t, lo - 1);
        assert(t.subrange(lo - 1, t.len() as int) =~= s.subrange(lo, s.len() as int));
    }
}

/// When everything from `hi` on is white space and `hi - 1` is not (or
/// `hi` is the start), trimming from the right keeps exactly `hi`
/// characters.
proof fn lemma_trim_right_at(s: Seq<char>, hi: int)
    requires
        0 <= hi <= s.len(),
        forall|j: int| hi <= j < s.len() ==> char_is_space(s[j]),
        hi > 0 ==> !char_is_space(s[hi - 1]),
    ensures
        trim_right_spec(s) =~= s.subrange(0, hi),
    decreases s.len() - hi,
{
    if hi == s.len() {
        if s.len() > 0 && char_is_space(s[s.len() - 1]) {
            assert(false);
        }
        assert(s.subrange(0, s.len() as int) =~= s);
    } else {
        assert(char_is_space(s[s.len() - 1]));
        let t = s.drop_last();
        lemma_trim_right_at(t, hi);
        assert(t.subrange(0, hi) =~= s.subrange(0, hi));
    }
}

/// Join the engine's segment texts without separators and trim white space
/// from both ends: the final transcript.
#[verifier::loop_isolation(false)]
pub fn assemble_transcript(segments: &Vec<String>) -> (t: String)
    ensures
        t@ == trimmed_spec(concat_segments(segments@)),
{
    let mut joined = String::new();
    let mut i: usize = 0;
    while i < segments.len()
        invariant
            i <= segments@.len(),
            joined@ == concat_segments(segments@.subrange(0, i as int)),
        decreases segments@.len() - i,
    {
        joined.append(segments[i].as_str());
        proof {
            assert(segments@.subrange(0, i as int + 1) =~= segments@.subrange(0, i as int).push(
                segments@[i as int],
            ));
            lemma_concat_segments_push(segments@.subrange(0, i as int), segments@[i as int]);
        }
        i = i + 1;
    }
    proof {
        assert(segments@.subrange(0, segments@.len() as int) =~= segments@);
    }

    let n = joined.as_str().unicode_len();
    let mut lo: usize = 0;
    while lo < n && is_space_char(joined.as_str().get_char(lo))
        invariant
            lo <= n,
            n == joined@.len(),
            forall|j: int| 0 <= j < lo ==> char_is_space(joined@[j]),
        decreases n - lo,
    {
        lo = lo + 1;
    }
    let mut hi: usize = n;
    while hi > lo && is_space_char(joined.as_str().get_char(hi - 1))
        invariant
            lo <= hi <= n,
            n == joined@.len(),
            forall|j: int| hi <= j < n ==> char_is_space(joined@[j]),
        decreases hi,
    {
        hi = hi - 1;
    }
    proof {
        let full = joined@;
        lemma_trim_left_at(full, lo as int);
        let kept = full.subrange(lo as int, full.len() as int);
        if hi == lo {
            // Everything from lo on is white space: the transcript is empty.
            lemma_trim_right_at(kept, 0);
        } else {
            lemma_trim_right_at(kept, hi - lo);
        }
        assert(kept.subrange(0, hi - lo) =~= full.subrange(lo as int, hi as int));
    }
    let trimmed = joined.as_str().substring_char(lo, hi);
    String::from_str(trimmed)
}

/// Locate the weights for the active model, or say why transcription must
/// be abandoned: no model selected, or the selected model's file is not
/// installed. `installed` is whether the file for the active model exists
/// on disk.
pub fn model_lookup_outcome(active_model: &Option<String>, installed: bool) -> (r: Result<
    String,
    String,
>)
    ensures
        match active_model {
            None => r matches Err(m) && m@
                == "Aucun modele selectionne. Veuillez configurer un modele dans les parametres."@,
            Some(id) => if installed {
                r matches Ok(f) && f@ == crate::models::model_file_spec(id@)
            } else {
                r matches Err(m) && m@
                    == "Aucun modele installe. Veuillez telecharger un modele dans les parametres."@
            },
        },
{
    match active_model {
        Some(id) => if installed {
            Ok(crate::models::model_file_name(id.as_str()))
        } else {
            Err(
                String::from_str(
                    "Aucun modele installe. Veuillez telecharger un modele dans les parametres.",
                ),
            )
        },
        None => Err(
            String::from_str(
                "Aucun modele selectionne. Veuillez configurer un modele dans les parametres.",
            ),
        ),
    }
}

/// Where the engine context for an invocation comes from.
#[derive(Debug)]
pub enum EngineSource {
    /// Reuse the one loaded context the pipeline caches.
    Cached,
    /// No context is cached: load it from this file, then cache it.
    LoadFrom(String),
}

/// Resolve the engine context for one invocation: the cached context when
/// one exists (at most one is ever cached), otherwise the active model's
/// file — or the reason transcription must be abandoned.
pub fn resolve_engine(
    has_cached_context: bool,
    active_model: &Option<String>,
    installed: bool,
) -> (r: Result<EngineSource, String>)
    ensures
        has_cached_context ==> (r matches Ok(s) && s is Cached),
        !has_cached_context ==> match active_model {
            None => r matches Err(m) && m@
                == "Aucun modele selectionne. Veuillez configurer un modele dans les parametres."@,
            Some(id) => if installed {
                r matches Ok(s) && (s matches EngineSource::LoadFrom(f) && f@
                    == crate::models::model_file_spec(id@))
            } else {
                r matches Err(m) && m@
                    == "Aucun modele installe. Veuillez telecharger un modele dans les parametres."@
            },
        },
{
    if has_cached_context {
        Ok(EngineSource::Cached)
    } else {
        match model_lookup_outcome(active_model, installed) {
            Ok(file) => Ok(EngineSource::LoadFrom(file)),
            Err(message) => Err(message),
        }
    }
}

/// What the background worker does with a finished transcription.
pub enum OutputAction {
    /// The engine produced no text: announce the empty result, touch
    /// nothing else.
    AnnounceEmpty,
    /// Deliver the text: copy it to the clipboard, paste it when
    /// `auto_paste` is set, then announce completion.
    Deliver { text: String, auto_paste: bool },
    /// Transcription failed: report the message to the interface.
    Report { message: String },
}

/// Route a finished transcription: empty text is only announced, real text
/// is delivered to the clipboard (pasted when configured), and a failure
/// becomes a user-visible report.
pub fn dispatch_transcript(outcome: Result<String, AppError>, auto_paste: bool) -> (action:
    OutputAction)
    ensures
        match outcome {
            Ok(t) => if t@.len() == 0 {
                action is AnnounceEmpty
            } else {
                action matches OutputAction::Deliver { text, auto_paste: p } && text@ == t@ && p
                    == auto_paste
            },
            Err(e) => action matches OutputAction::Report { message } && message@
                == "Erreur de transcription : "@ + e.detail_spec(),
        },
{
    match outcome {
        Ok(t) => if t.as_str().unicode_len() == 0 {
            OutputAction::AnnounceEmpty
        } else {
            OutputAction::Deliver { text: t, auto_paste }
        },
        Err(e) => {
            let detail = match &e {
                AppError::Audio(s) => s.clone(),
                AppError::Transcription(s) => s.clone(),
                AppError::Config(s) => s.clone(),
                AppError::Clipboard(s) => s.clone(),
                AppError::Hotkey(s) => s.clone(),
                AppError::Download(s) => s.clone(),
                AppError::Io(s) => s.clone(),
            };
            OutputAction::Report {
                message: String::from_str("Erreur de transcription : ").concat(detail.as_str()),
            }
        },
    }
}

} // verus!
