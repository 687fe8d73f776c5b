//! The recognition-model catalog: the fixed set of downloadable models,
//! their download URLs, and the on-disk file name of an installed model.
//!
//! The catalog is fixed data; whether a model's file exists on disk is
//! reported by the caller, which owns the data directory.

use vstd::prelude::*;
use vstd::string::StringExecFns;

verus! {

/// One downloadable recognition model, as shown in the settings.
#[derive(Debug, Clone)]
pub struct ModelInfo {
    /// The model's identifier, also the stem of its file name.
    pub id: String,
    /// The model's display name.
    pub name: String,
    /// Download size in bytes.
    pub size_bytes: u64,
    /// Download size as a label.
    pub size_label: String,
    /// Where the model is downloaded from.
    pub url: String,
    /// Whether the model transcribes English only.
    pub is_english_only: bool,
    /// Whether the model is quantized.
    pub is_quantized: bool,
    /// Whether the model's file is present on disk.
    pub is_downloaded: bool,
}

/// The base URL all model downloads come from.
pub open spec fn hf_base_spec() -> Seq<char> {
    "https://huggingface.co/ggerganov/whisper.cpp/resolve/main"@
}

/// Number of models in the catalog.
pub open spec fn catalog_len() -> int {
    14
}

/// The catalog entry at position `k`: identifier, display name, size in
/// bytes, size label, English-only flag, quantized flag.
pub open spec fn catalog_def(k: int) -> (Seq<char>, Seq<char>, u64, Seq<char>, bool, bool) {
    if k == 0 {
        ("ggml-tiny"@, "Tiny"@, 77_700_000u64, "75 Mo"@, false, false)
    } else if k == 1 {
        ("ggml-tiny.en"@, "Tiny (English)"@, 77_700_000u64, "75 Mo"@, true, false)
    } else if k == 2 {
        ("ggml-tiny-q5_1"@, "Tiny Q5"@, 44_000_000u64, "42 Mo"@, false, true)
    } else if k == 3 {
        ("ggml-base"@, "Base"@, 147_000_000u64, "142 Mo"@, false, false)
    } else if k == 4 {
        ("ggml-base.en"@, "Base (English)"@, 147_000_000u64, "142 Mo"@, true, false)
    } else if k == 5 {
        ("ggml-base-q5_1"@, "Base Q5"@, 90_000_000u64, "87 Mo"@, false, true)
    } else if k == 6 {
        ("ggml-small"@, "Small"@, 488_000_000u64, "466 Mo"@, false, false)
    } else if k == 7 {
        ("ggml-small.en"@, "Small (English)"@, 488_000_000u64, "466 Mo"@, true, false)
    } else if k == 8 {
        ("ggml-small-q5_1"@, "Small Q5"@, 190_000_000u64, "181 Mo"@, false, true)
    } else if k == 9 {
        ("ggml-medium"@, "Medium"@, 1_533_000_000u64, "1.4 Go"@, false, false)
    } else if k == 10 {
        ("ggml-medium.en"@, "Medium (English)"@, 1_533_000_000u64, "1.4 Go"@, true, false)
    } else if k == 11 {
        ("ggml-medium-q5_0"@, "Medium Q5"@, 540_000_000u64, "515 Mo"@, false, true)
    } else if k == 12 {
        ("ggml-large-v3"@, "Large v3"@, 3_094_000_000u64, "2.9 Go"@, false, false)
    } else {
        ("ggml-large-v3-q5_0"@, "Large v3 Q5"@, 1_100_000_000u64, "1.0 Go"@, false, true)
    }
}

/// The file a model is stored under, relative to the data directory:
/// `models/<id>.bin`.
pub open spec fn model_file_spec(id: Seq<char>) -> Seq<char> {
    "models/"@ + id + ".bin"@
}

/// The download URL of the model with identifier `id`.
pub open spec fn model_url_spec(id: Seq<char>) -> Seq<char> {
    hf_base_spec() + "/"@ + id + ".bin"@
}

/// Build the relative file name a model is stored under.
pub fn model_file_name(id: &str) -> (f: String)
    ensures
        f@ == model_file_spec(id@),
{
    String::from_str("models/").concat(id).concat(".bin")
}

/// Where the model with identifier `model_id` is stored when it is
/// installed: `<data dir>/models/<id>.bin`. `installed` is whether that
/// file exists on disk; without the file there is no path to hand out.
pub fn get_model_path(app_data_dir: &str, model_id: &str, installed: bool) -> (r: Option<String>)
    ensures
        r is Some <==> installed,
        r matches Some(p) ==> p@ == app_data_dir@ + "/"@ + model_file_spec(model_id@),
{
    if installed {
        let path = String::from_str(app_data_dir).concat("/").concat("models/").concat(
            model_id,
        ).concat(".bin");
        proof {
            assert(path@ =~= app_data_dir@ + "/"@ + model_file_spec(model_id@));
        }
        Some(path)
    } else {
        None
    }
}

/// `m` presents catalog entry `k` correctly, with `dl` as its install
/// state.
pub open spec fn model_matches(m: ModelInfo, k: int, dl: bool) -> bool {
    let def = catalog_def(k);
    &&& m.id@ == def.0
    &&& m.name@ == def.1
    &&& m.size_bytes == def.2
    &&& m.size_label@ == def.3
    &&& m.url@ == model_url_spec(def.0)
    &&& m.is_english_only == def.4
    &&& m.is_quantized == def.5
    &&& m.is_downloaded == dl
}

/// The catalog entry at `k`, as owned values.
fn catalog_entry(k: usize) -> (e: (String, String, u64, String, bool, bool))
    requires
        k < catalog_len(),
    ensures
        e.0@ == catalog_def(k as int).0,
        e.1@ == catalog_def(k as int).1,
        e.2 == catalog_def(k as int).2,
        e.3@ == catalog_def(k as int).3,
        e.4 == catalog_def(k as int).4,
        e.5 == catalog_def(k as int).5,
{
    if k == 0 {
        (String::from_str("ggml-tiny"), String::from_str("Tiny"), 77_700_000u64, String::from_str(
            "75 Mo",
        ), false, false)
    } else if k == 1 {
        (String::from_str("ggml-tiny.en"), String::from_str("Tiny (English)"), 77_700_000u64,
        String::from_str("75 Mo"), true, false)
    } else if k == 2 {
        (String::from_str("ggml-tiny-q5_1"), String::from_str("Tiny Q5"), 44_000_000u64,
        String::from_str("42 Mo"), false, true)
    } else if k == 3 {
        (String::from_str("ggml-base"), String::from_str("Base"), 147_000_000u64,
        String::from_str("142 Mo"), false, false)
    } else if k == 4 {
        (String::from_str("ggml-base.en"), String::from_str("Base (English)"), 147_000_000u64,
        String::from_str("142 Mo"), true, false)
    } else if k == 5 {
        (String::from_str("ggml-base-q5_1"), String::from_str("Base Q5"), 90_000_000u64,
        String::from_str("87 Mo"), false, true)
    } else if k == 6 {
        (String::from_str("ggml-small"), String::from_str("Small"), 488_000_000u64,
        String::from_str("466 Mo"), false, false)
    } else if k == 7 {
        (String::from_str("ggml-small.en"), String::from_str("Small (English)"), 488_000_000u64,
        String::from_str("466 Mo"), true, false)
    } else if k == 8 {
        (String::from_str("ggml-small-q5_1"), String::from_str("Small Q5"), 190_000_000u64,
        String::from_str("181 Mo"), false, true)
    } else if k == 9 {
        (String::from_str("ggml-medium"), String::from_str("Medium"), 1_533_000_000u64,
        String::from_str("1.4 Go"), false, false)
    } else if k == 10 {
        (String::from_str("ggml-medium.en"), String::from_str("Medium (English)"),
        1_533_000_000u64, String::from_str("1.4 Go"), true, false)
    } else if k == 11 {
        (String::from_str("ggml-medium-q5_0"), String::from_str("Medium Q5"), 540_000_000u64,
        String::from_str("515 Mo"), false, true)
    } else if k == 12 {
        (String::from_str("ggml-large-v3"), String::from_str("Large v3"), 3_094_000_000u64,
        String::from_str("2.9 Go"), false, false)
    } else {
        (String::from_str("ggml-large-v3-q5_0"), String::from_str("Large v3 Q5"),
        1_100_000_000u64, String::from_str("1.0 Go"), false, true)
    }
}

/// The catalog with install state filled in: entry `k` of the result
/// presents catalog entry `k` and is marked downloaded exactly when
/// `downloaded[k]` says its file exists.
#[verifier::loop_isolation(false)]
pub fn list_models(downloaded: &Vec<bool>) -> (models: Vec<ModelInfo>)
    requires
        downloaded@.len() == catalog_len(),
    ensures
        models@.len() == catalog_len(),
        forall|k: int|
            0 <= k < models@.len() ==> #[trigger] model_matches(models@[k], k, downloaded@[k]),
{
    let mut models: Vec<ModelInfo> = Vec::new();
    let mut k: usize = 0;
    while k < 14
        invariant
            k <= 14,
            models@.len() == k,
            forall|j: int|
                0 <= j < k ==> #[trigger] model_matches(models@[j], j, downloaded@[j]),
        decreases 14 - k,
    {
        let (id, name, size_bytes, size_label, is_english_only, is_quantized) = catalog_entry(k);
        let url = String::from_str("https://huggingface.co/ggerganov/whisper.cpp/resolve/main")
            .concat("/").concat(id.as_str()).concat(".bin");
        let is_downloaded = downloaded[k];
        models.push(
            ModelInfo {
                id,
                name,
                size_bytes,
                size_label,
                url,
                is_english_only,
                is_quantized,
                is_downloaded,
            },
        );
        proof {
            assert(model_matches(models@[k as int], k as int, downloaded@[k as int]));
        }
        k = k + 1;
    }
    models
}

} // verus!
