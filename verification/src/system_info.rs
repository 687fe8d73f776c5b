//! The model recommendation shown during setup, decided from the
//! machine's memory.
//!
//! The memory probe reads the system at call time; the thresholds and the
//! recommended model per memory class are decided here, on the raw byte
//! count, and hold for whatever the probe reports.

use vstd::prelude::*;
use vstd::string::StringExecFns;

verus! {

/// Bytes in one gibibyte.
pub const GIB: u64 = 1_073_741_824;

/// The model identifier recommended for a machine with `total_ram_bytes`
/// of memory.
pub open spec fn recommended_model_spec(total_ram_bytes: u64) -> Seq<char> {
    if total_ram_bytes < 4 * (GIB as int) {
        "ggml-tiny-q5_1"@
    } else if total_ram_bytes < 8 * (GIB as int) {
        "ggml-base"@
    } else if total_ram_bytes < 16 * (GIB as int) {
        "ggml-small"@
    } else {
        "ggml-medium"@
    }
}

/// The explanation shown beside the recommendation.
pub open spec fn recommendation_reason_spec(total_ram_bytes: u64) -> Seq<char> {
    if total_ram_bytes < 4 * (GIB as int) {
        "Votre machine a moins de 4 Go de RAM. Le modèle Tiny quantisé est recommandé pour des performances optimales."@
    } else if total_ram_bytes < 8 * (GIB as int) {
        "Avec 4 à 8 Go de RAM, le modèle Base offre un bon équilibre entre précision et performance."@
    } else if total_ram_bytes < 16 * (GIB as int) {
        "Avec 8 à 16 Go de RAM, le modèle Small offre une bonne précision sans surcharger votre machine."@
    } else {
        "Avec plus de 16 Go de RAM, le modèle Medium offre une excellente précision de transcription."@
    }
}

/// Pick the model a machine with `total_ram_bytes` of memory should start
/// with, and the reason shown to the user: quantized Tiny under 4 GiB,
/// Base under 8 GiB, Small under 16 GiB, Medium above.
/// Relies on `sysinfo::System::new_all` and `System::total_memory`: the
/// machine's physical memory in bytes, read from the system at call time.
#[verifier::external_body]
fn probe_total_memory_bytes() -> (bytes: u64) {
    let system = sysinfo::System::new_all();
    system.total_memory()
}

/// Probe this machine's memory and pick the model to start with: the
/// returned recommendation and reason are exactly those for the probed
/// byte count, whatever the probe reported.
pub fn recommendation_for_this_machine() -> (r: (u64, String, String))
    ensures
        r.1@ == recommended_model_spec(r.0),
        r.2@ == recommendation_reason_spec(r.0),
{
    let bytes = probe_total_memory_bytes();
    let (model, reason) = recommend_model(bytes);
    (bytes, model, reason)
}

pub fn recommend_model(total_ram_bytes: u64) -> (r: (String, String))
    ensures
        r.0@ == recommended_model_spec(total_ram_bytes),
        r.1@ == recommendation_reason_spec(total_ram_bytes),
{
    if total_ram_bytes < 4 * GIB {
        (
            String::from_str("ggml-tiny-q5_1"),
            String::from_str(
                "Votre machine a moins de 4 Go de RAM. Le modèle Tiny quantisé est recommandé pour des performances optimales.",
            ),
        )
    } else if total_ram_bytes < 8 * GIB {
        (
            String::from_str("ggml-base"),
            String::from_str(
                "Avec 4 à 8 Go de RAM, le modèle Base offre un bon équilibre entre précision et performance.",
            ),
        )
    } else if total_ram_bytes < 16 * GIB {
        (
            String::from_str("ggml-small"),
            String::from_str(
                "Avec 8 à 16 Go de RAM, le modèle Small offre une bonne précision sans surcharger votre machine.",
            ),
        )
    } else {
        (
            String::from_str("ggml-medium"),
            String::from_str(
                "Avec plus de 16 Go de RAM, le modèle Medium offre une excellente précision de transcription.",
            ),
        )
    }
}

} // verus!
