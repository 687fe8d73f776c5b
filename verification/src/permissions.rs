//! Permission reporting for hosts without a permission broker.
//!
//! Platforms with a microphone/accessibility permission system probe it
//! through native calls owned by the process boundary; everywhere else the
//! permissions are always granted and requesting them does nothing. These
//! are those fallbacks.

use vstd::prelude::*;

verus! {

/// What the interface shows about the two permissions the pipeline needs.
#[derive(Clone, Copy, Debug)]
pub struct PermissionStatus {
    /// Whether microphone capture is allowed.
    pub microphone: bool,
    /// Whether keystroke simulation (accessibility) is allowed.
    pub accessibility: bool,
}

/// Report both permissions: on a host without a permission broker they are
/// always granted.
pub fn check_permissions() -> (s: PermissionStatus)
    ensures
        s.microphone,
        s.accessibility,
{
    PermissionStatus { microphone: true, accessibility: true }
}

/// Ask for microphone access: nothing to ask on a host without a
/// permission broker.
pub fn request_microphone_permission() {
}

/// Open the accessibility permission settings: nothing to open on a host
/// without a permission broker.
pub fn open_accessibility_preferences() {
}

} // verus!
