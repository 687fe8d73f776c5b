//! Output dispatch decisions: what reaches the clipboard and which
//! keystrokes simulate the paste.
//!
//! The clipboard write and the keystroke simulation are external
//! collaborators; the choice of modifier key is fixed at build time over a
//! closed set (Meta-based hosts and Control-based hosts), and the key
//! sequence itself is decided here.

use vstd::prelude::*;

verus! {

/// The modifier the host's paste shortcut uses.
#[derive(Clone, Copy, PartialEq, Eq, Structural, Debug)]
pub enum PasteModifier {
    /// Meta-based paste (Meta+V).
    Meta,
    /// Control-based paste (Ctrl+V).
    Control,
}

/// One key motion in a simulated shortcut.
#[derive(Clone, Copy, PartialEq, Eq, Structural, Debug)]
pub enum KeyMotion {
    /// Hold the key down.
    Press,
    /// Tap the key.
    Click,
    /// Let the key up.
    Release,
}

/// Which key a motion applies to.
#[derive(Clone, Copy, PartialEq, Eq, Structural, Debug)]
pub enum PasteKey {
    /// The host's paste modifier.
    Modifier,
    /// The letter `v`.
    LetterV,
}

/// The keystrokes that simulate a paste: hold the modifier, tap `v`,
/// release the modifier.
pub fn paste_key_sequence(modifier: PasteModifier) -> (steps: Vec<(KeyMotion, PasteKey)>)
    ensures
        steps@.len() == 3,
        steps@[0] == (KeyMotion::Press, PasteKey::Modifier),
        steps@[1] == (KeyMotion::Click, PasteKey::LetterV),
        steps@[2] == (KeyMotion::Release, PasteKey::Modifier),
{
    let mut steps: Vec<(KeyMotion, PasteKey)> = Vec::new();
    steps.push((KeyMotion::Press, PasteKey::Modifier));
    steps.push((KeyMotion::Click, PasteKey::LetterV));
    steps.push((KeyMotion::Release, PasteKey::Modifier));
    steps
}

/// Decide what follows a clipboard write: a paste keystroke sequence when
/// auto-paste is on, nothing otherwise.
pub fn copy_and_paste_plan(auto_paste: bool, modifier: PasteModifier) -> (r: Option<
    Vec<(KeyMotion, PasteKey)>,
>)
    ensures
        r is Some <==> auto_paste,
        r matches Some(steps) ==> {
            &&& steps@.len() == 3
            &&& steps@[0] == (KeyMotion::Press, PasteKey::Modifier)
            &&& steps@[1] == (KeyMotion::Click, PasteKey::LetterV)
            &&& steps@[2] == (KeyMotion::Release, PasteKey::Modifier)
        },
{
    if auto_paste {
        Some(paste_key_sequence(modifier))
    } else {
        None
    }
}

} // verus!
