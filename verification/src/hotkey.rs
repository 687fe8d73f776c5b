//! Hotkey binding preparation: normalizing a shortcut specification for
//! the host platform and deciding which bindings to register.
//!
//! On Windows the `Super` modifier is intercepted by the system for most
//! combinations, so it is rewritten to `Ctrl` before registration. An
//! empty shortcut string means the binding is unbound and is skipped. The
//! platform listener itself (parsing and registering the shortcut) is an
//! external collaborator.

use vstd::prelude::*;
use vstd::string::{StrSliceExecFns, StringExecFns};

verus! {

/// `s` with every occurrence of `Super` replaced by `Ctrl`, scanning left
/// to right without overlap.
pub open spec fn replace_super_spec(s: Seq<char>) -> Seq<char>
    decreases s.len(),
{
    if s.len() >= 5 && s.subrange(0, 5) == "Super"@ {
        "Ctrl"@ + replace_super_spec(s.skip(5))
    } else if s.len() == 0 {
        s
    } else {
        seq![s[0]] + replace_super_spec(s.drop_first())
    }
}

/// Rewrite the `Super` modifier to `Ctrl` on a Windows host; other hosts
/// keep the shortcut as written.
#[verifier::loop_isolation(false)]
pub fn normalize_hotkey(hotkey_str: &str, windows_host: bool) -> (r: String)
    ensures
        windows_host ==> r@ == replace_super_spec(hotkey_str@),
        !windows_host ==> r@ == hotkey_str@,
{
    if !windows_host {
        return String::from_str(hotkey_str);
    }
    proof {
        reveal_strlit("Super");
        reveal_strlit("Ctrl");
    }
    let n = hotkey_str.unicode_len();
    let mut out = String::new();
    let mut i: usize = 0;
    proof {
        assert(hotkey_str@.skip(0) =~= hotkey_str@);
        assert(Seq::<char>::empty() + replace_super_spec(hotkey_str@) =~= replace_super_spec(
            hotkey_str@,
        ));
    }
    while i < n
        invariant
            i <= n,
            n == hotkey_str@.len(),
            replace_super_spec(hotkey_str@) == out@ + replace_super_spec(
                hotkey_str@.skip(i as int),
            ),
        decreases n - i,
    {
        let ghost rest = hotkey_str@.skip(i as int);
        let is_super = n - i >= 5 && hotkey_str.get_char(i) == 'S' && hotkey_str.get_char(i + 1)
            == 'u' && hotkey_str.get_char(i + 2) == 'p' && hotkey_str.get_char(i + 3) == 'e'
            && hotkey_str.get_char(i + 4) == 'r';
        if is_super {
            out.append("Ctrl");
            proof {
                assert(rest.subrange(0, 5) =~= "Super"@);
                assert(rest.skip(5) =~= hotkey_str@.skip(i as int + 5));
                assert((out@ + replace_super_spec(rest)).subrange(
                    0,
                    out@.len() as int,
                ) =~= out@);
                assert(out@ + ("Ctrl"@ + replace_super_spec(rest.skip(5))) =~= (out@ + "Ctrl"@)
                    + replace_super_spec(hotkey_str@.skip(i as int + 5)));
            }
            i = i + 5;
        } else {
            let piece = hotkey_str.substring_char(i, i + 1);
            out.append(piece);
            proof {
                if rest.len() >= 5 && rest.subrange(0, 5) == "Super"@ {
                    assert(rest[0] == 'S' && rest[1] == 'u' && rest[2] == 'p' && rest[3] == 'e'
                        && rest[4] == 'r') by {
                        assert(forall|j: int|
                            0 <= j < 5 ==> rest.subrange(0, 5)[j] == #[trigger] rest[j]);
                    }
                    assert(false);
                }
                assert(seq![rest[0]] =~= hotkey_str@.subrange(i as int, i as int + 1));
                assert(rest.drop_first() =~= hotkey_str@.skip(i as int + 1));
                assert(out@ + (seq![rest[0]] + replace_super_spec(rest.drop_first())) =~= (out@
                    + hotkey_str@.subrange(i as int, i as int + 1)) + replace_super_spec(
                    hotkey_str@.skip(i as int + 1),
                ));
            }
            i = i + 1;
        }
    }
    proof {
        assert(hotkey_str@.skip(n as int) =~= Seq::<char>::empty());
        assert(replace_super_spec(Seq::<char>::empty()) =~= Seq::<char>::empty());
        assert(out@ + Seq::<char>::empty() =~= out@);
    }
    out
}

/// Decide what to register for one binding: nothing when the shortcut
/// string is empty (the binding is unbound), otherwise the normalized
/// shortcut the platform listener should parse.
pub fn binding_registration(hotkey_str: &str, windows_host: bool) -> (r: Option<String>)
    ensures
        r is None <==> hotkey_str@.len() == 0,
        r matches Some(s) ==> s@ == (if windows_host {
            replace_super_spec(hotkey_str@)
        } else {
            hotkey_str@
        }),
{
    if hotkey_str.unicode_len() == 0 {
        None
    } else {
        Some(normalize_hotkey(hotkey_str, windows_host))
    }
}

} // verus!
