//! How the app starts: shown, or hidden in the tray.

use vstd::prelude::*;

use crate::text::same_text;

verus! {

/// Whether a command-line argument asks to start hidden in the tray.
///
/// Desktop environments and autostart entries use different spellings, so all
/// the common ones are accepted.
pub open spec fn is_minimized_flag(arg: Seq<char>) -> bool {
    ||| arg == "--minimized"@
    ||| arg == "--background"@
    ||| arg == "--hidden"@
    ||| arg == "--start-minimized"@
}

/// Whether one argument asks to start hidden.
pub fn minimized_flag(arg: &str) -> (flag: bool)
    ensures
        flag == is_minimized_flag(arg@),
{
    same_text(arg, "--minimized") || same_text(arg, "--background") || same_text(arg, "--hidden")
        || same_text(arg, "--start-minimized")
}

/// Whether any of the command-line arguments asks to start hidden.
pub fn started_minimized(args: &[String]) -> (minimized: bool)
    ensures
        minimized == exists|i: int| 0 <= i < args@.len() && is_minimized_flag(#[trigger] args@[i]@),
{
    let len = args.len();
    let mut i: usize = 0;
    while i < len
        invariant
            len == args@.len(),
            i <= len,
            forall|j: int| 0 <= j < i ==> !is_minimized_flag(#[trigger] args@[j]@),
        decreases len - i,
    {
        if minimized_flag(args[i].as_str()) {
            return true;
        }
        i = i + 1;
    }
    false
}

/// Whether the window shows when the app starts: starting hidden is either a
/// launch flag or a saved preference.
pub fn visible_on_start(started_minimized: bool, start_minimized: bool) -> (visible: bool)
    ensures
        visible == !(started_minimized || start_minimized),
{
    !(started_minimized || start_minimized)
}

} // verus!
