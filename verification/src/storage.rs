//! Where the app keeps its files.
//!
//! The XDG Base Directory specification puts settings under
//! `$XDG_CONFIG_HOME` and recorded data under `$XDG_DATA_HOME`, which is why
//! the config file and the history file live apart. Both lookups follow the
//! same three steps: use the base variable if it is set, otherwise the
//! conventional path under `$HOME`, otherwise the current directory, so the
//! path is always deterministic even in an environment that sets neither.
//! Reading the environment and joining the path happen outside this crate;
//! the choice is made here.

use vstd::prelude::*;

verus! {

/// Directory this app owns inside whichever XDG base directory is in use.
pub const APP_DIRECTORY: &'static str = "airgradient-desktop";

/// Extension of the temporary file a write goes to first, before it is
/// renamed over the target.
pub const PENDING_EXTENSION: &'static str = "tmp";

/// Whether a character has the Unicode White_Space property, as
/// `char::is_whitespace` tests it: the ASCII tab, line feed, vertical tab,
/// form feed, carriage return and space, the next line and no-break space,
/// the Ogham space mark, the en quad through the hair space, the line and
/// paragraph separators, the narrow no-break space, the medium mathematical
/// space and the ideographic space.
pub open spec fn white_space(c: char) -> bool {
    let code = c as u32;
    ||| 0x9 <= code <= 0xd
    ||| code == 0x20
    ||| code == 0x85
    ||| code == 0xa0
    ||| code == 0x1680
    ||| 0x2000 <= code <= 0x200a
    ||| code == 0x2028
    ||| code == 0x2029
    ||| code == 0x202f
    ||| code == 0x205f
    ||| code == 0x3000
}

/// Whether `c` is whitespace.
fn is_whitespace(c: char) -> (space: bool)
    ensures
        space == white_space(c),
{
    let code = c as u32;
    (0x9 <= code && code <= 0xd) || code == 0x20 || code == 0x85 || code == 0xa0 || code
        == 0x1680 || (0x2000 <= code && code <= 0x200a) || code == 0x2028 || code == 0x2029
        || code == 0x202f || code == 0x205f || code == 0x3000
}

/// Whether an environment value counts as set: it holds something other than
/// whitespace.
pub open spec fn is_set(value: Seq<char>) -> bool {
    exists|i: int| 0 <= i < value.len() && !white_space(#[trigger] value[i])
}

/// Whether a value holds something other than whitespace.
pub fn has_content(value: &str) -> (set: bool)
    ensures
        set == is_set(value@),
{
    let len = value.unicode_len();
    let mut i: usize = 0;
    while i < len
        invariant
            len == value@.len(),
            i <= len,
            forall|j: int| 0 <= j < i ==> white_space(#[trigger] value@[j]),
        decreases len - i,
    {
        if !is_whitespace(value.get_char(i)) {
            return true;
        }
        i = i + 1;
    }
    false
}

/// Where the app's directory is rooted.
#[derive(Debug, Clone, PartialEq, Eq)]
pub enum XdgRoot {
    /// The base variable's own value.
    Variable(String),
    /// The conventional path under this home directory.
    Home(String),
    /// The current directory.
    CurrentDirectory,
}

/// Choose the root of the app's directory.
pub fn xdg_root(base: Option<&str>, home: Option<&str>) -> (root: XdgRoot)
    ensures
        match base {
            Some(base) if is_set(base@) => root matches XdgRoot::Variable(value) && value@ == base@,
            _ => match home {
                Some(home) if is_set(home@) => root matches XdgRoot::Home(value) && value@
                    == home@,
                _ => root is CurrentDirectory,
            },
        },
{
    if let Some(base) = base {
        if has_content(base) {
            return XdgRoot::Variable(String::from_str(base));
        }
    }
    if let Some(home) = home {
        if has_content(home) {
            return XdgRoot::Home(String::from_str(home));
        }
    }
    XdgRoot::CurrentDirectory
}

} // verus!
