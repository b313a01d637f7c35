//! Texts of the history tab.

use vstd::prelude::*;

use crate::text::{decimal, push_decimal};

verus! {

/// The line above the history charts, saying how much has been recorded.
pub fn summary_text(recorded: usize) -> (text: String)
    ensures
        text@ == (if recorded == 0 {
            "No readings recorded yet. Charts appear as measurements arrive."@
        } else if recorded == 1 {
            "1 reading recorded."@
        } else {
            decimal(recorded as nat) + " readings recorded, oldest first."@
        }),
{
    if recorded == 0 {
        String::from_str("No readings recorded yet. Charts appear as measurements arrive.")
    } else if recorded == 1 {
        String::from_str("1 reading recorded.")
    } else {
        let mut text = String::new();
        push_decimal(&mut text, recorded as u64);
        text.append(" readings recorded, oldest first.");
        text
    }
}

} // verus!
