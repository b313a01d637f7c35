//! The pages the main window can show.
//!
//! `Page::id()` returns the name a page's widget is registered under in the
//! root page stack, so switching pages is a lookup by a checked value rather
//! than a bare string spelled out twice.

use vstd::prelude::*;

verus! {

/// The pages the window can show.
#[derive(Debug, Clone, Copy, PartialEq, Eq, Structural)]
pub enum Page {
    Welcome,
    Dashboard,
    Settings,
    Help,
}

impl Page {
    /// Stable name used to identify the page inside the window's page stack.
    pub fn id(self) -> (id: &'static str)
        ensures
            id@ == (match self {
                Page::Welcome => "welcome"@,
                Page::Dashboard => "dashboard"@,
                Page::Settings => "settings"@,
                Page::Help => "help"@,
            }),
    {
        match self {
            Page::Welcome => "welcome",
            Page::Dashboard => "dashboard",
            Page::Settings => "settings",
            Page::Help => "help",
        }
    }
}

} // verus!
