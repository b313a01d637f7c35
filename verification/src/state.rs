//! Shared UI vocabulary: the pages the window can show.

use vstd::prelude::*;

verus! {

/// The pages the window can show.
#[derive(Debug, Clone, Copy, PartialEq, Eq, Structural)]
pub enum Page {
    Welcome,
    Dashboard,
    Settings,
    Help,
}

impl Page {
    /// Stable name used to identify the page inside the window's page stack.
    pub fn id(self) -> (id: &'static str)
        ensures
            id@ == (match self {
                Page::Welcome => "welcome"@,
                Page::Dashboard => "dashboard"@,
                Page::Settings => "settings"@,
                Page::Help => "help"@,
            }),
    {
        match self {
            Page::Welcome => "welcome",
            Page::Dashboard => "dashboard",
            Page::Settings => "settings",
            Page::Help => "help",
        }
    }

    /// Human-readable page title.
    pub fn title(self) -> (title: &'static str)
        ensures
            title@ == (match self {
                Page::Welcome => "Welcome"@,
                Page::Dashboard => "Dashboard"@,
                Page::Settings => "Settings"@,
                Page::Help => "Help"@,
            }),
    {
        match self {
            Page::Welcome => "Welcome",
            Page::Dashboard => "Dashboard",
            Page::Settings => "Settings",
            Page::Help => "Help",
        }
    }
}

} // verus!
