//! Decisions of the main window: which page to show and when to fetch.
//!
//! The window itself performs the fetches, shows the pages and reads the
//! clock. Every decision it makes in between is a step of `AppState`: an event
//! comes in (a tick of the one-second ticker, a button press, a fetch coming
//! back, a saved configuration), and the state says what the window shows next
//! and whether a fetch should start.
//!
//! One ticker drives the automatic refresh: it counts the seconds since the
//! last fetch finished, and a fetch starts once that count reaches the
//! configured interval. At most one fetch runs at a time, because the shortest
//! interval is shorter than a slow device's response time, and overlapping
//! requests could record an early reply as the newer reading.

use vstd::prelude::*;

use crate::state::Page;
use crate::text::{decimal, push_decimal};

verus! {

/// What the window should do about fetching after an event.
#[derive(Debug, Clone, Copy, PartialEq, Eq, Structural)]
pub enum FetchAction {
    /// Nothing: no fetch was asked for, or one is already running and is left
    /// to finish.
    Wait,
    /// Start a fetch now.
    Start,
    /// A fetch was asked for, but no device is configured.
    ReportNoServer,
}

impl FetchAction {
    /// The status line the dashboard shows for this action, if any.
    pub fn status_text(self) -> (text: Option<&'static str>)
        ensures
            match self {
                FetchAction::Wait => text is None,
                FetchAction::Start => text matches Some(t) && t@ == "Fetching measurements..."@,
                FetchAction::ReportNoServer => text matches Some(t) && t@
                    == "No server URL configured."@,
            },
    {
        match self {
            FetchAction::Wait => None,
            FetchAction::Start => Some("Fetching measurements..."),
            FetchAction::ReportNoServer => Some("No server URL configured."),
        }
    }
}

/// Something that happened to the window.
#[derive(Debug, Clone, Copy, PartialEq, Eq, Structural)]
pub enum AppEvent {
    /// The user asked for a specific page.
    Navigate(Page),
    /// The user asked for whichever page is home right now.
    GoHome,
    /// The user asked for fresh measurements.
    Refresh,
    /// The window is brought back from the tray or from a notification.
    ShowWindow,
    /// One second has passed.
    Tick,
    /// A fetch came back, successfully or not.
    FetchFinished,
    /// A configuration was written to disk and now applies.
    ConfigSaved { has_server_url: bool, refresh_interval_secs: u64 },
}

/// What the window has decided so far.
#[derive(Debug, Clone, Copy, PartialEq, Eq, Structural)]
pub struct AppState {
    /// The page on screen.
    pub page: Page,
    /// Whether a device URL is configured.
    pub has_server_url: bool,
    /// Seconds between automatic refreshes.
    pub refresh_interval_secs: u64,
    /// Ticks counted since the last fetch finished.
    pub seconds_since_fetch: u64,
    /// Whether a fetch is running.
    pub fetch_in_flight: bool,
}

/// Add one to a counter, stopping at its maximum.
pub open spec fn saturating_inc(count: u64) -> u64 {
    if count < u64::MAX {
        (count + 1) as u64
    } else {
        count
    }
}

impl AppState {
    /// The page home leads to: the dashboard once a device is configured,
    /// otherwise onboarding.
    pub open spec fn spec_home_page(self) -> Page {
        if self.has_server_url {
            Page::Dashboard
        } else {
            Page::Welcome
        }
    }

    /// A fetch being asked for: a running one is left to finish, and without
    /// a device there is nothing to fetch from.
    pub open spec fn spec_start_fetch(self) -> (AppState, FetchAction) {
        if self.fetch_in_flight {
            (self, FetchAction::Wait)
        } else if !self.has_server_url {
            (self, FetchAction::ReportNoServer)
        } else {
            (AppState { fetch_in_flight: true, ..self }, FetchAction::Start)
        }
    }

    /// Showing `page`; arriving at the dashboard with a device configured is a
    /// request for current data.
    pub open spec fn spec_navigate(self, page: Page) -> (AppState, FetchAction) {
        let moved = AppState { page, ..self };
        if page == Page::Dashboard && self.has_server_url {
            moved.spec_start_fetch()
        } else {
            (moved, FetchAction::Wait)
        }
    }

    /// The state after `event`, and what to do about fetching.
    pub open spec fn spec_step(self, event: AppEvent) -> (AppState, FetchAction) {
        match event {
            AppEvent::Navigate(page) => self.spec_navigate(page),
            AppEvent::GoHome => self.spec_navigate(self.spec_home_page()),
            AppEvent::Refresh => self.spec_start_fetch(),
            AppEvent::ShowWindow => (
                AppState {
                    page: if self.has_server_url {
                        Page::Dashboard
                    } else {
                        Page::Settings
                    },
                    ..self
                },
                FetchAction::Wait,
            ),
            AppEvent::Tick => {
                let counted = AppState {
                    seconds_since_fetch: saturating_inc(self.seconds_since_fetch),
                    ..self
                };
                if counted.has_server_url && counted.seconds_since_fetch
                    >= counted.refresh_interval_secs {
                    counted.spec_start_fetch()
                } else {
                    (counted, FetchAction::Wait)
                }
            },
            AppEvent::FetchFinished => (
                AppState { fetch_in_flight: false, seconds_since_fetch: 0, ..self },
                FetchAction::Wait,
            ),
            AppEvent::ConfigSaved { has_server_url, refresh_interval_secs } => {
                let saved = AppState {
                    has_server_url,
                    refresh_interval_secs,
                    page: if has_server_url {
                        Page::Dashboard
                    } else {
                        Page::Welcome
                    },
                    ..self
                };
                if has_server_url {
                    saved.spec_start_fetch()
                } else {
                    (saved, FetchAction::Wait)
                }
            },
        }
    }

    /// The state a window starts in, and what to do about fetching: with a
    /// device configured, it shows the dashboard and fetches straight away.
    pub open spec fn spec_launch(has_server_url: bool, refresh_interval_secs: u64) -> (
        AppState,
        FetchAction,
    ) {
        let fresh = AppState {
            page: if has_server_url {
                Page::Dashboard
            } else {
                Page::Welcome
            },
            has_server_url,
            refresh_interval_secs,
            seconds_since_fetch: 0,
            fetch_in_flight: false,
        };
        if has_server_url {
            fresh.spec_start_fetch()
        } else {
            (fresh, FetchAction::Wait)
        }
    }

    /// The starting state of a window.
    pub fn launch(has_server_url: bool, refresh_interval_secs: u64) -> (started: (
        AppState,
        FetchAction,
    ))
        ensures
            started == AppState::spec_launch(has_server_url, refresh_interval_secs),
    {
        let mut state = AppState {
            page: if has_server_url {
                Page::Dashboard
            } else {
                Page::Welcome
            },
            has_server_url,
            refresh_interval_secs,
            seconds_since_fetch: 0,
            fetch_in_flight: false,
        };
        let action = if has_server_url {
            state.start_fetch()
        } else {
            FetchAction::Wait
        };
        (state, action)
    }

    /// The page home leads to.
    pub fn home_page(&self) -> (page: Page)
        ensures
            page == self.spec_home_page(),
    {
        if self.has_server_url {
            Page::Dashboard
        } else {
            Page::Welcome
        }
    }

    /// A fetch being asked for: one already running is left to finish and
    /// nothing changes; without a device nothing changes and the window says
    /// so; otherwise a fetch starts and is marked as running. The status line
    /// for each outcome is `FetchAction::status_text`.
    pub fn start_fetch(&mut self) -> (action: FetchAction)
        ensures
            (*final(self), action) == old(self).spec_start_fetch(),
    {
        if self.fetch_in_flight {
            FetchAction::Wait
        } else if !self.has_server_url {
            FetchAction::ReportNoServer
        } else {
            self.fetch_in_flight = true;
            FetchAction::Start
        }
    }

    fn navigate(&mut self, page: Page) -> (action: FetchAction)
        ensures
            (*final(self), action) == old(self).spec_navigate(page),
    {
        self.page = page;
        if page == Page::Dashboard && self.has_server_url {
            self.start_fetch()
        } else {
            FetchAction::Wait
        }
    }

    /// Apply `event`, returning what to do about fetching.
    pub fn handle(&mut self, event: AppEvent) -> (action: FetchAction)
        ensures
            (*final(self), action) == old(self).spec_step(event),
    {
        match event {
            AppEvent::Navigate(page) => self.navigate(page),
            AppEvent::GoHome => {
                let home = self.home_page();
                self.navigate(home)
            },
            AppEvent::Refresh => self.start_fetch(),
            AppEvent::ShowWindow => {
                self.page = if self.has_server_url {
                    Page::Dashboard
                } else {
                    Page::Settings
                };
                FetchAction::Wait
            },
            AppEvent::Tick => {
                self.seconds_since_fetch = self.seconds_since_fetch.saturating_add(1);
                if self.has_server_url && self.seconds_since_fetch >= self.refresh_interval_secs {
                    self.start_fetch()
                } else {
                    FetchAction::Wait
                }
            },
            AppEvent::FetchFinished => {
                // The countdown runs from when a fetch finishes, not from when
                // it starts, so the interval is the gap between requests.
                self.fetch_in_flight = false;
                self.seconds_since_fetch = 0;
                FetchAction::Wait
            },
            AppEvent::ConfigSaved { has_server_url, refresh_interval_secs } => {
                self.has_server_url = has_server_url;
                self.refresh_interval_secs = refresh_interval_secs;
                if has_server_url {
                    self.page = Page::Dashboard;
                    self.start_fetch()
                } else {
                    self.page = Page::Welcome;
                    FetchAction::Wait
                }
            },
        }
    }
}

/// The state after `n` ticks in a row.
pub open spec fn after_ticks(state: AppState, n: nat) -> AppState
    decreases n,
{
    if n == 0 {
        state
    } else {
        after_ticks(state, (n - 1) as nat).spec_step(AppEvent::Tick).0
    }
}

/// Whatever happens, a fetch only starts when none is running and a device is
/// configured, and a fetch only becomes running by starting.
pub proof fn at_most_one_fetch_at_a_time(state: AppState, event: AppEvent)
    ensures
        state.spec_step(event).1 == FetchAction::Start ==> {
            &&& !state.fetch_in_flight
            &&& state.spec_step(event).0.fetch_in_flight
            &&& state.spec_step(event).0.has_server_url
        },
        state.spec_step(event).0.fetch_in_flight ==> state.fetch_in_flight
            || state.spec_step(event).1 == FetchAction::Start,
{
}

/// After a fetch finishes, the automatic refresh waits: each of the first
/// `refresh_interval_secs - 1` ticks only counts, and the next one starts a
/// fetch.
pub proof fn refresh_fires_after_the_interval(state: AppState, n: nat)
    requires
        state.has_server_url,
        !state.fetch_in_flight,
        state.seconds_since_fetch == 0,
        n < state.refresh_interval_secs,
    ensures
        after_ticks(state, n) == (AppState { seconds_since_fetch: n as u64, ..state }),
        n + 1 < state.refresh_interval_secs ==> after_ticks(state, n).spec_step(AppEvent::Tick).1
            == FetchAction::Wait,
        n + 1 == state.refresh_interval_secs ==> after_ticks(state, n).spec_step(
            AppEvent::Tick,
        ).1 == FetchAction::Start,
    decreases n,
{
    if n > 0 {
        refresh_fires_after_the_interval(state, (n - 1) as nat);
    }
}

/// The state after `events` in order.
pub open spec fn after_events(state: AppState, events: Seq<AppEvent>) -> AppState
    decreases events.len(),
{
    if events.len() == 0 {
        state
    } else {
        after_events(state, events.drop_last()).spec_step(events.last()).0
    }
}

/// Fetches started and not yet finished: the one running at the start, if
/// any, and every start since, counted back to the last fetch that finished.
pub open spec fn fetches_outstanding(state: AppState, events: Seq<AppEvent>) -> nat
    decreases events.len(),
{
    if events.len() == 0 {
        if state.fetch_in_flight {
            1
        } else {
            0
        }
    } else {
        let before = events.drop_last();
        match events.last() {
            AppEvent::FetchFinished => 0,
            event => fetches_outstanding(state, before) + if after_events(
                state,
                before,
            ).spec_step(event).1 == FetchAction::Start {
                1nat
            } else {
                0nat
            },
        }
    }
}

/// Over any run of events, at most one fetch is ever outstanding: a window
/// starts a fetch only when the previous one has finished, and the running
/// flag says exactly whether one is outstanding. A freshly launched window
/// starts out that way too.
pub proof fn one_fetch_outstanding_over_any_run(state: AppState, events: Seq<AppEvent>)
    ensures
        fetches_outstanding(state, events) <= 1,
        fetches_outstanding(state, events) == 1 <==> after_events(state, events).fetch_in_flight,
    decreases events.len(),
{
    if events.len() > 0 {
        let before = events.drop_last();
        one_fetch_outstanding_over_any_run(state, before);
        at_most_one_fetch_at_a_time(after_events(state, before), events.last());
    }
}

/// A launched window's running flag says whether its first fetch started.
pub proof fn launch_starts_at_most_one_fetch(has_server_url: bool, refresh_interval_secs: u64)
    ensures
        AppState::spec_launch(has_server_url, refresh_interval_secs).0.fetch_in_flight
            <==> AppState::spec_launch(has_server_url, refresh_interval_secs).1
            == FetchAction::Start,
{
}

/// Finishing a fetch restarts the countdown: the fetch is no longer
/// running, the count of seconds is back at zero, and with a device
/// configured the next `refresh_interval_secs - 1` ticks start nothing, while
/// the tick after them starts the next fetch.
pub proof fn finishing_a_fetch_restarts_the_countdown(state: AppState, n: nat)
    requires
        state.has_server_url,
        n < state.refresh_interval_secs,
    ensures
        !state.spec_step(AppEvent::FetchFinished).0.fetch_in_flight,
        state.spec_step(AppEvent::FetchFinished).0.seconds_since_fetch == 0,
        state.spec_step(AppEvent::FetchFinished).1 == FetchAction::Wait,
        n + 1 < state.refresh_interval_secs ==> after_ticks(
            state.spec_step(AppEvent::FetchFinished).0,
            n,
        ).spec_step(AppEvent::Tick).1 == FetchAction::Wait,
        n + 1 == state.refresh_interval_secs ==> after_ticks(
            state.spec_step(AppEvent::FetchFinished).0,
            n,
        ).spec_step(AppEvent::Tick).1 == FetchAction::Start,
{
    let finished = state.spec_step(AppEvent::FetchFinished).0;
    assert(finished == AppState { fetch_in_flight: false, seconds_since_fetch: 0, ..state });
    refresh_fires_after_the_interval(finished, n);
}

/// Home is the dashboard exactly when a device is configured, and showing the
/// window from the tray lands on the dashboard, or on Settings when there is
/// nothing to show yet.
pub proof fn home_follows_the_configuration(state: AppState)
    ensures
        state.spec_step(AppEvent::GoHome).0.page == (if state.has_server_url {
            Page::Dashboard
        } else {
            Page::Welcome
        }),
        state.spec_step(AppEvent::ShowWindow).0.page == (if state.has_server_url {
            Page::Dashboard
        } else {
            Page::Settings
        }),
{
}

/// The status lines after a configuration was saved: one for the settings
/// page, and one for the dashboard when it has something to say.
pub fn saved_messages(has_server_url: bool) -> (messages: (&'static str, Option<&'static str>))
    ensures
        has_server_url ==> messages.0@ == "Saved. Refreshing dashboard."@ && messages.1 is None,
        !has_server_url ==> messages.0@ == "Cleared URL. Returning to Welcome."@ && (
        messages.1 matches Some(text) && text@ == "Server URL removed."@),
{
    if has_server_url {
        ("Saved. Refreshing dashboard.", None)
    } else {
        ("Cleared URL. Returning to Welcome.", Some("Server URL removed."))
    }
}

/// The dashboard's status line after a fetch failed with `error`.
pub fn fetch_failed_text(error: &str) -> (text: String)
    ensures
        text@ == "Fetch failed: "@ + error@,
{
    String::from_str("Fetch failed: ").concat(error)
}

/// Human-readable age of the most recent successful fetch, given the whole
/// seconds since it finished, or `None` before the first one.
pub open spec fn spec_last_updated_text(elapsed_secs: Option<u64>) -> Seq<char> {
    match elapsed_secs {
        None => "Last updated: not yet"@,
        Some(seconds) => if seconds <= 4 {
            "Last updated: just now"@
        } else if seconds <= 59 {
            "Last updated: "@ + decimal(seconds as nat) + "s ago"@
        } else {
            "Last updated: "@ + decimal((seconds / 60) as nat) + "m "@ + decimal(
                (seconds % 60) as nat,
            ) + "s ago"@
        },
    }
}

/// The "Last updated" label in the header.
pub fn last_updated_text(elapsed_secs: Option<u64>) -> (text: String)
    ensures
        text@ == spec_last_updated_text(elapsed_secs),
{
    match elapsed_secs {
        None => String::from_str("Last updated: not yet"),
        Some(seconds) => {
            if seconds <= 4 {
                String::from_str("Last updated: just now")
            } else if seconds <= 59 {
                let mut text = String::from_str("Last updated: ");
                push_decimal(&mut text, seconds);
                text.append("s ago");
                text
            } else {
                let mut text = String::from_str("Last updated: ");
                push_decimal(&mut text, seconds / 60);
                text.append("m ");
                push_decimal(&mut text, seconds % 60);
                text.append("s ago");
                text
            }
        },
    }
}

} // verus!
