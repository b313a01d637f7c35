use airgradient_desktop::state::Page;
use airgradient_desktop::text::{decimal_text, same_text};
use airgradient_desktop::ui::app::{
    fetch_failed_text, last_updated_text, saved_messages, AppEvent, AppState, FetchAction,
};

#[test]
fn a_configured_window_opens_on_the_dashboard_and_fetches() {
    let (state, action) = AppState::launch(true, 30);

    assert_eq!(state.page, Page::Dashboard);
    assert!(state.fetch_in_flight);
    assert_eq!(action, FetchAction::Start);
}

#[test]
fn an_unconfigured_window_opens_on_onboarding() {
    let (state, action) = AppState::launch(false, 30);

    assert_eq!(state.page, Page::Welcome);
    assert!(!state.fetch_in_flight);
    assert_eq!(action, FetchAction::Wait);
    assert_eq!(state.home_page(), Page::Welcome);
}

#[test]
fn the_refresh_fires_once_the_interval_has_passed_since_the_last_fetch() {
    let (mut state, _) = AppState::launch(true, 3);
    assert_eq!(state.handle(AppEvent::FetchFinished), FetchAction::Wait);

    assert_eq!(state.handle(AppEvent::Tick), FetchAction::Wait);
    assert_eq!(state.handle(AppEvent::Tick), FetchAction::Wait);
    assert_eq!(state.handle(AppEvent::Tick), FetchAction::Start);
    // Still running: further ticks leave it alone.
    assert_eq!(state.handle(AppEvent::Tick), FetchAction::Wait);
    assert_eq!(state.handle(AppEvent::Refresh), FetchAction::Wait);
}

#[test]
fn a_manual_refresh_without_a_device_says_so() {
    let (mut state, _) = AppState::launch(false, 30);

    let action = state.handle(AppEvent::Refresh);
    assert_eq!(action, FetchAction::ReportNoServer);
    assert_eq!(action.status_text(), Some("No server URL configured."));
    assert_eq!(FetchAction::Start.status_text(), Some("Fetching measurements..."));
    assert_eq!(FetchAction::Wait.status_text(), None);
}

#[test]
fn saving_a_device_moves_to_the_dashboard_and_fetches() {
    let (mut state, _) = AppState::launch(false, 30);

    let action = state.handle(AppEvent::ConfigSaved {
        has_server_url: true,
        refresh_interval_secs: 60,
    });
    assert_eq!(action, FetchAction::Start);
    assert_eq!(state.page, Page::Dashboard);
    assert_eq!(state.refresh_interval_secs, 60);
}

#[test]
fn showing_the_window_lands_on_settings_until_a_device_is_set() {
    let (mut state, _) = AppState::launch(false, 30);
    state.handle(AppEvent::Navigate(Page::Help));

    assert_eq!(state.handle(AppEvent::ShowWindow), FetchAction::Wait);
    assert_eq!(state.page, Page::Settings);
    state.handle(AppEvent::GoHome);
    assert_eq!(state.page, Page::Welcome);
}

#[test]
fn last_updated_reads_naturally() {
    assert_eq!(last_updated_text(None), "Last updated: not yet");
    assert_eq!(last_updated_text(Some(0)), "Last updated: just now");
    assert_eq!(last_updated_text(Some(4)), "Last updated: just now");
    assert_eq!(last_updated_text(Some(5)), "Last updated: 5s ago");
    assert_eq!(last_updated_text(Some(59)), "Last updated: 59s ago");
    assert_eq!(last_updated_text(Some(60)), "Last updated: 1m 0s ago");
    assert_eq!(last_updated_text(Some(3725)), "Last updated: 62m 5s ago");
}

#[test]
fn numbers_are_written_in_decimal() {
    assert_eq!(decimal_text(0), "0");
    assert_eq!(decimal_text(7), "7");
    assert_eq!(decimal_text(2880), "2880");
    assert_eq!(decimal_text(u64::MAX), u64::MAX.to_string());
}

#[test]
fn texts_compare_by_their_characters() {
    assert!(same_text("pm25", "pm25"));
    assert!(!same_text("pm25", "pm2"));
    assert!(!same_text("", "a"));
    assert!(same_text("PM₂.₅", "PM₂.₅"));
}

#[test]
fn saving_reports_what_happens_next() {
    assert_eq!(saved_messages(true), ("Saved. Refreshing dashboard.", None));
    assert_eq!(
        saved_messages(false),
        ("Cleared URL. Returning to Welcome.", Some("Server URL removed."))
    );
    assert_eq!(fetch_failed_text("timeout"), "Fetch failed: timeout");
}

#[test]
fn asking_for_a_fetch_starts_at_most_one() {
    let (mut state, _) = AppState::launch(false, 30);
    let before = state;
    assert_eq!(state.start_fetch(), FetchAction::ReportNoServer);
    assert_eq!(state, before);

    state.handle(AppEvent::ConfigSaved {
        has_server_url: true,
        refresh_interval_secs: 30,
    });
    let running = state;
    assert!(running.fetch_in_flight);
    assert_eq!(state.start_fetch(), FetchAction::Wait);
    assert_eq!(state, running);
}
