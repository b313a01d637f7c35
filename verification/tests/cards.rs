use airgradient_desktop::alerts::AlertSeverity;
use airgradient_desktop::launch::{minimized_flag, started_minimized, visible_on_start};
use airgradient_desktop::notifications::{delivery_id, test_notification, urgency, Urgency};
use airgradient_desktop::sensors::aqi::{has_nowcast_basis, nowcast_hours};
use airgradient_desktop::sensors::comfort::{Dimension, Position};
use airgradient_desktop::storage::{has_content, xdg_root, XdgRoot, APP_DIRECTORY};
use airgradient_desktop::ui::environment_card::{
    comfort_text, css_classes as environment_classes, EnvironmentKind, UNCOMFORTABLE_CLASS,
};
use airgradient_desktop::ui::metric_card::{css_classes as metric_classes, range_text, value_text};
use airgradient_desktop::ui::sensor_card::{css_classes as sensor_classes, CardSize};
use airgradient_desktop::ui::tray::argb_pixels;

#[test]
fn environment_cards_take_their_facts_from_the_metric_table() {
    assert_eq!(EnvironmentKind::Temperature.metric().unit, "°C");
    assert_eq!(EnvironmentKind::Humidity.metric().unit, "%");
    assert_eq!(EnvironmentKind::Temperature.dimension(), Dimension::Temperature);
    assert_eq!(EnvironmentKind::Humidity.css_class(), "humidity-widget");
}

#[test]
fn the_comfort_line_names_the_position() {
    assert_eq!(
        comfort_text(EnvironmentKind::Temperature, Some(Position::Above)),
        "Comfort: Warm"
    );
    assert_eq!(
        comfort_text(EnvironmentKind::Humidity, Some(Position::Below)),
        "Comfort: Dry"
    );
    assert_eq!(comfort_text(EnvironmentKind::Humidity, None), "Comfort: --");
}

#[test]
fn only_an_uncomfortable_reading_is_highlighted() {
    assert_eq!(
        environment_classes(EnvironmentKind::Temperature, Some(Position::Above)),
        vec!["card", "metric-card", "temperature-widget", UNCOMFORTABLE_CLASS]
    );
    assert_eq!(
        environment_classes(EnvironmentKind::Temperature, Some(Position::Inside)),
        vec!["card", "metric-card", "temperature-widget"]
    );
    assert_eq!(
        environment_classes(EnvironmentKind::Humidity, None),
        vec!["card", "metric-card", "humidity-widget"]
    );
}

#[test]
fn sensor_cards_are_sized_and_coloured() {
    assert_eq!(
        sensor_classes(CardSize::Narrow, "status-green"),
        ["card", "metric-card", "sensor-card", "narrow-sensor-card", "status-green"]
    );
    assert_eq!(CardSize::Compact.css_class(), "compact-sensor-card");
    assert_eq!(CardSize::Narrow.icon_pixel_size(), 36);
    assert_eq!(CardSize::Compact.icon_pixel_size(), 28);
    assert_eq!(CardSize::Narrow.spacing(), 10);
    assert_eq!(CardSize::Compact.spacing(), 8);
}

#[test]
fn metric_cards_summarise_their_range() {
    assert_eq!(
        range_text(Some(("12", "20", "34"))),
        "low 12 · avg 20 · high 34"
    );
    assert_eq!(range_text(None), "No readings recorded yet");
    assert_eq!(value_text(Some("13.2")), "13.2");
    assert_eq!(value_text(None), "--");
    assert_eq!(
        metric_classes("status-red"),
        ["card", "metric-card", "history-card", "status-red"]
    );
}

#[test]
fn blank_values_do_not_count_as_set() {
    assert!(!has_content(""));
    assert!(!has_content(" \t\n"));
    assert!(!has_content("\u{3000}"));
    assert!(has_content(" /data "));
}

#[test]
fn the_base_variable_wins_then_home_then_the_current_directory() {
    assert_eq!(
        xdg_root(Some("/xdg/data"), Some("/home/u")),
        XdgRoot::Variable("/xdg/data".to_string())
    );
    assert_eq!(
        xdg_root(Some("   "), Some("/home/u")),
        XdgRoot::Home("/home/u".to_string())
    );
    assert_eq!(xdg_root(None, Some("/home/u")), XdgRoot::Home("/home/u".to_string()));
    assert_eq!(xdg_root(None, Some("")), XdgRoot::CurrentDirectory);
    assert_eq!(xdg_root(None, None), XdgRoot::CurrentDirectory);
    assert_eq!(APP_DIRECTORY, "airgradient-desktop");
}

#[test]
fn any_common_spelling_starts_the_app_hidden() {
    for flag in ["--minimized", "--background", "--hidden", "--start-minimized"] {
        assert!(minimized_flag(flag));
    }
    assert!(!minimized_flag("--verbose"));
    let args = vec!["air-monitor".to_string(), "--hidden".to_string()];
    assert!(started_minimized(&args));
    assert!(!started_minimized(&["air-monitor".to_string()]));
    assert!(visible_on_start(false, false));
    assert!(!visible_on_start(true, false));
    assert!(!visible_on_start(false, true));
}

#[test]
fn notifications_get_louder_with_severity_and_never_reuse_an_id() {
    assert_eq!(urgency(AlertSeverity::Notice), Urgency::Normal);
    assert_eq!(urgency(AlertSeverity::Warning), Urgency::High);
    assert_eq!(urgency(AlertSeverity::Critical), Urgency::Urgent);
    assert_eq!(delivery_id("airgradient-co2", 1), "airgradient-co2-1");
    assert_eq!(delivery_id("airgradient-co2", 42), "airgradient-co2-42");
}

#[test]
fn icon_pixels_are_rearranged_to_alpha_first() {
    // Two RGBA pixels on one row.
    let rgba = [1, 2, 3, 4, 5, 6, 7, 8];
    assert_eq!(argb_pixels(&rgba, 2, 1, 4, 8), vec![4, 1, 2, 3, 8, 5, 6, 7]);

    // RGB pixels without alpha are opaque; padding at the end of each row is
    // skipped.
    let rgb = [1, 2, 3, 0, 0, 4, 5, 6];
    assert_eq!(
        argb_pixels(&rgb, 1, 2, 3, 5),
        vec![255, 1, 2, 3, 255, 4, 5, 6]
    );
    assert!(argb_pixels(&[], 0, 0, 4, 0).is_empty());
}

#[test]
fn the_test_notification_is_a_notice() {
    let alert = test_notification();
    assert_eq!(alert.id, "airgradient-test-notification");
    assert_eq!(alert.title, "Air Monitor test notification");
    assert!(alert.body.starts_with("Notifications are working."));
    assert_eq!(alert.severity, AlertSeverity::Notice);
}

#[test]
fn whitespace_is_what_the_standard_library_calls_whitespace() {
    for code in 0..0x3100_u32 {
        if let Some(c) = char::from_u32(code) {
            assert_eq!(has_content(&c.to_string()), !c.is_whitespace(), "U+{code:04X}");
        }
    }
    // The Mongolian vowel separator stopped being whitespace in Unicode 6.3.
    assert!(has_content("\u{180e}"));
}

#[test]
fn without_two_recent_hours_there_is_no_nowcast() {
    let basis = has_nowcast_basis;
    assert!(!basis(&[true]), "one hour is not enough");
    assert!(!basis(&[false, true, true]), "the current hour is missing");
    assert!(!basis(&[true, false, true]), "the previous hour is missing");
    assert!(basis(&[true, true]));
    assert!(basis(&[true, true, false, false]), "gaps further back are allowed");
    assert!(!basis(&[]));
}

#[test]
fn the_nowcast_reads_only_the_last_twelve_hours_and_skips_gaps() {
    assert_eq!(nowcast_hours(&[true, true, false, true]), vec![0, 1, 3]);
    let mut long = vec![true; 20];
    long[5] = false;
    assert_eq!(nowcast_hours(&long), vec![0, 1, 2, 3, 4, 6, 7, 8, 9, 10, 11]);
    assert!(nowcast_hours(&[]).is_empty());
}
