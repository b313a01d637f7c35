use airgradient_desktop::alerts::{
    saturating_nanos, AlertKind, AlertMonitor, AlertSeverity, RuleVerdicts, ALERT_COOLDOWN_SECS, NANOS_PER_SEC,
    OFFLINE_BODY_PREFIX, OFFLINE_TITLE,
};

fn seconds(secs: u64) -> u64 {
    secs * NANOS_PER_SEC
}

fn co2(severity: AlertSeverity) -> RuleVerdicts {
    RuleVerdicts {
        co2: Some(severity),
        ..Default::default()
    }
}

fn pm25(severity: AlertSeverity) -> RuleVerdicts {
    RuleVerdicts {
        pm25: Some(severity),
        ..Default::default()
    }
}

#[test]
fn waits_for_consecutive_bad_readings_before_alerting() {
    let mut monitor = AlertMonitor::new(true);
    // 900 ppm of CO2 is a notice.
    let verdicts = co2(AlertSeverity::Notice);

    assert!(monitor.evaluate(&verdicts).is_empty());

    let alerts = monitor.evaluate(&verdicts);
    assert_eq!(alerts.len(), 1);
    assert_eq!(alerts[0].severity, AlertSeverity::Notice);
    assert_eq!(alerts[0].title, "CO2 is above 800 ppm");
}

#[test]
fn suppresses_repeated_alert_until_cooldown_or_escalation() {
    let mut monitor = AlertMonitor::new(true);
    // 900 ppm is a notice, 2100 ppm is critical.
    let notice = co2(AlertSeverity::Notice);
    let critical = co2(AlertSeverity::Critical);

    assert!(monitor.evaluate(&notice).is_empty());
    assert_eq!(monitor.evaluate(&notice).len(), 1);
    assert!(monitor.evaluate(&notice).is_empty());

    let alerts = monitor.evaluate(&critical);
    assert_eq!(alerts.len(), 1);
    assert_eq!(alerts[0].severity, AlertSeverity::Critical);
}

#[test]
fn records_offline_alert_after_repeated_fetch_errors() {
    let mut monitor = AlertMonitor::new(true);

    assert!(monitor.record_fetch_error("timeout").is_none());
    assert!(monitor.record_fetch_error("timeout").is_none());

    let alert = monitor
        .record_fetch_error("connection refused")
        .expect("third fetch failure should alert");
    assert_eq!(alert.severity, AlertSeverity::Warning);
    assert!(alert.body.contains("connection refused"));
}

#[test]
fn cooldown_allows_repeated_alert_after_time_passes() {
    let mut monitor = AlertMonitor::new(true);
    // 80 µg/m³ of PM2.5 is a warning.
    let verdicts = pm25(AlertSeverity::Warning);
    let start = seconds(5);

    assert!(monitor.evaluate_at(&verdicts, start).is_empty());
    assert_eq!(monitor.evaluate_at(&verdicts, start).len(), 1);
    assert!(monitor
        .evaluate_at(&verdicts, start + seconds(60))
        .is_empty());

    let alerts = monitor.evaluate_at(&verdicts, start + seconds(20 * 60));
    assert_eq!(alerts.len(), 1);
    assert_eq!(alerts[0].severity, AlertSeverity::Warning);
}

#[test]
fn fetch_error_cooldown_uses_injected_time() {
    let mut monitor = AlertMonitor::new(true);
    let start = seconds(5);

    assert!(monitor.record_fetch_error_at("timeout", start).is_none());
    assert!(monitor.record_fetch_error_at("timeout", start).is_none());
    assert!(monitor.record_fetch_error_at("timeout", start).is_some());
    assert!(monitor
        .record_fetch_error_at("timeout", start + seconds(60))
        .is_none());
    assert!(monitor
        .record_fetch_error_at("timeout", start + seconds(20 * 60))
        .is_some());
}

#[test]
fn disabled_monitor_drops_alert_state() {
    let mut monitor = AlertMonitor::new(true);
    // 200 µg/m³ of PM2.5 is critical.
    let verdicts = pm25(AlertSeverity::Critical);

    assert!(monitor.evaluate(&verdicts).is_empty());
    monitor.set_enabled(false);
    monitor.set_enabled(true);

    assert!(monitor.evaluate(&verdicts).is_empty());
}

#[test]
fn a_disabled_monitor_never_notifies() {
    let mut monitor = AlertMonitor::new(false);
    let verdicts = co2(AlertSeverity::Critical);

    for step in 0..5 {
        assert!(monitor.evaluate_at(&verdicts, seconds(step)).is_empty());
        assert!(monitor.record_fetch_error_at("timeout", seconds(step)).is_none());
    }
}

#[test]
fn a_good_reading_resets_the_run() {
    let mut monitor = AlertMonitor::new(true);
    let bad = co2(AlertSeverity::Warning);
    let good = RuleVerdicts::default();

    assert!(monitor.evaluate_at(&bad, 0).is_empty());
    assert!(monitor.evaluate_at(&good, seconds(1)).is_empty());
    assert!(monitor.evaluate_at(&bad, seconds(2)).is_empty());
    let alerts = monitor.evaluate_at(&bad, seconds(3));
    assert_eq!(alerts.len(), 1);
    assert_eq!(alerts[0].title, "CO2 is high");
    assert_eq!(alerts[0].id, "airgradient-co2");
}

#[test]
fn the_cooldown_counts_whole_seconds() {
    let mut monitor = AlertMonitor::new(true);
    let bad = pm25(AlertSeverity::Notice);

    assert!(monitor.evaluate_at(&bad, 0).is_empty());
    assert_eq!(monitor.evaluate_at(&bad, 0).len(), 1);
    // One nanosecond short of the cooldown is still inside it.
    assert!(monitor
        .evaluate_at(&bad, seconds(ALERT_COOLDOWN_SECS) - 1)
        .is_empty());
    let alerts = monitor.evaluate_at(&bad, seconds(ALERT_COOLDOWN_SECS));
    assert_eq!(alerts.len(), 1);
    assert_eq!(alerts[0].title, "PM2.5 is elevated");
}

#[test]
fn alerts_come_in_rule_order() {
    let mut monitor = AlertMonitor::new(true);
    let verdicts = RuleVerdicts {
        co2: Some(AlertSeverity::Notice),
        humidity_high: Some(AlertSeverity::Critical),
        tvoc: Some(AlertSeverity::Warning),
        ..Default::default()
    };

    assert!(monitor.evaluate_at(&verdicts, 0).is_empty());
    let alerts = monitor.evaluate_at(&verdicts, 1);
    let ids: Vec<&str> = alerts.iter().map(|alert| alert.id.as_str()).collect();
    assert_eq!(
        ids,
        vec![
            "airgradient-co2",
            "airgradient-tvoc",
            "airgradient-humidityhigh"
        ]
    );
    assert_eq!(alerts[1].title, "VOC level is elevated");
    assert_eq!(alerts[2].title, "Humidity is very high");
}

#[test]
fn the_offline_alert_carries_the_last_error() {
    let mut monitor = AlertMonitor::new(true);

    monitor.record_fetch_error_at("a", 0);
    monitor.record_fetch_error_at("b", 0);
    let alert = monitor
        .record_fetch_error_at("dns failure", 0)
        .expect("third failure alerts");

    assert_eq!(alert.id, "airgradient-deviceoffline");
    assert_eq!(alert.title, OFFLINE_TITLE);
    assert_eq!(alert.body, format!("{OFFLINE_BODY_PREFIX}dns failure"));
}

#[test]
fn a_reading_ends_a_run_of_failed_fetches() {
    let mut monitor = AlertMonitor::new(true);

    assert!(monitor.record_fetch_error_at("timeout", 0).is_none());
    assert!(monitor.record_fetch_error_at("timeout", 0).is_none());
    monitor.evaluate_at(&RuleVerdicts::default(), 0);
    assert!(monitor.record_fetch_error_at("timeout", 0).is_none());
    assert!(monitor.record_fetch_error_at("timeout", 0).is_none());
    assert!(monitor.record_fetch_error_at("timeout", 0).is_some());
}

#[test]
fn severity_order_runs_from_notice_to_critical() {
    assert!(AlertSeverity::Critical.is_worse_than(AlertSeverity::Warning));
    assert!(AlertSeverity::Warning.is_worse_than(AlertSeverity::Notice));
    assert!(!AlertSeverity::Notice.is_worse_than(AlertSeverity::Notice));
    assert!(!AlertSeverity::Notice.is_worse_than(AlertSeverity::Critical));
}

#[test]
fn the_gate_opens_on_first_use_after_the_cooldown_or_on_escalation() {
    let mut monitor = AlertMonitor::new(true);

    let first = monitor
        .make_alert(AlertKind::Co2, AlertSeverity::Notice, 0, "title", "body")
        .expect("a kind that never notified may notify");
    assert_eq!(first.id, "airgradient-co2");
    assert_eq!(first.title, "title");
    assert_eq!(first.body, "body");
    assert_eq!(first.severity, AlertSeverity::Notice);

    assert!(monitor
        .make_alert(AlertKind::Co2, AlertSeverity::Notice, seconds(60), "t", "b")
        .is_none());
    assert!(monitor
        .make_alert(AlertKind::Co2, AlertSeverity::Warning, seconds(60), "t", "b")
        .is_some());
    assert!(monitor
        .make_alert(AlertKind::Co2, AlertSeverity::Warning, seconds(60 + 1199), "t", "b")
        .is_none());
    assert!(monitor
        .make_alert(AlertKind::Co2, AlertSeverity::Notice, seconds(60 + 1200), "t", "b")
        .is_some());
}

#[test]
fn the_clock_saturates_rather_than_wrapping() {
    assert_eq!(saturating_nanos(0), 0);
    assert_eq!(saturating_nanos(u128::from(u64::MAX)), u64::MAX);
    assert_eq!(saturating_nanos(u128::from(u64::MAX) + 1), u64::MAX);
    assert_eq!(saturating_nanos(u128::MAX), u64::MAX);
}
