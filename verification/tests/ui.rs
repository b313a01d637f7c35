use airgradient_desktop::sensors::air_quality::GasUnit;
use airgradient_desktop::sensors::aqi::AqiBand;
use airgradient_desktop::state;
use airgradient_desktop::ui::aqi_card::{aqi_description, aqi_level, description_text, level_text};
use airgradient_desktop::ui::dashboard::{gas_unit_label, server_text};
use airgradient_desktop::ui::history_view::summary_text;
use airgradient_desktop::ui::metrics::{
    find, metrics, AQI_ID, CO2_ID, HUMIDITY_ID, METRIC_COUNT, NOX_ID, PM003_COUNT_ID, PM10_ID,
    PM1_ID, PM25_ID, TEMPERATURE_ID, TVOC_ID,
};
use airgradient_desktop::ui::page::Page;
use airgradient_desktop::ui::status::{aqi_class, class_for, css_class, StatusColor, UNKNOWN_CLASS};
use airgradient_desktop::ui::trend::{Preference, Trend, TrendDirection};

#[test]
fn metric_ids_are_unique() {
    let mut ids: Vec<&str> = metrics().iter().map(|metric| metric.id).collect();
    ids.sort_unstable();
    let count = ids.len();
    ids.dedup();

    assert_eq!(ids.len(), count, "duplicate metric id");
    assert_eq!(count, METRIC_COUNT);
}

#[test]
fn classified_metrics_report_a_status_and_unclassified_ones_a_fixed_colour() {
    // 500 ppm of CO2 is green, 2500 ppm is red.
    assert_eq!(find(CO2_ID).status_class(Some(StatusColor::Green)), "status-green");
    assert_eq!(find(CO2_ID).status_class(Some(StatusColor::Red)), "status-red");
    // No thresholds means the colour never changes with the value.
    assert_eq!(find(TEMPERATURE_ID).status_class(Some(StatusColor::Red)), "status-blue");
    assert_eq!(find(TEMPERATURE_ID).status_class(None), "status-blue");
}

#[test]
fn a_missing_reading_is_unknown_where_thresholds_exist() {
    assert_eq!(find(CO2_ID).status_class(None), UNKNOWN_CLASS);
}

#[test]
fn every_id_constant_names_a_metric() {
    for id in [
        AQI_ID,
        CO2_ID,
        TEMPERATURE_ID,
        HUMIDITY_ID,
        TVOC_ID,
        NOX_ID,
        PM003_COUNT_ID,
        PM1_ID,
        PM25_ID,
        PM10_ID,
    ] {
        assert_eq!(find(id).id, id);
    }
}

#[test]
fn particulates_without_breakpoints_keep_their_fixed_colours() {
    assert_eq!(find(PM003_COUNT_ID).status_class(Some(StatusColor::Green)), "status-blue");
    assert_eq!(find(PM1_ID).status_class(Some(StatusColor::Green)), "status-blue");
    assert_eq!(find(PM10_ID).status_class(Some(StatusColor::Green)), "status-orange");
}

#[test]
fn the_charted_metric_exists() {
    assert_eq!(find(PM25_ID).title, "PM₂.₅");
}

#[test]
fn metrics_come_in_display_order() {
    let ids: Vec<&str> = metrics().iter().map(|metric| metric.id).collect();
    assert_eq!(
        ids,
        vec![
            AQI_ID,
            CO2_ID,
            TEMPERATURE_ID,
            HUMIDITY_ID,
            TVOC_ID,
            NOX_ID,
            PM003_COUNT_ID,
            PM1_ID,
            PM25_ID,
            PM10_ID
        ]
    );
    assert_eq!(find(CO2_ID).unit, "ppm");
}

#[test]
fn missing_value_is_unknown() {
    assert_eq!(class_for(None), UNKNOWN_CLASS);
}

#[test]
fn co2_classes_follow_thresholds() {
    // 500, 1500 and 2500 ppm of CO2 are green, orange and red.
    assert_eq!(class_for(Some(StatusColor::Green)), "status-green");
    assert_eq!(class_for(Some(StatusColor::Orange)), "status-orange");
    assert_eq!(class_for(Some(StatusColor::Red)), "status-red");
}

#[test]
fn the_extremes_of_the_scale_look_unknown_on_a_regular_card() {
    assert_eq!(css_class(StatusColor::Yellow), "status-yellow");
    assert_eq!(css_class(StatusColor::Purple), UNKNOWN_CLASS);
    assert_eq!(css_class(StatusColor::Gray), UNKNOWN_CLASS);
}

#[test]
fn aqi_classes_cover_the_scale() {
    assert_eq!(aqi_class(None), "aqi-good");
    assert_eq!(aqi_class(Some(AqiBand::Good)), "aqi-good");
    assert_eq!(aqi_class(Some(AqiBand::Moderate)), "aqi-moderate");
    assert_eq!(aqi_class(Some(AqiBand::UnhealthyForSensitiveGroups)), "aqi-sensitive");
    assert_eq!(aqi_class(Some(AqiBand::Unhealthy)), "aqi-unhealthy");
    assert_eq!(aqi_class(Some(AqiBand::VeryUnhealthy)), "aqi-very-unhealthy");
    assert_eq!(aqi_class(Some(AqiBand::Hazardous)), "aqi-hazardous");
}

#[test]
fn levels_cover_the_whole_scale() {
    assert_eq!(aqi_level(AqiBand::Good), "Good");
    assert_eq!(aqi_level(AqiBand::Moderate), "Moderate");
    assert_eq!(
        aqi_level(AqiBand::UnhealthyForSensitiveGroups),
        "Unhealthy for Sensitive Groups"
    );
    assert_eq!(aqi_level(AqiBand::Unhealthy), "Unhealthy");
    assert_eq!(aqi_level(AqiBand::VeryUnhealthy), "Very Unhealthy");
    assert_eq!(aqi_level(AqiBand::Hazardous), "Hazardous");
    assert_eq!(level_text(None), "Unknown");
}

#[test]
fn every_level_has_a_description() {
    for band in [
        AqiBand::Good,
        AqiBand::Moderate,
        AqiBand::UnhealthyForSensitiveGroups,
        AqiBand::Unhealthy,
        AqiBand::VeryUnhealthy,
        AqiBand::Hazardous,
    ] {
        assert!(!aqi_description(band).is_empty());
        assert_eq!(description_text(Some(band)), aqi_description(band));
    }
    assert_eq!(description_text(None), "Waiting for a measurement.");
}

#[test]
fn missing_current_reading_is_neutral() {
    let trend = Trend::neutral("No reading");

    assert_eq!(trend.text, "No reading");
    assert_eq!(trend.direction, TrendDirection::Neutral);
}

#[test]
fn first_reading_has_nothing_to_compare_against() {
    let trend = Trend::default();

    assert_eq!(trend.text, "No previous reading");
    assert_eq!(trend.direction, TrendDirection::Neutral);
}

#[test]
fn tiny_changes_are_reported_as_flat() {
    let trend = Trend::flat("ppm");

    assert_eq!(trend.text, "→ 0 ppm");
    assert_eq!(trend.direction, TrendDirection::Neutral);
}

#[test]
fn falling_pollutant_is_an_improvement() {
    // From 442 ppm to 400 ppm.
    let trend = Trend::moved(false, "-42", "ppm", Preference::LowerIsBetter);

    assert_eq!(trend.text, "↓ -42 ppm");
    assert_eq!(trend.direction, TrendDirection::Improved);
}

#[test]
fn rising_pollutant_is_worse() {
    // From 400 ppm to 442 ppm.
    let trend = Trend::moved(true, "42", "ppm", Preference::LowerIsBetter);

    assert_eq!(trend.text, "↑ +42 ppm");
    assert_eq!(trend.direction, TrendDirection::Worse);
}

#[test]
fn comfort_readings_move_without_being_judged() {
    let cooler = Trend::moved(false, "-1", "°C", Preference::Neither);
    let warmer = Trend::moved(true, "1", "°C", Preference::Neither);

    assert_eq!(cooler.text, "↓ -1 °C");
    assert_eq!(cooler.direction, TrendDirection::Neutral);
    assert_eq!(warmer.text, "↑ +1 °C");
    assert_eq!(warmer.direction, TrendDirection::Neutral);
}

#[test]
fn small_deltas_keep_one_decimal() {
    let trend = Trend::moved(true, "2.2", "µg/m³", Preference::LowerIsBetter);

    assert_eq!(trend.text, "↑ +2.2 µg/m³");
}

#[test]
fn trend_directions_have_their_own_classes() {
    assert_eq!(TrendDirection::Improved.css_class(), "trend-improved");
    assert_eq!(TrendDirection::Worse.css_class(), "trend-worse");
    assert_eq!(TrendDirection::Neutral.css_class(), "trend-neutral");
    assert_eq!(
        TrendDirection::of_change(true, Preference::Neither),
        TrendDirection::Neutral
    );
}

#[test]
fn gas_units_default_to_the_sensor_index() {
    assert_eq!(gas_unit_label(None), "index");
    assert_eq!(gas_unit_label(Some(GasUnit::Index)), "index");
    assert_eq!(gas_unit_label(Some(GasUnit::Ppb)), "ppb");
}

#[test]
fn the_server_line_names_the_device_or_says_there_is_none() {
    assert_eq!(
        server_text(Some("http://192.168.1.201")),
        "Server URL: http://192.168.1.201"
    );
    assert_eq!(server_text(None), "Server URL: Not configured");
}

#[test]
fn the_history_summary_counts_the_readings() {
    assert_eq!(
        summary_text(0),
        "No readings recorded yet. Charts appear as measurements arrive."
    );
    assert_eq!(summary_text(1), "1 reading recorded.");
    assert_eq!(summary_text(2880), "2880 readings recorded, oldest first.");
}

#[test]
fn pages_have_stable_ids_and_titles() {
    assert_eq!(Page::Welcome.id(), "welcome");
    assert_eq!(Page::Dashboard.id(), "dashboard");
    assert_eq!(Page::Settings.id(), "settings");
    assert_eq!(Page::Help.id(), "help");
    assert_eq!(state::Page::Help.id(), "help");
    assert_eq!(state::Page::Dashboard.title(), "Dashboard");
    assert_eq!(state::Page::Welcome.title(), "Welcome");
}
