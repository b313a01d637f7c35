use airgradient_desktop::sensors::air_quality::GasUnit;
use airgradient_desktop::sensors::payload::{
    extract_gas, extract_measurement_value, parse_air_measurements, Json,
};

/// A number or numeric string, as the device sent it.
fn reading(text: &str) -> Json {
    Json::Reading(text.to_string())
}

fn object(entries: Vec<(&str, Json)>) -> Json {
    Json::Object(
        entries
            .into_iter()
            .map(|(key, value)| (key.to_string(), value))
            .collect(),
    )
}

fn text(found: &Option<String>) -> Option<&str> {
    found.as_deref()
}

#[test]
fn parses_airgradient_local_server_payload() {
    // Entries in the order the parser keeps them: sorted by key.
    let payload = object(vec![
        ("atmp", reading("25.87")),
        ("atmpCompensated", reading("24.47")),
        ("noxIndex", reading("1")),
        ("noxRaw", reading("16307")),
        ("pm003Count", reading("442")),
        ("pm01", reading("3")),
        ("pm02", reading("7")),
        ("pm10", reading("8")),
        ("rco2", reading("447")),
        ("rhum", reading("43")),
        ("rhumCompensated", reading("49")),
        ("serialno", Json::Other),
        ("tvocIndex", reading("100")),
        ("tvocRaw", reading("33051")),
        ("wifi", reading("-46")),
    ]);

    let texts = parse_air_measurements(&payload);

    assert_eq!(text(&texts.co2), Some("447"));
    assert_eq!(text(&texts.pm1), Some("3"));
    assert_eq!(text(&texts.pm25), Some("7"));
    assert_eq!(text(&texts.pm10), Some("8"));
    assert_eq!(text(&texts.pm003_count), Some("442"));
    assert_eq!(text(&texts.temperature), Some("24.47"));
    assert_eq!(text(&texts.humidity), Some("49"));
    assert_eq!(text(&texts.tvoc), Some("100"));
    assert_eq!(texts.tvoc_unit, Some(GasUnit::Index));
    assert_eq!(text(&texts.nox), Some("1"));
    assert_eq!(texts.nox_unit, Some(GasUnit::Index));
    // The device reports no index of its own; one is computed from PM2.5.
    assert_eq!(text(&texts.aqi), None);
}

#[test]
fn parses_nested_payloads_with_numeric_strings() {
    let payload = object(vec![(
        "device",
        object(vec![(
            "measurements",
            Json::Array(vec![
                object(vec![
                    ("atmpCompensated", reading("22.4")),
                    ("pm02", reading("13.2")),
                    ("rco2", reading("812")),
                    ("rhumCompensated", reading("45.5")),
                ]),
                object(vec![
                    ("noxIndex", reading("3")),
                    ("pm003Count", reading("1200")),
                    ("tvocIndex", reading("110")),
                ]),
            ]),
        )]),
    )]);

    let texts = parse_air_measurements(&payload);

    assert_eq!(text(&texts.co2), Some("812"));
    assert_eq!(text(&texts.pm25), Some("13.2"));
    assert_eq!(text(&texts.temperature), Some("22.4"));
    assert_eq!(text(&texts.humidity), Some("45.5"));
    assert_eq!(text(&texts.tvoc), Some("110"));
    assert_eq!(texts.tvoc_unit, Some(GasUnit::Index));
    assert_eq!(text(&texts.nox), Some("3"));
    assert_eq!(texts.nox_unit, Some(GasUnit::Index));
    assert_eq!(text(&texts.pm003_count), Some("1200"));
}

#[test]
fn mixed_gas_keys_take_the_unit_from_the_key_that_supplied_the_value() {
    let texts = parse_air_measurements(&object(vec![
        ("noxIndex", reading("2")),
        ("nox_ppb", reading("18")),
        ("tvocIndex", reading("100")),
        ("tvoc_ppb", reading("240")),
    ]));

    assert_eq!(text(&texts.tvoc), Some("240"));
    assert_eq!(texts.tvoc_unit, Some(GasUnit::Ppb));
    assert_eq!(text(&texts.nox), Some("18"));
    assert_eq!(texts.nox_unit, Some(GasUnit::Ppb));
}

#[test]
fn gas_keys_that_only_carry_an_index_are_labelled_as_an_index() {
    let texts = parse_air_measurements(&object(vec![
        ("noxIndex", reading("2")),
        ("tvocIndex", reading("100")),
    ]));

    assert_eq!(text(&texts.tvoc), Some("100"));
    assert_eq!(texts.tvoc_unit, Some(GasUnit::Index));
    assert_eq!(text(&texts.nox), Some("2"));
    assert_eq!(texts.nox_unit, Some(GasUnit::Index));
}

#[test]
fn a_missing_gas_reading_has_no_unit() {
    let texts = parse_air_measurements(&object(vec![("rco2", reading("500"))]));

    assert_eq!(texts.tvoc, None);
    assert_eq!(texts.tvoc_unit, None);
    assert_eq!(extract_gas(&object(vec![]), &["nox"], &["noxIndex"]), (None, None));
}

#[test]
fn keys_are_also_tried_in_lower_case() {
    let payload = object(vec![
        ("pm003count", reading("42")),
        ("sensor", object(vec![("tvocindex", reading("5"))])),
    ]);

    assert_eq!(
        extract_measurement_value(&payload, &["pm003Count"]).as_deref(),
        Some("42")
    );
    let texts = parse_air_measurements(&payload);
    assert_eq!(text(&texts.pm003_count), Some("42"));
    assert_eq!(text(&texts.tvoc), Some("5"));
    assert_eq!(texts.tvoc_unit, Some(GasUnit::Index));
}

#[test]
fn the_top_level_wins_over_nested_values() {
    let payload = object(vec![
        ("inner", object(vec![("rco2", reading("900"))])),
        ("rco2", reading("450")),
    ]);

    assert_eq!(
        extract_measurement_value(&payload, &["rco2"]).as_deref(),
        Some("450")
    );
}

#[test]
fn a_top_level_value_that_is_not_a_number_does_not_end_the_search() {
    let payload = object(vec![
        ("inner", object(vec![("rco2", reading("900"))])),
        ("rco2", Json::Other),
    ]);

    assert_eq!(
        extract_measurement_value(&payload, &["rco2"]).as_deref(),
        Some("900")
    );
}

#[test]
fn a_nested_key_that_is_not_a_number_ends_the_search_in_its_object() {
    let payload = object(vec![(
        "outer",
        object(vec![
            ("inner", object(vec![("rco2", reading("500"))])),
            ("rco2", Json::Other),
        ]),
    )]);

    assert_eq!(extract_measurement_value(&payload, &["rco2"]), None);
}

#[test]
fn earlier_candidates_are_preferred() {
    let payload = object(vec![
        ("atmp", reading("25.87")),
        ("atmpCompensated", reading("24.47")),
    ]);

    assert_eq!(
        extract_measurement_value(&payload, &["atmpCompensated", "atmp"]).as_deref(),
        Some("24.47")
    );
    assert_eq!(
        extract_measurement_value(&payload, &["atmp", "atmpCompensated"]).as_deref(),
        Some("25.87")
    );
}

#[test]
fn a_payload_that_is_not_an_object_has_no_readings() {
    let payload = Json::Array(vec![object(vec![("rco2", reading("500"))])]);

    assert_eq!(extract_measurement_value(&payload, &["rco2"]), None);
    assert_eq!(extract_measurement_value(&reading("5"), &["rco2"]), None);
}
