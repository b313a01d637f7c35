use airgradient_desktop::sensors::comfort::{Comfort, Dimension, Position};

fn comfort(temperature: Option<Position>, humidity: Option<Position>) -> Comfort {
    Comfort {
        temperature,
        humidity,
    }
}

#[test]
fn a_room_inside_both_ranges_needs_nothing_doing() {
    // 22 °C and 50 % sit inside the default 18–26 °C and 40–60 % bands.
    let comfort = comfort(Some(Position::Inside), Some(Position::Inside));

    assert!(!comfort.is_uncomfortable());
    assert_eq!(comfort.headline(), "The room is comfortable");
}

#[test]
fn warm_and_humid_asks_for_the_air_conditioning() {
    // 29 °C and 72 %.
    let comfort = comfort(Some(Position::Above), Some(Position::Above));

    assert!(comfort.is_doubly_uncomfortable());
    assert_eq!(comfort.headline(), "The room is warm and humid");
    assert!(comfort.advice().contains("air conditioning"));
}

#[test]
fn cool_and_dry_asks_for_heat_and_a_humidifier() {
    // 15 °C and 28 %.
    let comfort = comfort(Some(Position::Below), Some(Position::Below));

    assert!(comfort.is_doubly_uncomfortable());
    assert_eq!(comfort.headline(), "The room is cool and dry");
    assert!(comfort.advice().contains("humidifier"));
}

#[test]
fn one_reading_out_of_range_is_uncomfortable_but_not_doubly_so() {
    // 22 °C and 80 %.
    let comfort = comfort(Some(Position::Inside), Some(Position::Above));

    assert!(comfort.is_uncomfortable());
    assert!(!comfort.is_doubly_uncomfortable());
    assert_eq!(comfort.headline(), "The room is humid");
    assert!(comfort.advice().contains("dehumidifier"));
}

#[test]
fn a_missing_reading_is_not_treated_as_comfortable() {
    // 29 °C from a device with no humidity sensor.
    let comfort = comfort(Some(Position::Above), None);

    assert_eq!(
        comfort,
        Comfort {
            temperature: Some(Position::Above),
            humidity: None,
        }
    );
    assert!(!comfort.is_doubly_uncomfortable());
    assert_eq!(comfort.headline(), "The room is warm");
}

#[test]
fn a_device_reporting_neither_reading_says_nothing() {
    let comfort = comfort(None, None);

    assert!(!comfort.is_uncomfortable());
}

#[test]
fn card_words_match_the_dimension() {
    assert_eq!(Dimension::Temperature.word(Position::Below), "Cool");
    assert_eq!(Dimension::Temperature.word(Position::Above), "Warm");
    assert_eq!(Dimension::Humidity.word(Position::Below), "Dry");
    assert_eq!(Dimension::Humidity.word(Position::Above), "Humid");
    assert_eq!(Dimension::Humidity.word(Position::Inside), "Comfortable");
}

#[test]
fn every_combination_has_its_own_advice() {
    let cases = [
        (Some(Position::Above), Some(Position::Below), "The room is warm and dry", "humidifier"),
        (Some(Position::Below), Some(Position::Above), "The room is cool and humid", "dehumidifier"),
        (Some(Position::Below), None, "The room is cool", "Warm the room."),
        (None, Some(Position::Below), "The room is dry", "humidifier"),
        (Some(Position::Inside), None, "The room is comfortable", "Nothing to do"),
    ];
    for (temperature, humidity, headline, advice) in cases {
        let comfort = comfort(temperature, humidity);
        assert_eq!(comfort.headline(), headline);
        assert!(comfort.advice().contains(advice), "{}", comfort.advice());
    }
}

#[test]
fn only_inside_is_comfortable() {
    assert!(Position::Below.is_uncomfortable());
    assert!(Position::Above.is_uncomfortable());
    assert!(!Position::Inside.is_uncomfortable());
}
