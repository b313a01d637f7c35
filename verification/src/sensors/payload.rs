//! Finding readings in a device payload.
//!
//! AirGradient devices name their fields differently depending on hardware
//! model and firmware, and some compatible servers wrap the readings in a
//! nested object. So each reading has a list of candidate keys, tried in
//! order; each key is looked up at the top level first (as written, then in
//! lower case), and then anywhere deeper in the payload.
//!
//! A payload is given here as a `Json` tree in which every number or string
//! that reads as a measurement carries its text, and every other scalar is
//! `Other`. What comes out is the text of each reading found; reading that
//! text as a number is left to the caller.

use vstd::prelude::*;

use crate::sensors::air_quality::GasUnit;
use crate::text::same_text;

verus! {

/// A parsed payload, reduced to what the search reads.
pub enum Json {
    /// A number, or a string, that reads as a measurement; its text.
    Reading(String),
    /// Any other scalar: null, a boolean, or text that is not a number.
    Other,
    Array(Vec<Json>),
    /// An object's entries, in the order the parser keeps them. Keys are
    /// unique.
    Object(Vec<(String, Json)>),
}

/// `str::to_lowercase`: the text with every character replaced by its Unicode
/// lowercase mapping.
pub uninterp spec fn lowercase(text: Seq<char>) -> Seq<char>;

/// Whether every character of a text is ASCII.
pub open spec fn is_ascii_text(text: Seq<char>) -> bool {
    forall|i: int| 0 <= i < text.len() ==> (#[trigger] text[i]) as u32 <= 0x7f
}

/// The lowercase form of an ASCII character: `A` to `Z` become `a` to `z`,
/// and every other character stays as it is.
pub open spec fn ascii_lowercase(c: char) -> char {
    if 0x41 <= c as u32 <= 0x5a {
        (c as u32 + 0x20) as char
    } else {
        c
    }
}

/// The lowercase form of a key: for an ASCII key, such as every candidate
/// key, its capital letters made small; for any other text, `lowercase`.
pub open spec fn lower_key(key: Seq<char>) -> Seq<char> {
    if is_ascii_text(key) {
        key.map_values(|c: char| ascii_lowercase(c))
    } else {
        lowercase(key)
    }
}

/// The lowercase form of `text`, through `str::to_lowercase`. Its result
/// depends on the text alone and is named `lowercase`; for ASCII text, such
/// as every candidate key, it is stated: each capital letter becomes its
/// small letter and nothing else changes. The Unicode case tables it follows
/// for other text are not written out.
#[verifier::external_body]
fn to_lowercase(text: &str) -> (lower: String)
    ensures
        lower@ == lowercase(text@),
        is_ascii_text(text@) ==> lower@ == text@.map_values(|c: char| ascii_lowercase(c)),
{
    text.to_lowercase()
}

/// The value an object holds under `key`.
pub open spec fn entry(entries: Seq<(String, Json)>, key: Seq<char>) -> Option<Json>
    decreases entries.len(),
{
    if entries.len() == 0 {
        None
    } else if entries[0].0@ == key {
        Some(entries[0].1)
    } else {
        entry(entries.subrange(1, entries.len() as int), key)
    }
}

/// The text of a value that reads as a measurement.
pub open spec fn reading(value: Json) -> Option<Seq<char>> {
    match value {
        Json::Reading(text) => Some(text@),
        _ => None,
    }
}

/// The text found under `key` somewhere inside `value`.
///
/// In an object, the key as written and then its lowercase form are looked
/// up; if either is present the search ends there, with that value's text or
/// with nothing when it does not read as a measurement. Otherwise every value
/// of the object is searched in turn. In an array every item is searched in
/// turn. A scalar holds no keys.
pub open spec fn nested(value: Json, key: Seq<char>) -> Option<Seq<char>>
    decreases value,
{
    match value {
        Json::Object(entries) => match entry(entries@, key) {
            Some(found) => reading(found),
            None => match entry(entries@, lower_key(key)) {
                Some(found) => reading(found),
                None => nested_in_entries(entries@, key),
            },
        },
        Json::Array(items) => nested_in_items(items@, key),
        _ => None,
    }
}

/// The first text found under `key` in the values of `entries`, in order.
pub open spec fn nested_in_entries(entries: Seq<(String, Json)>, key: Seq<char>) -> Option<
    Seq<char>,
>
    decreases entries,
{
    if entries.len() == 0 {
        None
    } else {
        match nested(entries[0].1, key) {
            Some(text) => Some(text),
            None => nested_in_entries(entries.subrange(1, entries.len() as int), key),
        }
    }
}

/// The first text found under `key` in `items`, in order.
pub open spec fn nested_in_items(items: Seq<Json>, key: Seq<char>) -> Option<Seq<char>>
    decreases items,
{
    if items.len() == 0 {
        None
    } else {
        match nested(items[0], key) {
            Some(text) => Some(text),
            None => nested_in_items(items.subrange(1, items.len() as int), key),
        }
    }
}

/// A value that reads as a measurement, looked up directly in an object.
pub open spec fn direct(entries: Seq<(String, Json)>, key: Seq<char>) -> Option<Seq<char>> {
    match entry(entries, key) {
        Some(found) => reading(found),
        None => None,
    }
}

/// The text of the reading a payload gives for one candidate key: the key at
/// the top level, then its lowercase form at the top level, then the key
/// anywhere deeper, then its lowercase form anywhere deeper. Unlike the
/// deeper search, a top-level value that does not read as a measurement does
/// not end the search. A payload that is not an object has no readings.
pub open spec fn candidate(raw: Json, key: Seq<char>) -> Option<Seq<char>> {
    match raw {
        Json::Object(entries) => {
            let lower = lower_key(key);
            if direct(entries@, key) is Some {
                direct(entries@, key)
            } else if direct(entries@, lower) is Some {
                direct(entries@, lower)
            } else if nested_in_entries(entries@, key) is Some {
                nested_in_entries(entries@, key)
            } else {
                nested_in_entries(entries@, lower)
            }
        },
        _ => None,
    }
}

/// The first candidate key, in order, that gives a reading.
pub open spec fn measurement(raw: Json, keys: Seq<&'static str>) -> Option<Seq<char>>
    decreases keys.len(),
{
    if keys.len() == 0 {
        None
    } else {
        match candidate(raw, keys[0]@) {
            Some(text) => Some(text),
            None => measurement(raw, keys.subrange(1, keys.len() as int)),
        }
    }
}

/// Whether an optional string holds exactly the optional text.
pub open spec fn holds(found: Option<String>, text: Option<Seq<char>>) -> bool {
    match (found, text) {
        (Some(found), Some(text)) => found@ == text,
        (None, None) => true,
        _ => false,
    }
}

/// The text of a value, when it reads as a measurement.
fn reading_text(value: &Json) -> (text: Option<String>)
    ensures
        holds(text, reading(*value)),
{
    match value {
        Json::Reading(text) => Some(text.clone()),
        _ => None,
    }
}

/// Where `key` sits in `entries`, if it does.
fn entry_index(entries: &Vec<(String, Json)>, key: &str) -> (index: Option<usize>)
    ensures
        match index {
            Some(i) => i < entries@.len() && entry(entries@, key@) == Some(entries@[i as int].1),
            None => entry(entries@, key@) is None,
        },
{
    let len = entries.len();
    let mut i: usize = 0;
    assert(entries@.subrange(0, len as int) =~= entries@);
    while i < len
        invariant
            len == entries@.len(),
            i <= len,
            entry(entries@, key@) == entry(entries@.subrange(i as int, len as int), key@),
        decreases len - i,
    {
        let ghost rest = entries@.subrange(i as int, len as int);
        assert(rest.subrange(1, rest.len() as int) =~= entries@.subrange(i + 1, len as int));
        if same_text(entries[i].0.as_str(), key) {
            return Some(i);
        }
        i = i + 1;
    }
    None
}

/// The text of the value stored directly under `key`, when it reads as a
/// measurement.
fn direct_text(entries: &Vec<(String, Json)>, key: &str) -> (text: Option<String>)
    ensures
        holds(text, direct(entries@, key@)),
{
    match entry_index(entries, key) {
        Some(i) => reading_text(&entries[i].1),
        None => None,
    }
}

/// The text found under `key` somewhere inside `value`.
fn find_nested_key(value: &Json, key: &str) -> (text: Option<String>)
    ensures
        holds(text, nested(*value, key@)),
    decreases value,
{
    match value {
        Json::Object(entries) => {
            if let Some(i) = entry_index(entries, key) {
                return reading_text(&entries[i].1);
            }
            let lower = to_lowercase(key);
            if let Some(i) = entry_index(entries, lower.as_str()) {
                return reading_text(&entries[i].1);
            }
            find_in_entries(entries, key)
        },
        Json::Array(items) => find_in_items(items, key),
        _ => None,
    }
}

/// The first text found under `key` in the values of `entries`.
fn find_in_entries(entries: &Vec<(String, Json)>, key: &str) -> (text: Option<String>)
    ensures
        holds(text, nested_in_entries(entries@, key@)),
    decreases entries,
{
    let len = entries.len();
    let mut i: usize = 0;
    assert(entries@.subrange(0, len as int) =~= entries@);
    while i < len
        invariant
            len == entries@.len(),
            i <= len,
            nested_in_entries(entries@, key@) == nested_in_entries(
                entries@.subrange(i as int, len as int),
                key@,
            ),
        decreases len - i,
    {
        let ghost rest = entries@.subrange(i as int, len as int);
        assert(rest.subrange(1, rest.len() as int) =~= entries@.subrange(i + 1, len as int));
        assert(rest[0] == entries@[i as int]);
        let found = find_nested_key(&entries[i].1, key);
        if found.is_some() {
            return found;
        }
        i = i + 1;
    }
    None
}

/// The first text found under `key` in `items`.
fn find_in_items(items: &Vec<Json>, key: &str) -> (text: Option<String>)
    ensures
        holds(text, nested_in_items(items@, key@)),
    decreases items,
{
    let len = items.len();
    let mut i: usize = 0;
    assert(items@.subrange(0, len as int) =~= items@);
    while i < len
        invariant
            len == items@.len(),
            i <= len,
            nested_in_items(items@, key@) == nested_in_items(
                items@.subrange(i as int, len as int),
                key@,
            ),
        decreases len - i,
    {
        let ghost rest = items@.subrange(i as int, len as int);
        assert(rest.subrange(1, rest.len() as int) =~= items@.subrange(i + 1, len as int));
        assert(rest[0] == items@[i as int]);
        let found = find_nested_key(&items[i], key);
        if found.is_some() {
            return found;
        }
        i = i + 1;
    }
    None
}


/// The text of the reading one candidate key gives.
fn candidate_text(raw: &Json, key: &str) -> (text: Option<String>)
    ensures
        holds(text, candidate(*raw, key@)),
{
    match raw {
        Json::Object(entries) => {
            let found = direct_text(entries, key);
            if found.is_some() {
                return found;
            }
            let lower = to_lowercase(key);
            let found = direct_text(entries, lower.as_str());
            if found.is_some() {
                return found;
            }
            let found = find_in_entries(entries, key);
            if found.is_some() {
                return found;
            }
            find_in_entries(entries, lower.as_str())
        },
        _ => None,
    }
}

/// The text of the first reading any of `keys`, in order, gives.
pub fn extract_measurement_value(raw: &Json, keys: &[&'static str]) -> (text: Option<String>)
    ensures
        holds(text, measurement(*raw, keys@)),
{
    let len = keys.len();
    let mut i: usize = 0;
    assert(keys@.subrange(0, len as int) =~= keys@);
    while i < len
        invariant
            len == keys@.len(),
            i <= len,
            measurement(*raw, keys@) == measurement(*raw, keys@.subrange(i as int, len as int)),
        decreases len - i,
    {
        let ghost rest = keys@.subrange(i as int, len as int);
        assert(rest.subrange(1, rest.len() as int) =~= keys@.subrange(i + 1, len as int));
        assert(rest[0] == keys@[i as int]);
        let found = candidate_text(raw, keys[i]);
        if found.is_some() {
            return found;
        }
        i = i + 1;
    }
    None
}

/// A gas reading and the unit it is in: the concentration keys are tried
/// first, then the index keys, and the unit is that of the list that supplied
/// the reading, so a reading and its unit never come from different keys.
pub open spec fn gas(raw: Json, ppb_keys: Seq<&'static str>, index_keys: Seq<&'static str>) -> (
    Option<Seq<char>>,
    Option<GasUnit>,
) {
    if measurement(raw, ppb_keys) is Some {
        (measurement(raw, ppb_keys), Some(GasUnit::Ppb))
    } else if measurement(raw, index_keys) is Some {
        (measurement(raw, index_keys), Some(GasUnit::Index))
    } else {
        (None, None)
    }
}

/// A gas reading comes with a unit exactly when it was found, and the unit is
/// that of the list that supplied it: parts per billion whenever a
/// concentration key gives a reading, the index otherwise.
pub proof fn gas_unit_follows_its_reading(
    raw: Json,
    ppb_keys: Seq<&'static str>,
    index_keys: Seq<&'static str>,
)
    ensures
        gas(raw, ppb_keys, index_keys).0 is Some <==> gas(raw, ppb_keys, index_keys).1 is Some,
        gas(raw, ppb_keys, index_keys).1 == Some(GasUnit::Ppb) <==> measurement(
            raw,
            ppb_keys,
        ) is Some,
        gas(raw, ppb_keys, index_keys).1 == Some(GasUnit::Ppb) ==> gas(
            raw,
            ppb_keys,
            index_keys,
        ).0 == measurement(raw, ppb_keys),
        gas(raw, ppb_keys, index_keys).1 == Some(GasUnit::Index) ==> gas(
            raw,
            ppb_keys,
            index_keys,
        ).0 == measurement(raw, index_keys),
{
}

/// A gas reading's text together with its unit.
pub fn extract_gas(raw: &Json, ppb_keys: &[&'static str], index_keys: &[&'static str]) -> (found: (
    Option<String>,
    Option<GasUnit>,
))
    ensures
        holds(found.0, gas(*raw, ppb_keys@, index_keys@).0),
        found.1 == gas(*raw, ppb_keys@, index_keys@).1,
{
    let ppb = extract_measurement_value(raw, ppb_keys);
    if ppb.is_some() {
        return (ppb, Some(GasUnit::Ppb));
    }
    let index = extract_measurement_value(raw, index_keys);
    if index.is_some() {
        return (index, Some(GasUnit::Index));
    }
    (None, None)
}

/// Candidate keys of each reading, most preferred first.
///
/// Compensated temperature, humidity and PM2.5 come first: the device applies
/// its model-specific corrections to them, and they are what the vendor's own
/// dashboard reports.
pub open spec fn temperature_keys() -> Seq<&'static str> {
    seq![
        "atmpCompensated",
        "temperatureCompensated",
        "temperature_compensated",
        "atmp",
        "temperature",
        "temp",
        "temp_c",
        "temperature_c",
        "temperatureC",
    ]
}

pub open spec fn humidity_keys() -> Seq<&'static str> {
    seq![
        "rhumCompensated",
        "humidityCompensated",
        "humidity_compensated",
        "rhum",
        "humidity",
        "hum",
        "relative_humidity",
        "rh",
        "humidity_pct",
    ]
}

pub open spec fn aqi_keys() -> Seq<&'static str> {
    seq!["aqi", "air_quality_index"]
}

pub open spec fn co2_keys() -> Seq<&'static str> {
    seq!["rco2", "co2", "co2_ppm"]
}

pub open spec fn nox_ppb_keys() -> Seq<&'static str> {
    seq!["nox", "no2", "nox_ppb"]
}

pub open spec fn nox_index_keys() -> Seq<&'static str> {
    seq!["noxIndex", "nox_index"]
}

pub open spec fn tvoc_ppb_keys() -> Seq<&'static str> {
    seq!["tvoc", "tvoc_ppb", "tvoc_ppm", "voc"]
}

pub open spec fn tvoc_index_keys() -> Seq<&'static str> {
    seq!["tvocIndex", "tvoc_index"]
}

pub open spec fn pm1_keys() -> Seq<&'static str> {
    seq!["pm1", "pm1.0", "pm01", "pm_1_0"]
}

pub open spec fn pm25_keys() -> Seq<&'static str> {
    seq![
        "pm02Compensated",
        "pm25Compensated",
        "pm02_compensated",
        "pm02",
        "pm2_5",
        "pm25",
        "pm2.5",
    ]
}

pub open spec fn pm10_keys() -> Seq<&'static str> {
    seq!["pm10", "pm10_0"]
}

pub open spec fn pm003_count_keys() -> Seq<&'static str> {
    seq!["pm003Count", "pm003_count", "pm0_3_count"]
}

/// The text of every reading a payload gives, before it is read as a number.
pub struct ReadingTexts {
    pub temperature: Option<String>,
    pub humidity: Option<String>,
    /// The index as the device reports it; a device that reports none gets
    /// one computed from its PM2.5 reading by the caller.
    pub aqi: Option<String>,
    pub co2: Option<String>,
    pub nox: Option<String>,
    pub nox_unit: Option<GasUnit>,
    pub tvoc: Option<String>,
    pub tvoc_unit: Option<GasUnit>,
    pub pm1: Option<String>,
    pub pm25: Option<String>,
    pub pm10: Option<String>,
    pub pm003_count: Option<String>,
}

/// Find every reading in a payload.
pub fn parse_air_measurements(raw: &Json) -> (texts: ReadingTexts)
    ensures
        holds(texts.temperature, measurement(*raw, temperature_keys())),
        holds(texts.humidity, measurement(*raw, humidity_keys())),
        holds(texts.aqi, measurement(*raw, aqi_keys())),
        holds(texts.co2, measurement(*raw, co2_keys())),
        holds(texts.nox, gas(*raw, nox_ppb_keys(), nox_index_keys()).0),
        texts.nox_unit == gas(*raw, nox_ppb_keys(), nox_index_keys()).1,
        holds(texts.tvoc, gas(*raw, tvoc_ppb_keys(), tvoc_index_keys()).0),
        texts.tvoc_unit == gas(*raw, tvoc_ppb_keys(), tvoc_index_keys()).1,
        holds(texts.pm1, measurement(*raw, pm1_keys())),
        holds(texts.pm25, measurement(*raw, pm25_keys())),
        holds(texts.pm10, measurement(*raw, pm10_keys())),
        holds(texts.pm003_count, measurement(*raw, pm003_count_keys())),
{
    let nox_ppb = ["nox", "no2", "nox_ppb"];
    let nox_index = ["noxIndex", "nox_index"];
    assert(nox_ppb@ =~= nox_ppb_keys());
    assert(nox_index@ =~= nox_index_keys());
    let (nox, nox_unit) = extract_gas(raw, &nox_ppb, &nox_index);

    let tvoc_ppb = ["tvoc", "tvoc_ppb", "tvoc_ppm", "voc"];
    let tvoc_index = ["tvocIndex", "tvoc_index"];
    assert(tvoc_ppb@ =~= tvoc_ppb_keys());
    assert(tvoc_index@ =~= tvoc_index_keys());
    let (tvoc, tvoc_unit) = extract_gas(raw, &tvoc_ppb, &tvoc_index);

    let temperature = [
        "atmpCompensated",
        "temperatureCompensated",
        "temperature_compensated",
        "atmp",
        "temperature",
        "temp",
        "temp_c",
        "temperature_c",
        "temperatureC",
    ];
    assert(temperature@ =~= temperature_keys());
    let humidity = [
        "rhumCompensated",
        "humidityCompensated",
        "humidity_compensated",
        "rhum",
        "humidity",
        "hum",
        "relative_humidity",
        "rh",
        "humidity_pct",
    ];
    assert(humidity@ =~= humidity_keys());
    let aqi = ["aqi", "air_quality_index"];
    assert(aqi@ =~= aqi_keys());
    let co2 = ["rco2", "co2", "co2_ppm"];
    assert(co2@ =~= co2_keys());
    let pm1 = ["pm1", "pm1.0", "pm01", "pm_1_0"];
    assert(pm1@ =~= pm1_keys());
    let pm25 = [
        "pm02Compensated",
        "pm25Compensated",
        "pm02_compensated",
        "pm02",
        "pm2_5",
        "pm25",
        "pm2.5",
    ];
    assert(pm25@ =~= pm25_keys());
    let pm10 = ["pm10", "pm10_0"];
    assert(pm10@ =~= pm10_keys());
    let pm003_count = ["pm003Count", "pm003_count", "pm0_3_count"];
    assert(pm003_count@ =~= pm003_count_keys());

    ReadingTexts {
        temperature: extract_measurement_value(raw, &temperature),
        humidity: extract_measurement_value(raw, &humidity),
        aqi: extract_measurement_value(raw, &aqi),
        co2: extract_measurement_value(raw, &co2),
        nox,
        nox_unit,
        tvoc,
        tvoc_unit,
        pm1: extract_measurement_value(raw, &pm1),
        pm25: extract_measurement_value(raw, &pm25),
        pm10: extract_measurement_value(raw, &pm10),
        pm003_count: extract_measurement_value(raw, &pm003_count),
    }
}

} // verus!
