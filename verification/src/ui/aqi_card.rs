//! Texts of the large Air Quality Index card: the band's name and a sentence
//! explaining what it means for the people in the room.

use vstd::prelude::*;

use crate::sensors::aqi::AqiBand;

verus! {

/// Name of a US AQI band.
pub open spec fn spec_aqi_level(band: AqiBand) -> Seq<char> {
    match band {
        AqiBand::Good => "Good"@,
        AqiBand::Moderate => "Moderate"@,
        AqiBand::UnhealthyForSensitiveGroups => "Unhealthy for Sensitive Groups"@,
        AqiBand::Unhealthy => "Unhealthy"@,
        AqiBand::VeryUnhealthy => "Very Unhealthy"@,
        AqiBand::Hazardous => "Hazardous"@,
    }
}

/// What a band means for the people in the room.
pub open spec fn spec_aqi_description(band: AqiBand) -> Seq<char> {
    match band {
        AqiBand::Good => "Air quality is satisfactory, and air pollution poses little or no risk."@,
        AqiBand::Moderate =>
            "Air quality is acceptable, but unusually sensitive people may notice effects."@,
        AqiBand::UnhealthyForSensitiveGroups => "Sensitive groups may experience health effects."@,
        AqiBand::Unhealthy => "Some members of the general public may experience health effects."@,
        AqiBand::VeryUnhealthy => "Health alert: risk of health effects is increased for everyone."@,
        AqiBand::Hazardous => "Health warning: everyone is more likely to be affected."@,
    }
}

/// Name of the US AQI band a value falls into.
pub fn aqi_level(band: AqiBand) -> (level: &'static str)
    ensures
        level@ == spec_aqi_level(band),
{
    match band {
        AqiBand::Good => "Good",
        AqiBand::Moderate => "Moderate",
        AqiBand::UnhealthyForSensitiveGroups => "Unhealthy for Sensitive Groups",
        AqiBand::Unhealthy => "Unhealthy",
        AqiBand::VeryUnhealthy => "Very Unhealthy",
        AqiBand::Hazardous => "Hazardous",
    }
}

/// One-sentence explanation of what the band means for the people in the room.
pub fn aqi_description(band: AqiBand) -> (description: &'static str)
    ensures
        description@ == spec_aqi_description(band),
{
    match band {
        AqiBand::Good => "Air quality is satisfactory, and air pollution poses little or no risk.",
        AqiBand::Moderate => {
            "Air quality is acceptable, but unusually sensitive people may notice effects."
        },
        AqiBand::UnhealthyForSensitiveGroups => "Sensitive groups may experience health effects.",
        AqiBand::Unhealthy => "Some members of the general public may experience health effects.",
        AqiBand::VeryUnhealthy => "Health alert: risk of health effects is increased for everyone.",
        AqiBand::Hazardous => "Health warning: everyone is more likely to be affected.",
    }
}

/// The card's band name, or "Unknown" before the first reading.
pub fn level_text(band: Option<AqiBand>) -> (level: &'static str)
    ensures
        level@ == (match band {
            Some(band) => spec_aqi_level(band),
            None => "Unknown"@,
        }),
{
    match band {
        Some(band) => aqi_level(band),
        None => "Unknown",
    }
}

/// The card's explanation, or a note that no reading has arrived yet.
pub fn description_text(band: Option<AqiBand>) -> (description: &'static str)
    ensures
        description@ == (match band {
            Some(band) => spec_aqi_description(band),
            None => "Waiting for a measurement."@,
        }),
{
    match band {
        Some(band) => aqi_description(band),
        None => "Waiting for a measurement.",
    }
}

/// Each band carries the EPA's own statement for it, from no risk at Good,
/// through sensitive people at Moderate and sensitive groups above it, to
/// the general public at Unhealthy, a health alert for everyone at Very
/// Unhealthy and a health warning at Hazardous; and each band's name is the
/// EPA's name for it.
pub proof fn each_band_has_its_epa_statement(band: AqiBand)
    ensures
        band == AqiBand::Good ==> spec_aqi_description(band)
            == "Air quality is satisfactory, and air pollution poses little or no risk."@
            && spec_aqi_level(band) == "Good"@,
        band == AqiBand::Moderate ==> spec_aqi_description(band)
            == "Air quality is acceptable, but unusually sensitive people may notice effects."@
            && spec_aqi_level(band) == "Moderate"@,
        band == AqiBand::UnhealthyForSensitiveGroups ==> spec_aqi_description(band)
            == "Sensitive groups may experience health effects."@ && spec_aqi_level(band)
            == "Unhealthy for Sensitive Groups"@,
        band == AqiBand::Unhealthy ==> spec_aqi_description(band)
            == "Some members of the general public may experience health effects."@
            && spec_aqi_level(band) == "Unhealthy"@,
        band == AqiBand::VeryUnhealthy ==> spec_aqi_description(band)
            == "Health alert: risk of health effects is increased for everyone."@
            && spec_aqi_level(band) == "Very Unhealthy"@,
        band == AqiBand::Hazardous ==> spec_aqi_description(band)
            == "Health warning: everyone is more likely to be affected."@ && spec_aqi_level(band)
            == "Hazardous"@,
{
}

/// No two bands share a description, so the card never gives two levels of
/// risk the same explanation.
pub proof fn band_descriptions_are_distinct(first: AqiBand, second: AqiBand)
    requires
        first != second,
    ensures
        spec_aqi_description(first) != spec_aqi_description(second),
{
    reveal_strlit("Air quality is satisfactory, and air pollution poses little or no risk.");
    reveal_strlit("Air quality is acceptable, but unusually sensitive people may notice effects.");
    reveal_strlit("Sensitive groups may experience health effects.");
    reveal_strlit("Some members of the general public may experience health effects.");
    reveal_strlit("Health alert: risk of health effects is increased for everyone.");
    reveal_strlit("Health warning: everyone is more likely to be affected.");
    let a = spec_aqi_description(first);
    let b = spec_aqi_description(second);
    assert(a.len() != b.len() || a[0] != b[0] || a[1] != b[1] || a[7] != b[7]);
}

} // verus!
