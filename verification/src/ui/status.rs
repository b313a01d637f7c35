//! Mapping from semantic sensor status to CSS class names.
//!
//! The thresholds decide *what* a reading means (`StatusColor::Red`); this
//! module is the presentation boundary that decides *how* that looks, by naming
//! a class the stylesheet defines.

use vstd::prelude::*;

use crate::sensors::aqi::AqiBand;

verus! {

/// Class used when a sensor value is missing or outside the classified range.
pub const UNKNOWN_CLASS: &'static str = "status-unknown";

/// What a reading means, as a colour of the status palette.
#[derive(Debug, Clone, Copy, PartialEq, Eq, Structural)]
pub enum StatusColor {
    Green,
    Yellow,
    Orange,
    Red,
    Purple,
    Gray,
}

/// The CSS class of a status.
pub open spec fn spec_css_class(color: StatusColor) -> Seq<char> {
    match color {
        StatusColor::Green => "status-green"@,
        StatusColor::Yellow => "status-yellow"@,
        StatusColor::Orange => "status-orange"@,
        StatusColor::Red => "status-red"@,
        StatusColor::Purple | StatusColor::Gray => UNKNOWN_CLASS@,
    }
}

/// Translate a semantic status into its CSS class.
///
/// Purple and gray exist for the extreme ends of the AQI scale, which has its
/// own dedicated `aqi-*` classes. On a regular sensor card they fall back to
/// the neutral "unknown" styling rather than introducing two more gradients.
pub fn css_class(color: StatusColor) -> (class: &'static str)
    ensures
        class@ == spec_css_class(color),
{
    match color {
        StatusColor::Green => "status-green",
        StatusColor::Yellow => "status-yellow",
        StatusColor::Orange => "status-orange",
        StatusColor::Red => "status-red",
        StatusColor::Purple | StatusColor::Gray => UNKNOWN_CLASS,
    }
}

/// The class of an optional reading's status, "unknown" when there is no
/// reading.
pub fn class_for(color: Option<StatusColor>) -> (class: &'static str)
    ensures
        class@ == match color {
            Some(color) => spec_css_class(color),
            None => UNKNOWN_CLASS@,
        },
{
    match color {
        Some(color) => css_class(color),
        None => UNKNOWN_CLASS,
    }
}

/// CSS class for the large AQI card, which uses the full six-step US AQI
/// scale; no reading looks like a good one.
pub fn aqi_class(band: Option<AqiBand>) -> (class: &'static str)
    ensures
        class@ == (match band {
            None | Some(AqiBand::Good) => "aqi-good"@,
            Some(AqiBand::Moderate) => "aqi-moderate"@,
            Some(AqiBand::UnhealthyForSensitiveGroups) => "aqi-sensitive"@,
            Some(AqiBand::Unhealthy) => "aqi-unhealthy"@,
            Some(AqiBand::VeryUnhealthy) => "aqi-very-unhealthy"@,
            Some(AqiBand::Hazardous) => "aqi-hazardous"@,
        }),
{
    match band {
        None | Some(AqiBand::Good) => "aqi-good",
        Some(AqiBand::Moderate) => "aqi-moderate",
        Some(AqiBand::UnhealthyForSensitiveGroups) => "aqi-sensitive",
        Some(AqiBand::Unhealthy) => "aqi-unhealthy",
        Some(AqiBand::VeryUnhealthy) => "aqi-very-unhealthy",
        Some(AqiBand::Hazardous) => "aqi-hazardous",
    }
}

} // verus!
