//! Texts of the main tab.

use vstd::prelude::*;

use crate::sensors::air_quality::GasUnit;

verus! {

/// Unit label for a gas reading, defaulting to the sensor index used by
/// AirGradient's own firmware when a payload did not say.
pub fn gas_unit_label(unit: Option<GasUnit>) -> (label: &'static str)
    ensures
        label@ == (match unit {
            Some(GasUnit::Ppb) => "ppb"@,
            _ => "index"@,
        }),
{
    match unit {
        Some(unit) => unit.as_str(),
        None => GasUnit::Index.as_str(),
    }
}

/// The "Server URL: ..." line.
pub fn server_text(url: Option<&str>) -> (text: String)
    ensures
        text@ == (match url {
            Some(url) => "Server URL: "@ + url@,
            None => "Server URL: Not configured"@,
        }),
{
    match url {
        Some(url) => String::from_str("Server URL: ").concat(url),
        None => String::from_str("Server URL: Not configured"),
    }
}

} // verus!
