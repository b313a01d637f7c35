//! Sensor vocabulary: units, comfort verdicts, the AQI scale, and finding
//! readings in a device payload.

pub mod air_quality;
pub mod aqi;
pub mod comfort;
pub mod payload;
