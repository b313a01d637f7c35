//! Texts of a metric card: the current reading and its history as a chart.
//!
//! Formatting each number is done where the readings are; this module puts
//! the formatted numbers into the card's lines.

use vstd::prelude::*;

verus! {

/// The classes of a metric card, coloured by its reading.
pub fn css_classes(status_class: &'static str) -> (classes: [&'static str; 4])
    ensures
        classes[0]@ == "card"@,
        classes[1]@ == "metric-card"@,
        classes[2]@ == "history-card"@,
        classes[3] == status_class,
{
    ["card", "metric-card", "history-card", status_class]
}

/// The summary line under the chart, for example `low 12 · avg 20 · high 34`,
/// from the formatted lowest, mean and highest readings, or a note that there
/// are none yet.
pub fn range_text(summary: Option<(&str, &str, &str)>) -> (text: String)
    ensures
        text@ == match summary {
            Some((low, mean, high)) => "low "@ + low@ + " · avg "@ + mean@ + " · high "@ + high@,
            None => "No readings recorded yet"@,
        },
{
    match summary {
        Some((low, mean, high)) => {
            let mut text = String::from_str("low ");
            text.append(low);
            text.append(" · avg ");
            text.append(mean);
            text.append(" · high ");
            text.append(high);
            text
        },
        None => String::from_str("No readings recorded yet"),
    }
}

/// A reading's text, or `--` when the sensor is not reporting.
pub fn value_text(formatted: Option<&str>) -> (text: String)
    ensures
        text@ == match formatted {
            Some(value) => value@,
            None => "--"@,
        },
{
    match formatted {
        Some(value) => String::from_str(value),
        None => String::from_str("--"),
    }
}

} // verus!
