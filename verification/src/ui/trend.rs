//! Trend text.
//!
//! Every dashboard card shows how a reading moved since the previous one, for
//! example `↑ +42 ppm`. Measuring the movement is arithmetic on readings; this
//! module turns its result into the label and decides whether the movement is
//! good news.

use vstd::prelude::*;

verus! {

/// Whether one direction of travel is better for a given reading.
///
/// Pollutants really are better when they fall, but comfort readings are not:
/// a room going from 22°C to 21°C has not improved, it has just changed.
#[derive(Debug, Clone, Copy, PartialEq, Eq, Structural)]
pub enum Preference {
    /// Lower is better: pollutants, particulates, AQI.
    LowerIsBetter,
    /// Neither direction is better on its own, as for temperature and
    /// humidity, which are best inside a range.
    Neither,
}

/// Which way a reading moved, in terms of whether that is good or bad.
#[derive(Debug, Clone, Copy, PartialEq, Eq, Structural)]
pub enum TrendDirection {
    Improved,
    Worse,
    Neutral,
}

impl TrendDirection {
    /// CSS class that colors the trend label.
    pub fn css_class(self) -> (class: &'static str)
        ensures
            class@ == (match self {
                TrendDirection::Improved => "trend-improved"@,
                TrendDirection::Worse => "trend-worse"@,
                TrendDirection::Neutral => "trend-neutral"@,
            }),
    {
        match self {
            TrendDirection::Improved => "trend-improved",
            TrendDirection::Worse => "trend-worse",
            TrendDirection::Neutral => "trend-neutral",
        }
    }

    /// The verdict on a reading that rose (or fell): a rising pollutant is
    /// worse, a falling one improved, and a comfort reading is neither.
    pub open spec fn spec_of_change(rising: bool, preference: Preference) -> TrendDirection {
        match preference {
            Preference::LowerIsBetter => if rising {
                TrendDirection::Worse
            } else {
                TrendDirection::Improved
            },
            Preference::Neither => TrendDirection::Neutral,
        }
    }

    /// The verdict on a reading that rose (or fell).
    pub fn of_change(rising: bool, preference: Preference) -> (direction: TrendDirection)
        ensures
            direction == TrendDirection::spec_of_change(rising, preference),
    {
        match preference {
            Preference::LowerIsBetter => if rising {
                TrendDirection::Worse
            } else {
                TrendDirection::Improved
            },
            Preference::Neither => TrendDirection::Neutral,
        }
    }
}

/// A rendered trend: the label text plus how to color it.
#[derive(Debug, Clone, PartialEq, Eq)]
pub struct Trend {
    pub text: String,
    pub direction: TrendDirection,
}

impl Trend {
    /// A trend with no verdict, showing `text`.
    pub fn neutral(text: &str) -> (trend: Trend)
        ensures
            trend.text@ == text@,
            trend.direction == TrendDirection::Neutral,
    {
        Trend { text: String::from_str(text), direction: TrendDirection::Neutral }
    }

    /// A change too small to report, as `→ 0 ppm`.
    pub fn flat(unit: &str) -> (trend: Trend)
        ensures
            trend.text@ == "→ 0 "@ + unit@,
            trend.direction == TrendDirection::Neutral,
    {
        let mut text = String::from_str("→ 0 ");
        text.append(unit);
        Trend { text, direction: TrendDirection::Neutral }
    }

    /// A reading that moved by `delta` (already formatted, without its sign
    /// when rising), as `↑ +42 ppm` or `↓ -42 ppm`.
    pub fn moved(rising: bool, delta: &str, unit: &str, preference: Preference) -> (trend: Trend)
        ensures
            trend.text@ == (if rising {
                "↑ +"@
            } else {
                "↓ "@
            }) + delta@ + " "@ + unit@,
            trend.direction == TrendDirection::spec_of_change(rising, preference),
    {
        let mut text = if rising {
            String::from_str("↑ +")
        } else {
            String::from_str("↓ ")
        };
        text.append(delta);
        text.append(" ");
        text.append(unit);
        Trend { text, direction: TrendDirection::of_change(rising, preference) }
    }
}

impl Default for Trend {
    /// The trend shown before any reading has a predecessor.
    fn default() -> (trend: Trend)
        ensures
            trend.text@ == "No previous reading"@,
            trend.direction == TrendDirection::Neutral,
    {
        Trend::neutral("No previous reading")
    }
}

} // verus!
