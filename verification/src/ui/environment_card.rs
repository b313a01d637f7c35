//! The temperature and humidity cards.
//!
//! Both cards show a large value, a one-word comfort verdict and a trend; an
//! `EnvironmentKind` supplies the parts that differ.

use vstd::prelude::*;

use crate::sensors::comfort::{Dimension, Position};
use crate::ui::metrics::{spec_metric_at, metric_at};

verus! {

/// Highlight for a reading outside the user's comfort range.
///
/// Amber rather than red: an uncomfortable room is worth acting on, but it is
/// not the health warning that red means elsewhere on the dashboard.
pub const UNCOMFORTABLE_CLASS: &'static str = "status-orange";

/// Which environmental reading a card shows.
#[derive(Debug, Clone, Copy, PartialEq, Eq, Structural)]
pub enum EnvironmentKind {
    Temperature,
    Humidity,
}

impl EnvironmentKind {
    /// Position of this card's entry in the metric table.
    pub open spec fn spec_metric_index(self) -> int {
        match self {
            EnvironmentKind::Temperature => 2,
            EnvironmentKind::Humidity => 3,
        }
    }

    /// This card's entry in the metric table, which owns its name, icon and
    /// unit: the same entry the history tab renders.
    pub fn metric(self) -> (metric: crate::ui::metrics::Metric)
        ensures
            metric == spec_metric_at(self.spec_metric_index()),
    {
        match self {
            EnvironmentKind::Temperature => metric_at(2),
            EnvironmentKind::Humidity => metric_at(3),
        }
    }

    /// Card-specific CSS class, which supplies the soft background gradient.
    pub fn css_class(self) -> (class: &'static str)
        ensures
            class@ == (match self {
                EnvironmentKind::Temperature => "temperature-widget"@,
                EnvironmentKind::Humidity => "humidity-widget"@,
            }),
    {
        match self {
            EnvironmentKind::Temperature => "temperature-widget",
            EnvironmentKind::Humidity => "humidity-widget",
        }
    }

    /// The reading this card shows, as the comfort logic names it.
    pub open spec fn spec_dimension(self) -> Dimension {
        match self {
            EnvironmentKind::Temperature => Dimension::Temperature,
            EnvironmentKind::Humidity => Dimension::Humidity,
        }
    }

    /// The reading this card shows, as the comfort logic names it.
    pub fn dimension(self) -> (dimension: Dimension)
        ensures
            dimension == self.spec_dimension(),
    {
        match self {
            EnvironmentKind::Temperature => Dimension::Temperature,
            EnvironmentKind::Humidity => Dimension::Humidity,
        }
    }
}

/// The word a card shows for a position, as `Dimension::word` gives it.
pub open spec fn spec_word(dimension: Dimension, position: Position) -> Seq<char> {
    match (dimension, position) {
        (_, Position::Inside) => "Comfortable"@,
        (Dimension::Temperature, Position::Below) => "Cool"@,
        (Dimension::Temperature, Position::Above) => "Warm"@,
        (Dimension::Humidity, Position::Below) => "Dry"@,
        (Dimension::Humidity, Position::Above) => "Humid"@,
    }
}

/// The "Comfort: ..." line of a card, `--` when the device did not report the
/// reading.
pub fn comfort_text(kind: EnvironmentKind, position: Option<Position>) -> (text: String)
    ensures
        text@ == "Comfort: "@ + match position {
            Some(position) => spec_word(kind.spec_dimension(), position),
            None => "--"@,
        },
{
    let word = match position {
        Some(position) => kind.dimension().word(position),
        None => "--",
    };
    String::from_str("Comfort: ").concat(word)
}

/// The card's classes, with the highlight for a reading outside the comfort
/// range.
///
/// The whole list is rebuilt on every reading, so a highlight cannot outlive a
/// return to comfort.
pub fn css_classes(kind: EnvironmentKind, position: Option<Position>) -> (classes: Vec<
    &'static str,
>)
    ensures
        classes@.len() == if position matches Some(p) && p.spec_is_uncomfortable() {
            4nat
        } else {
            3nat
        },
        classes@[0]@ == "card"@,
        classes@[1]@ == "metric-card"@,
        classes@[2]@ == (match kind {
            EnvironmentKind::Temperature => "temperature-widget"@,
            EnvironmentKind::Humidity => "humidity-widget"@,
        }),
        classes@.len() == 4 ==> classes@[3]@ == UNCOMFORTABLE_CLASS@,
{
    let mut classes: Vec<&'static str> = Vec::new();
    classes.push("card");
    classes.push("metric-card");
    classes.push(kind.css_class());
    let uncomfortable = match position {
        Some(position) => position.is_uncomfortable(),
        None => false,
    };
    if uncomfortable {
        classes.push(UNCOMFORTABLE_CLASS);
    }
    classes
}

} // verus!
