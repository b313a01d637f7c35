//! The list of things the app measures.
//!
//! Both tabs need the same facts about a reading: what to call it, what unit
//! it is in, which icon it uses, and how it is coloured. Writing that once as a
//! table means the history view is a loop over the table, and adding a sensor
//! is one entry here.

use vstd::prelude::*;

use crate::text::same_text;
use crate::ui::status::{class_for, spec_css_class, StatusColor, UNKNOWN_CLASS};

verus! {

/// Accent for readings with no agreed indoor health thresholds.
pub const NEUTRAL_CLASS: &'static str = "status-blue";

/// Accent for coarse particulates, which have no breakpoints here either.
pub const COARSE_CLASS: &'static str = "status-orange";

/// Stable identifiers, one per metric.
pub const AQI_ID: &'static str = "aqi";
pub const CO2_ID: &'static str = "co2";
pub const TEMPERATURE_ID: &'static str = "temperature";
pub const HUMIDITY_ID: &'static str = "humidity";
pub const TVOC_ID: &'static str = "tvoc";
pub const NOX_ID: &'static str = "nox";
pub const PM003_COUNT_ID: &'static str = "pm003_count";
pub const PM1_ID: &'static str = "pm1";
/// Identifier of the metric charted on the main view.
pub const PM25_ID: &'static str = "pm25";
pub const PM10_ID: &'static str = "pm10";

/// Number of metrics.
pub const METRIC_COUNT: usize = 10;

/// One measurable quantity.
#[derive(Debug, Clone, Copy)]
pub struct Metric {
    /// Stable identifier, used to look a metric up.
    pub id: &'static str,
    pub title: &'static str,
    /// Unit shown when a reading does not carry its own.
    pub unit: &'static str,
    pub icon: &'static str,
    /// Whether widely agreed indoor breakpoints judge this reading; without
    /// them it keeps a fixed colour rather than a misleading verdict.
    pub classified: bool,
    /// Colour used when the reading is not classified.
    pub fixed_class: &'static str,
}

impl Metric {
    /// CSS class describing how a reading of this metric should look, given
    /// the reading's status where it has one.
    pub fn status_class(&self, status: Option<StatusColor>) -> (class: &'static str)
        ensures
            class@ == (if self.classified {
                match status {
                    Some(color) => spec_css_class(color),
                    None => UNKNOWN_CLASS@,
                }
            } else {
                self.fixed_class@
            }),
    {
        if self.classified {
            class_for(status)
        } else {
            self.fixed_class
        }
    }
}

/// Every metric, in the order the history view shows them: the two headline
/// numbers first, then comfort, then gases, then particulates from finest to
/// coarsest.
pub open spec fn spec_metric_at(i: int) -> Metric {
    if i == 0 {
        Metric {
            id: AQI_ID,
            title: "Air Quality Index",
            unit: "AQI",
            icon: "airgradient-air-quality-symbolic",
            classified: true,
            fixed_class: NEUTRAL_CLASS,
        }
    } else if i == 1 {
        Metric {
            id: CO2_ID,
            title: "CO₂",
            unit: "ppm",
            icon: "airgradient-co2-symbolic",
            classified: true,
            fixed_class: NEUTRAL_CLASS,
        }
    } else if i == 2 {
        Metric {
            id: TEMPERATURE_ID,
            title: "Temperature",
            unit: "°C",
            icon: "airgradient-temperature-symbolic",
            classified: false,
            fixed_class: NEUTRAL_CLASS,
        }
    } else if i == 3 {
        Metric {
            id: HUMIDITY_ID,
            title: "Humidity",
            unit: "%",
            icon: "airgradient-humidity-symbolic",
            classified: false,
            fixed_class: NEUTRAL_CLASS,
        }
    } else if i == 4 {
        Metric {
            id: TVOC_ID,
            title: "TVOC",
            unit: "index",
            icon: "airgradient-voc-symbolic",
            classified: true,
            fixed_class: NEUTRAL_CLASS,
        }
    } else if i == 5 {
        Metric {
            id: NOX_ID,
            title: "NOx",
            unit: "index",
            icon: "airgradient-nox-symbolic",
            classified: true,
            fixed_class: NEUTRAL_CLASS,
        }
    } else if i == 6 {
        Metric {
            id: PM003_COUNT_ID,
            title: "PM₀.₃ Count",
            unit: "count",
            icon: "airgradient-particles-symbolic",
            classified: false,
            fixed_class: NEUTRAL_CLASS,
        }
    } else if i == 7 {
        Metric {
            id: PM1_ID,
            title: "PM₁.₀",
            unit: "µg/m³",
            icon: "airgradient-particles-symbolic",
            classified: false,
            fixed_class: NEUTRAL_CLASS,
        }
    } else if i == 8 {
        Metric {
            id: PM25_ID,
            title: "PM₂.₅",
            unit: "µg/m³",
            icon: "airgradient-particles-symbolic",
            classified: true,
            fixed_class: NEUTRAL_CLASS,
        }
    } else {
        Metric {
            id: PM10_ID,
            title: "PM₁₀",
            unit: "µg/m³",
            icon: "airgradient-particles-symbolic",
            classified: false,
            fixed_class: COARSE_CLASS,
        }
    }
}

/// The metric at position `i`.
pub fn metric_at(i: usize) -> (metric: Metric)
    requires
        i < METRIC_COUNT,
    ensures
        metric == spec_metric_at(i as int),
{
    if i == 0 {
        Metric {
            id: AQI_ID,
            title: "Air Quality Index",
            unit: "AQI",
            icon: "airgradient-air-quality-symbolic",
            classified: true,
            fixed_class: NEUTRAL_CLASS,
        }
    } else if i == 1 {
        Metric {
            id: CO2_ID,
            title: "CO₂",
            unit: "ppm",
            icon: "airgradient-co2-symbolic",
            classified: true,
            fixed_class: NEUTRAL_CLASS,
        }
    } else if i == 2 {
        Metric {
            id: TEMPERATURE_ID,
            title: "Temperature",
            unit: "°C",
            icon: "airgradient-temperature-symbolic",
            classified: false,
            fixed_class: NEUTRAL_CLASS,
        }
    } else if i == 3 {
        Metric {
            id: HUMIDITY_ID,
            title: "Humidity",
            unit: "%",
            icon: "airgradient-humidity-symbolic",
            classified: false,
            fixed_class: NEUTRAL_CLASS,
        }
    } else if i == 4 {
        Metric {
            id: TVOC_ID,
            title: "TVOC",
            unit: "index",
            icon: "airgradient-voc-symbolic",
            classified: true,
            fixed_class: NEUTRAL_CLASS,
        }
    } else if i == 5 {
        Metric {
            id: NOX_ID,
            title: "NOx",
            unit: "index",
            icon: "airgradient-nox-symbolic",
            classified: true,
            fixed_class: NEUTRAL_CLASS,
        }
    } else if i == 6 {
        Metric {
            id: PM003_COUNT_ID,
            title: "PM₀.₃ Count",
            unit: "count",
            icon: "airgradient-particles-symbolic",
            classified: false,
            fixed_class: NEUTRAL_CLASS,
        }
    } else if i == 7 {
        Metric {
            id: PM1_ID,
            title: "PM₁.₀",
            unit: "µg/m³",
            icon: "airgradient-particles-symbolic",
            classified: false,
            fixed_class: NEUTRAL_CLASS,
        }
    } else if i == 8 {
        Metric {
            id: PM25_ID,
            title: "PM₂.₅",
            unit: "µg/m³",
            icon: "airgradient-particles-symbolic",
            classified: true,
            fixed_class: NEUTRAL_CLASS,
        }
    } else {
        Metric {
            id: PM10_ID,
            title: "PM₁₀",
            unit: "µg/m³",
            icon: "airgradient-particles-symbolic",
            classified: false,
            fixed_class: COARSE_CLASS,
        }
    }
}

/// Every metric, in history-view order.
pub fn metrics() -> (all: Vec<Metric>)
    ensures
        all@.len() == METRIC_COUNT,
        forall|i: int| 0 <= i < METRIC_COUNT ==> #[trigger] all@[i] == spec_metric_at(i),
{
    let mut all: Vec<Metric> = Vec::new();
    let mut i: usize = 0;
    while i < METRIC_COUNT
        invariant
            i <= METRIC_COUNT,
            all@.len() == i,
            forall|j: int| 0 <= j < i ==> #[trigger] all@[j] == spec_metric_at(j),
        decreases METRIC_COUNT - i,
    {
        all.push(metric_at(i));
        i = i + 1;
    }
    all
}

/// No two metrics share an id, so looking one up by id is unambiguous.
pub proof fn metric_ids_are_unique(i: int, j: int)
    requires
        0 <= i < j < METRIC_COUNT,
    ensures
        spec_metric_at(i).id@ != spec_metric_at(j).id@,
{
    reveal_strlit("aqi");
    reveal_strlit("co2");
    reveal_strlit("temperature");
    reveal_strlit("humidity");
    reveal_strlit("tvoc");
    reveal_strlit("nox");
    reveal_strlit("pm003_count");
    reveal_strlit("pm1");
    reveal_strlit("pm25");
    reveal_strlit("pm10");
    let first = spec_metric_at(i).id@;
    let second = spec_metric_at(j).id@;
    // Ids of equal length first differ within their first three characters.
    assert(first.len() != second.len() || first[0] != second[0] || first[1] != second[1]
        || first[2] != second[2]);
}

/// Whether some metric has the identifier `id`.
pub open spec fn is_metric_id(id: Seq<char>) -> bool {
    exists|i: int| 0 <= i < METRIC_COUNT && #[trigger] spec_metric_at(i).id@ == id
}

/// Look up a metric by id.
///
/// Ids are constants of this module, so an unknown id is a programming error
/// rather than bad input, and calling with one is ruled out.
pub fn find(id: &str) -> (metric: Metric)
    requires
        is_metric_id(id@),
    ensures
        metric.id@ == id@,
        exists|i: int|
            0 <= i < METRIC_COUNT && metric == spec_metric_at(i) && forall|j: int|
                0 <= j < i ==> (#[trigger] spec_metric_at(j)).id@ != id@,
{
    let mut i: usize = 0;
    while i < METRIC_COUNT
        invariant
            i <= METRIC_COUNT,
            is_metric_id(id@),
            forall|j: int| 0 <= j < i ==> (#[trigger] spec_metric_at(j)).id@ != id@,
        decreases METRIC_COUNT - i,
    {
        let metric = metric_at(i);
        if same_text(metric.id, id) {
            return metric;
        }
        i = i + 1;
    }
    proof {
        let k = choose|k: int| 0 <= k < METRIC_COUNT && #[trigger] spec_metric_at(k).id@ == id@;
        assert(spec_metric_at(k).id@ != id@);
    }
    metric_at(0)
}

/// Every metric's id names a metric, and only that one: `find` on it returns
/// that metric.
pub proof fn every_metric_is_found_by_its_id(i: int)
    requires
        0 <= i < METRIC_COUNT,
    ensures
        is_metric_id(spec_metric_at(i).id@),
        forall|k: int|
            0 <= k < METRIC_COUNT && #[trigger] spec_metric_at(k).id@ == spec_metric_at(i).id@
                ==> k == i,
{
    assert forall|k: int|
        0 <= k < METRIC_COUNT && #[trigger] spec_metric_at(k).id@ == spec_metric_at(i).id@
            implies k == i by {
        if k < i {
            metric_ids_are_unique(k, i);
        } else if i < k {
            metric_ids_are_unique(i, k);
        }
    }
}

} // verus!
