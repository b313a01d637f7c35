//! The US EPA Air Quality Index scale.

use vstd::prelude::*;

verus! {

/// One of the six named bands of the US AQI scale.
///
/// Each band boundary belongs to the lower band: an AQI of exactly 50 is still
/// "Good", which is how the EPA publishes the scale.
#[derive(Debug, Clone, Copy, PartialEq, Eq, Structural)]
pub enum AqiBand {
    Good,
    Moderate,
    UnhealthyForSensitiveGroups,
    Unhealthy,
    VeryUnhealthy,
    Hazardous,
}

/// Hours of history the NowCast looks back over.
pub const NOWCAST_HOURS: usize = 12;

/// Whether there is a basis for a NowCast, given which of the hourly means
/// are present, the current hour first: the EPA's own rule is that both the
/// current and the previous hour must have readings.
pub fn has_nowcast_basis(present: &[bool]) -> (basis: bool)
    ensures
        basis == (present@.len() >= 2 && present@[0] && present@[1]),
{
    present.len() >= 2 && present[0] && present[1]
}

/// How many of the hourly means the NowCast reads: the most recent twelve,
/// or all of them when there are fewer.
pub open spec fn nowcast_window(len: nat) -> nat {
    if len < NOWCAST_HOURS {
        len
    } else {
        NOWCAST_HOURS as nat
    }
}

/// The hours, counted back from the current one, among the first `n` that
/// have readings, most recent first.
pub open spec fn counted_hours(present: Seq<bool>, n: nat) -> Seq<usize>
    decreases n,
{
    if n == 0 {
        Seq::empty()
    } else if present[n - 1] {
        counted_hours(present, (n - 1) as nat).push((n - 1) as usize)
    } else {
        counted_hours(present, (n - 1) as nat)
    }
}

/// The hours a NowCast averages, given which hourly means are present (the
/// current hour first): only the last twelve hours count, and an hour
/// without readings is skipped rather than counted as zero. Each counted
/// hour's position is how many hours ago it was, which sets its weight.
pub fn nowcast_hours(present: &[bool]) -> (hours: Vec<usize>)
    ensures
        hours@ == counted_hours(present@, nowcast_window(present@.len())),
{
    let window = if present.len() < NOWCAST_HOURS {
        present.len()
    } else {
        NOWCAST_HOURS
    };
    let mut hours: Vec<usize> = Vec::new();
    let mut i: usize = 0;
    while i < window
        invariant
            window == nowcast_window(present@.len()),
            window <= present@.len(),
            i <= window,
            hours@ == counted_hours(present@, i as nat),
        decreases window - i,
    {
        if present[i] {
            hours.push(i);
        }
        i = i + 1;
    }
    hours
}

/// The hours a NowCast averages are exactly the hours within the last twelve
/// that have readings, most recent first, each once.
pub proof fn nowcast_counts_only_recent_present_hours(present: Seq<bool>, n: nat, hour: usize)
    requires
        n <= present.len(),
        n <= usize::MAX,
    ensures
        (exists|i: int|
            0 <= i < counted_hours(present, n).len() && #[trigger] counted_hours(present, n)[i]
                == hour) <==> (hour < n && present[hour as int]),
        forall|i: int, j: int|
            0 <= i < j < counted_hours(present, n).len() ==> counted_hours(present, n)[i]
                < counted_hours(present, n)[j],
        forall|i: int|
            0 <= i < counted_hours(present, n).len() ==> counted_hours(present, n)[i] < n,
    decreases n,
{
    if n > 0 {
        nowcast_counts_only_recent_present_hours(present, (n - 1) as nat, hour);
        let before = counted_hours(present, (n - 1) as nat);
        let after = counted_hours(present, n);
        if present[n - 1] {
            assert(after == before.push((n - 1) as usize));
            if hour as int == n - 1 {
                assert(after[before.len() as int] == hour);
            }
            if exists|i: int| 0 <= i < before.len() && #[trigger] before[i] == hour {
                let i = choose|i: int| 0 <= i < before.len() && #[trigger] before[i] == hour;
                assert(after[i] == hour);
            }
        }
    }
}

} // verus!
