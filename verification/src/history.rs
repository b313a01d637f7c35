//! Measurement history.
//!
//! Samples are kept in a fixed-size ring, oldest first: when it is full, a new
//! sample pushes out the oldest one. The ring does not look inside what it
//! records, so it holds snapshots of any type; writing it to disk and reading
//! it back happen outside this crate.

use std::collections::VecDeque;
use std::time::{Duration, SystemTime, UNIX_EPOCH};

use vstd::prelude::*;

verus! {

/// How many samples to keep.
///
/// At the default 30-second refresh this is a day of readings. It is a count
/// rather than a duration because the refresh interval is configurable.
pub const CAPACITY: usize = 2880;

/// Seconds in an hour, used to bucket samples for hourly means.
pub const SECONDS_PER_HOUR: u64 = 3600;

/// One recorded measurement.
#[derive(Debug, PartialEq)]
pub struct Sample<S> {
    /// Seconds since the Unix epoch.
    pub recorded_at: u64,
    pub snapshot: S,
}

impl<S> Sample<S> {
    /// Record a snapshot as having been taken now.
    pub fn now(snapshot: S) -> (sample: Sample<S>)
        ensures
            sample.snapshot == snapshot,
    {
        Sample { recorded_at: unix_now(), snapshot }
    }
}

/// The system clock's reading, carried through unread.
#[verifier::external_type_specification]
#[verifier::external_body]
pub struct ExSystemTime(std::time::SystemTime);

/// The system clock now, through `SystemTime::now`. Nothing is claimed of the
/// value: it is wherever the clock stands.
#[verifier::external_body]
fn system_now() -> SystemTime {
    SystemTime::now()
}

/// The time from the Unix epoch to `time`, through
/// `SystemTime::duration_since`, or `None` when `time` is before the epoch.
/// Which of the two comes back is not stated: a `SystemTime` is opaque here.
#[verifier::external_body]
fn since_epoch(time: &SystemTime) -> Option<Duration> {
    time.duration_since(UNIX_EPOCH).ok()
}

/// The whole seconds in `span`, through `Duration::as_secs`. The value is not
/// stated: a `Duration` is opaque here.
#[verifier::external_body]
fn whole_seconds(span: &Duration) -> u64 {
    span.as_secs()
}

/// Seconds since the Unix epoch, clamped at the epoch itself.
///
/// A clock set before 1970 is not worth a failure path in a chart, so it reads
/// as "the beginning of time" instead.
pub fn unix_seconds(elapsed: Option<u64>) -> (seconds: u64)
    ensures
        seconds == match elapsed {
            Some(seconds) => seconds,
            None => 0,
        },
{
    match elapsed {
        Some(seconds) => seconds,
        None => 0,
    }
}

/// The current time, in seconds since the Unix epoch.
pub fn unix_now() -> u64 {
    let elapsed = match since_epoch(&system_now()) {
        Some(span) => Some(whole_seconds(&span)),
        None => None,
    };
    unix_seconds(elapsed)
}

/// A bounded series of measurements, oldest first.
#[derive(Debug)]
pub struct History<S> {
    samples: VecDeque<Sample<S>>,
    capacity: usize,
}

/// The last `capacity` items of `s`, or all of them when there are fewer.
pub open spec fn keep_last<T>(s: Seq<T>, capacity: nat) -> Seq<T> {
    if s.len() > capacity {
        s.subrange(s.len() - capacity, s.len() as int)
    } else {
        s
    }
}

impl<S> View for History<S> {
    type V = Seq<Sample<S>>;

    closed spec fn view(&self) -> Seq<Sample<S>> {
        self.samples@
    }
}

impl<S> Default for History<S> {
    /// An empty history keeping a day of readings at the default refresh.
    fn default() -> (history: History<S>)
        ensures
            history@ == Seq::<Sample<S>>::empty(),
            history.spec_capacity() == CAPACITY,
    {
        History::new()
    }
}

impl<S> History<S> {
    /// How many samples the history keeps.
    pub closed spec fn spec_capacity(&self) -> nat {
        self.capacity as nat
    }

    #[verifier::type_invariant]
    closed spec fn keeps_at_least_one(&self) -> bool {
        self.capacity >= 1
    }

    /// An empty history keeping up to `capacity` samples.
    ///
    /// A capacity of zero would make `push` discard everything and silently
    /// break every chart, so it is treated as one.
    pub fn with_capacity(capacity: usize) -> (history: History<S>)
        ensures
            history@ == Seq::<Sample<S>>::empty(),
            history.spec_capacity() == if capacity == 0 {
                1
            } else {
                capacity as nat
            },
    {
        History { samples: VecDeque::new(), capacity: if capacity == 0 {
            1
        } else {
            capacity
        } }
    }

    /// An empty history keeping a day of readings at the default refresh.
    pub fn new() -> (history: History<S>)
        ensures
            history@ == Seq::<Sample<S>>::empty(),
            history.spec_capacity() == CAPACITY,
    {
        History::with_capacity(CAPACITY)
    }

    /// Add a sample, discarding the oldest ones beyond the capacity.
    pub fn push(&mut self, sample: Sample<S>)
        ensures
            final(self)@ == keep_last(old(self)@.push(sample), old(self).spec_capacity()),
            final(self).spec_capacity() == old(self).spec_capacity(),
            old(self).spec_capacity() >= 1,
    {
        proof {
            use_type_invariant(&*self);
        }
        let mut samples: VecDeque<Sample<S>> = VecDeque::new();
        std::mem::swap(&mut samples, &mut self.samples);
        samples.push_back(sample);
        let ghost pushed = samples@;
        while samples.len() > self.capacity
            invariant
                self.capacity == old(self).capacity,
                pushed == old(self)@.push(sample),
                pushed.len() >= samples@.len(),
                samples@.len() < pushed.len() ==> samples@.len() >= self.capacity,
                samples@ == pushed.subrange(pushed.len() - samples@.len(), pushed.len() as int),
            decreases samples@.len(),
        {
            samples.pop_front();
        }
        assert(pushed.len() <= self.capacity ==> samples@ =~= pushed);
        assert(pushed.len() > self.capacity ==> samples@.len() == self.capacity);
        self.samples = samples;
    }

    /// Every sample, oldest first.
    pub fn samples(&self) -> (samples: &VecDeque<Sample<S>>)
        ensures
            samples@ == self@,
    {
        &self.samples
    }

    pub fn len(&self) -> (len: usize)
        ensures
            len == self@.len(),
    {
        self.samples.len()
    }

    pub fn is_empty(&self) -> (empty: bool)
        ensures
            empty == (self@.len() == 0),
    {
        self.samples.len() == 0
    }

    /// The most recently recorded snapshot.
    pub fn latest(&self) -> (latest: Option<&S>)
        ensures
            self@.len() == 0 ==> latest is None,
            self@.len() > 0 ==> latest == Some(&self@.last().snapshot),
    {
        let len = self.samples.len();
        if len == 0 {
            None
        } else {
            Some(&self.samples[len - 1].snapshot)
        }
    }

    /// Every recorded snapshot, oldest first.
    pub fn snapshots(&self) -> (snapshots: Vec<S>) where S: Clone
        ensures
            snapshots@.len() == self@.len(),
            forall|i: int|
                0 <= i < self@.len() ==> cloned::<S>(self@[i].snapshot, #[trigger] snapshots@[i]),
    {
        let mut snapshots: Vec<S> = Vec::new();
        let len = self.samples.len();
        let mut i: usize = 0;
        while i < len
            invariant
                len == self@.len(),
                i <= len,
                snapshots@.len() == i,
                forall|j: int|
                    0 <= j < i ==> cloned::<S>(self@[j].snapshot, #[trigger] snapshots@[j]),
            decreases len - i,
        {
            snapshots.push(self.samples[i].snapshot.clone());
            i = i + 1;
        }
        snapshots
    }
}

/// Which hourly bucket a sample recorded at `recorded_at` falls in, counting
/// back from `now`, or `None` when it is `hours` or more hours old.
///
/// A sample stamped in the future, which a clock change can produce, counts as
/// belonging to the current hour.
pub open spec fn spec_hour_bucket(now: u64, recorded_at: u64, hours: usize) -> Option<usize> {
    let hours_ago = if now >= recorded_at {
        (now - recorded_at) as int / SECONDS_PER_HOUR as int
    } else {
        0
    };
    if hours_ago < hours {
        Some(hours_ago as usize)
    } else {
        None
    }
}

/// The hourly bucket of a sample: 0 for the current hour, 1 for the one before.
pub fn hour_bucket(now: u64, recorded_at: u64, hours: usize) -> (bucket: Option<usize>)
    ensures
        bucket == spec_hour_bucket(now, recorded_at, hours),
{
    let hours_ago = now.saturating_sub(recorded_at) / SECONDS_PER_HOUR;
    if hours_ago < hours as u64 {
        Some(hours_ago as usize)
    } else {
        None
    }
}

/// A sample recorded `hours * 3600` seconds or more before `now` is too old
/// to count; any younger one falls in the bucket of the whole hours since it
/// was recorded, so every one of the `hours` buckets, the oldest included, is
/// reached; and a sample stamped in the future counts for the current hour.
pub proof fn each_sample_lands_in_its_hour(now: u64, recorded_at: u64, hours: usize)
    ensures
        recorded_at <= now && now - recorded_at < hours * 3600 ==> spec_hour_bucket(
            now,
            recorded_at,
            hours,
        ) == Some(((now - recorded_at) / 3600) as usize),
        recorded_at <= now && now - recorded_at >= hours * 3600 ==> spec_hour_bucket(
            now,
            recorded_at,
            hours,
        ) is None,
        recorded_at > now ==> spec_hour_bucket(now, recorded_at, hours) == if hours > 0 {
            Some(0usize)
        } else {
            None
        },
{
    if recorded_at <= now {
        let elapsed = (now - recorded_at) as int;
        let h = hours as int;
        assert(elapsed < h * 3600 <==> elapsed / 3600 < h) by (nonlinear_arith)
            requires
                elapsed >= 0,
                h >= 0,
        ;
    }
}

/// Every one of the `hours` buckets is reached: a sample recorded `bucket`
/// whole hours before `now` lands in bucket `bucket`.
pub proof fn every_bucket_is_reachable(now: u64, hours: usize, bucket: usize)
    requires
        bucket < hours,
        bucket * 3600 <= now,
    ensures
        spec_hour_bucket(now, (now - bucket * 3600) as u64, hours) == Some(bucket),
{
    assert((bucket * 3600) / 3600 == bucket) by (nonlinear_arith);
}

/// A history never holds more samples than its capacity, the sample just
/// recorded is always the latest, and what was there before keeps its order.
pub proof fn push_keeps_the_newest_in_order<S>(
    before: Seq<Sample<S>>,
    sample: Sample<S>,
    capacity: nat,
)
    requires
        capacity >= 1,
    ensures
        keep_last(before.push(sample), capacity).len() <= capacity,
        keep_last(before.push(sample), capacity).len() >= 1,
        keep_last(before.push(sample), capacity).last() == sample,
        keep_last(before.push(sample), capacity).len() == if before.len() + 1 <= capacity {
            before.len() + 1
        } else {
            capacity
        },
        forall|i: int|
            0 <= i < keep_last(before.push(sample), capacity).len() - 1 ==> #[trigger] keep_last(
                before.push(sample),
                capacity,
            )[i] == before[before.len() + 1 - keep_last(before.push(sample), capacity).len()
                + i],
{
}

} // verus!
