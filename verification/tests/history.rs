use airgradient_desktop::history::{hour_bucket, History, Sample, CAPACITY, SECONDS_PER_HOUR};

/// A snapshot carrying only a CO2 reading, in ppm.
type Co2 = Option<u32>;

fn sample(recorded_at: u64, co2: u32) -> Sample<Co2> {
    Sample {
        recorded_at,
        snapshot: Some(co2),
    }
}

/// The CO2 readings a history holds, oldest first.
fn co2_series(history: &History<Co2>) -> Vec<u32> {
    history
        .samples()
        .iter()
        .filter_map(|sample| sample.snapshot)
        .collect()
}

#[test]
fn samples_are_kept_in_order() {
    let mut history = History::with_capacity(10);
    history.push(sample(1, 400));
    history.push(sample(2, 500));

    assert_eq!(history.len(), 2);
    assert_eq!(co2_series(&history), vec![400, 500]);
    assert_eq!(history.latest(), Some(&Some(500)));
}

#[test]
fn oldest_samples_are_discarded_when_full() {
    let mut history = History::with_capacity(3);
    for second in 1..=5_u64 {
        history.push(sample(second, second as u32 * 100));
    }

    assert_eq!(history.len(), 3);
    assert_eq!(co2_series(&history), vec![300, 400, 500]);
}

#[test]
fn zero_capacity_still_keeps_the_latest_sample() {
    let mut history = History::with_capacity(0);
    history.push(sample(1, 400));

    assert_eq!(history.len(), 1);
}

#[test]
fn missing_readings_are_stored_without_being_zeroed() {
    let mut history = History::with_capacity(10);
    history.push(sample(1, 400));
    history.push(Sample {
        recorded_at: 2,
        snapshot: None,
    });
    history.push(sample(3, 600));

    assert_eq!(history.len(), 3);
    assert_eq!(co2_series(&history), vec![400, 600]);
}

#[test]
fn a_new_history_is_empty_and_keeps_a_day() {
    let mut history: History<Co2> = History::new();
    assert!(history.is_empty());
    assert_eq!(history.latest(), None);

    for second in 0..(CAPACITY as u64 + 5) {
        history.push(sample(second, 400));
    }
    assert_eq!(history.len(), CAPACITY);
    assert_eq!(history.samples().front().map(|s| s.recorded_at), Some(5));
}

#[test]
fn snapshots_are_copied_oldest_first() {
    let mut history = History::with_capacity(2);
    history.push(sample(1, 400));
    history.push(sample(2, 500));
    history.push(sample(3, 600));

    assert_eq!(history.snapshots(), vec![Some(500), Some(600)]);
}

#[test]
fn samples_fall_into_the_hour_they_were_recorded_in() {
    const HOUR: u64 = SECONDS_PER_HOUR;
    let now = 1_000 * HOUR;

    assert_eq!(hour_bucket(now, now, 5), Some(0));
    assert_eq!(hour_bucket(now, now - 1, 5), Some(0));
    assert_eq!(hour_bucket(now, now - HOUR, 5), Some(1));
    assert_eq!(hour_bucket(now, 997 * HOUR, 5), Some(3));
    assert_eq!(hour_bucket(now, 995 * HOUR, 5), None);
    // A sample from the future belongs to the current hour.
    assert_eq!(hour_bucket(now, now + 10 * HOUR, 5), Some(0));
    assert_eq!(hour_bucket(now, now, 0), None);
}
