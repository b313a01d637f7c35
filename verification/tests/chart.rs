use airgradient_desktop::ui::chart::{downsample, MAX_POINTS, MIN_POINTS};

#[test]
fn short_series_are_not_downsampled() {
    let values = [1.0_f32, 2.0, 3.0];

    assert_eq!(downsample(&values, 10), values.to_vec());
}

#[test]
fn downsampling_keeps_the_first_and_last_reading() {
    let values: Vec<f32> = (0..1000).map(|value| value as f32).collect();

    let reduced = downsample(&values, 100);

    assert_eq!(reduced.len(), 100);
    assert_eq!(reduced.first(), Some(&0.0));
    assert_eq!(reduced.last(), Some(&999.0));
}

#[test]
fn downsampled_readings_stay_in_order() {
    let values: Vec<f32> = (0..500).map(|value| value as f32).collect();

    let reduced = downsample(&values, 50);

    assert!(reduced.windows(2).all(|pair| pair[0] <= pair[1]));
}

#[test]
fn long_series_are_capped_at_the_point_limit() {
    let values: Vec<f32> = (0..10_000).map(|value| value as f32).collect();

    assert_eq!(downsample(&values, MAX_POINTS).len(), MAX_POINTS);
}

#[test]
fn a_budget_below_two_still_keeps_both_ends() {
    let values: Vec<u32> = (0..50).collect();

    assert_eq!(downsample(&values, 0), vec![0, 49]);
    assert_eq!(downsample(&values, 1).len(), MIN_POINTS);
}

#[test]
fn kept_readings_are_evenly_spaced_and_rounded() {
    let values: Vec<u32> = (0..11).collect();

    // Ten gaps shared out over four steps: 2.5 rounds up to 3, 5, 7.5 up to 8.
    assert_eq!(downsample(&values, 5), vec![0, 3, 5, 8, 10]);
    assert_eq!(downsample(&values, 3), vec![0, 5, 10]);
}

#[test]
fn an_empty_series_stays_empty() {
    let values: Vec<u32> = Vec::new();

    assert!(downsample(&values, MAX_POINTS).is_empty());
}
