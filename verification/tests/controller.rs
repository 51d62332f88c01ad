//! Exercises the fan-curve controller: sorting, band selection, and the
//! per-poll write decisions.

use clefan::auto_control::{select_band, sort_bands, Controller, FanState};

fn band(fan: u8, begin_temp: u8, end_temp: u8) -> FanState {
    FanState { fan, end_temp, begin_temp }
}

/// The three-band curve used as the worked example of the step semantics.
fn example_bands() -> Vec<FanState> {
    vec![band(30, 0, 50), band(60, 45, 70), band(90, 65, 100)]
}

#[test]
fn sorting_orders_bands_by_ascending_duty() {
    let mut bands = vec![band(90, 65, 100), band(30, 0, 50), band(60, 45, 70), band(30, 10, 20)];
    sort_bands(&mut bands);
    for pair in bands.windows(2) {
        assert!(pair[0].fan <= pair[1].fan);
    }
    let mut duties: Vec<u8> = bands.iter().map(|b| b.fan).collect();
    duties.sort();
    assert_eq!(duties, vec![30, 30, 60, 90]);
    // The same four bands are still there.
    assert!(bands.contains(&band(30, 0, 50)));
    assert!(bands.contains(&band(30, 10, 20)));
    assert!(bands.contains(&band(60, 45, 70)));
    assert!(bands.contains(&band(90, 65, 100)));
}

#[test]
fn selection_is_strict_at_both_band_ends() {
    let bands = vec![band(50, 40, 60)];
    assert_eq!(select_band(&bands, 40), None);
    assert_eq!(select_band(&bands, 41), Some(0));
    assert_eq!(select_band(&bands, 59), Some(0));
    assert_eq!(select_band(&bands, 60), None);
}

#[test]
fn selection_on_empty_band_list_finds_nothing() {
    let bands: Vec<FanState> = vec![];
    assert_eq!(select_band(&bands, 50), None);
}

#[test]
fn overlapping_bands_resolve_to_the_higher_duty_band() {
    // 48 lies inside both the 30% and the 60% band; the later band in the
    // duty-ascending order wins.
    let bands = example_bands();
    assert_eq!(select_band(&bands, 48), Some(1));
    assert_eq!(bands[1].fan, 60);
    // 67 lies inside both the 60% and the 90% band.
    assert_eq!(select_band(&bands, 67), Some(2));
}

#[test]
fn single_matching_band_plans_exactly_one_write() {
    let mut controller = Controller::new(example_bands(), None);
    // 40 lies inside the 30% band only; no band is active yet.
    let planned = controller.plan(40);
    assert_eq!(planned, Some((0, 30)));
    controller.commit(0);
    assert_eq!(controller.active_band_index, 0);
}

#[test]
fn second_poll_in_the_same_band_plans_nothing() {
    let mut controller = Controller::new(example_bands(), None);
    let planned = controller.plan(46);
    assert_eq!(planned, Some((1, 60)));
    controller.commit(1);
    // 48 maps to the same band, so the second poll must not write.
    assert_eq!(controller.plan(48), None);
    assert_eq!(controller.active_band_index, 1);
}

#[test]
fn reading_outside_all_bands_plans_nothing_and_keeps_the_active_band() {
    let mut controller = Controller::new(vec![band(30, 10, 50), band(60, 49, 70)], None);
    let planned = controller.plan(20);
    assert_eq!(planned, Some((0, 30)));
    controller.commit(0);
    // 90 lies outside every band: no write, the active band stays.
    assert_eq!(controller.plan(90), None);
    assert_eq!(controller.active_band_index, 0);
    // Before any write, an out-of-range reading also changes nothing.
    let idle = Controller::new(vec![band(30, 10, 50)], None);
    assert_eq!(idle.plan(90), None);
    assert_eq!(idle.active_band_index, 1);
}

#[test]
fn controller_starts_with_no_band_active() {
    let controller = Controller::new(example_bands(), None);
    assert_eq!(controller.active_band_index, controller.bands.len());
}

#[test]
fn poll_interval_defaults_to_three_seconds() {
    assert_eq!(Controller::new(example_bands(), None).poll_interval_ms, 3000);
    assert_eq!(Controller::new(example_bands(), Some(1500)).poll_interval_ms, 1500);
}

#[test]
fn example_poll_sequence_writes_the_expected_duties() {
    // Polling 40, 48, 62, 80, 55 over the example curve must write the
    // duties 30, 60, 90, 60: the 62-degree poll stays in the 60% band and
    // writes nothing.
    let mut controller = Controller::new(example_bands(), None);
    let mut written: Vec<u8> = Vec::new();
    for temp in [40u8, 48, 62, 80, 55] {
        if let Some((index, duty)) = controller.plan(temp) {
            written.push(duty);
            controller.commit(index);
        }
    }
    assert_eq!(written, vec![30, 60, 90, 60]);
}

#[test]
fn unsorted_configuration_is_sorted_before_the_first_poll() {
    let mut controller =
        Controller::new(vec![band(90, 65, 100), band(30, 0, 50), band(60, 45, 70)], None);
    assert_eq!(controller.bands[0].fan, 30);
    assert_eq!(controller.bands[1].fan, 60);
    assert_eq!(controller.bands[2].fan, 90);
    // Overlap resolution relies on that order: 48 picks the 60% band.
    let planned = controller.plan(48);
    assert_eq!(planned, Some((1, 60)));
    controller.commit(1);
}
