use rosu_pp_older::taiko_2020::rim::Rim;
use rosu_pp_older::taiko_ppv1::difficulty_object::has_type_change;
use rosu_pp_older::util::control_points::{difficulty_point_at, time_key, timing_point_at};

fn keys(times: &[f64]) -> Vec<i64> {
    times.iter().map(|time| time_key(time.to_bits())).collect()
}

fn point_by_floats(times: &[f64], time: f64) -> Option<usize> {
    times
        .binary_search_by(|probe| probe.total_cmp(&time))
        .map_or_else(|i| i.checked_sub(1), Some)
}

fn in_effect(times: &[f64], time: f64, found: Option<usize>) -> bool {
    match found {
        Some(i) => times[i] <= time && times.iter().all(|&t| t > time || t <= times[i]),
        None => times.iter().all(|&t| t > time),
    }
}

#[test]
fn time_keys_order_like_the_floats() {
    let values = [
        f64::NEG_INFINITY,
        -1.0e300,
        -2.5,
        -f64::MIN_POSITIVE,
        -0.0,
        0.0,
        f64::MIN_POSITIVE,
        1.0,
        1.000_000_000_000_000_2,
        1234.5,
        1.0e300,
        f64::INFINITY,
        f64::NAN,
    ];

    for a in values {
        for b in values {
            assert_eq!(
                time_key(a.to_bits()).cmp(&time_key(b.to_bits())),
                a.total_cmp(&b),
                "{a} and {b}"
            );
        }
    }
}

#[test]
fn timing_point_in_effect() {
    let times = [0.0, 1000.0, 2500.0, 2500.5, 9000.0];
    let keys = keys(&times);

    assert_eq!(timing_point_at(&keys, time_key(1000.0f64.to_bits())), Some(1));
    assert_eq!(timing_point_at(&keys, time_key(2499.9f64.to_bits())), Some(1));
    assert_eq!(timing_point_at(&keys, time_key(2500.25f64.to_bits())), Some(2));
    assert_eq!(timing_point_at(&keys, time_key(1.0e9f64.to_bits())), Some(4));
}

#[test]
fn timing_point_before_the_first_is_none() {
    let keys = keys(&[500.0, 1000.0]);

    assert_eq!(timing_point_at(&keys, time_key(0.0f64.to_bits())), None);
    assert_eq!(timing_point_at(&keys, time_key((-3.0f64).to_bits())), None);
    assert_eq!(timing_point_at(&keys, time_key(499.999f64.to_bits())), None);
    assert_eq!(timing_point_at(&keys, time_key(500.0f64.to_bits())), Some(0));
    assert_eq!(timing_point_at(&[], time_key(0.0f64.to_bits())), None);
}

#[test]
fn difficulty_point_before_the_first_is_none() {
    let keys = keys(&[500.0, 1000.0]);

    assert_eq!(difficulty_point_at(&keys, time_key(499.0f64.to_bits())), None);
    assert_eq!(difficulty_point_at(&keys, time_key(500.0f64.to_bits())), Some(0));
    assert_eq!(difficulty_point_at(&keys, time_key(999.0f64.to_bits())), Some(0));
    assert_eq!(difficulty_point_at(&keys, time_key(1000.0f64.to_bits())), Some(1));
    assert_eq!(difficulty_point_at(&[], time_key(0.0f64.to_bits())), None);
}

#[test]
fn points_are_found_like_with_floats() {
    let times: Vec<f64> = (0..40).map(|i| -300.0 + 77.25 * f64::from(i)).collect();
    let keys = keys(&times);

    for step in -20..200 {
        let time = f64::from(step) * 19.3125 - 350.0;
        let key = time_key(time.to_bits());

        assert_eq!(timing_point_at(&keys, key), point_by_floats(&times, time));
        assert_eq!(difficulty_point_at(&keys, key), point_by_floats(&times, time));
        assert!(in_effect(&times, time, timing_point_at(&keys, key)));
        assert!(in_effect(&times, time, difficulty_point_at(&keys, key)));
    }
}

#[test]
fn points_at_the_same_time() {
    let times = [0.0, 100.0, 100.0, 100.0, 200.0];
    let keys = keys(&times);

    for time in [100.0, 150.0, 50.0, 200.0, -1.0] {
        let key = time_key(f64::to_bits(time));

        assert!(in_effect(&times, time, timing_point_at(&keys, key)));
        assert!(in_effect(&times, time, difficulty_point_at(&keys, key)));
    }

    assert_eq!(timing_point_at(&keys, time_key(f64::to_bits(-1.0))), None);
    assert_eq!(timing_point_at(&keys, time_key(f64::to_bits(50.0))), Some(0));
    assert_eq!(timing_point_at(&keys, time_key(f64::to_bits(250.0))), Some(4));
}

#[test]
fn rim_is_clap_or_whistle() {
    assert!(!0u8.rim());
    assert!(!1u8.rim());
    assert!(2u8.rim());
    assert!(!4u8.rim());
    assert!(8u8.rim());
    assert!((1u8 | 4 | 8).rim());
    assert!(!(1u8 | 4).rim());

    for sound in 0..=255u8 {
        assert_eq!(sound.rim(), sound & 10 != 0);
    }
}

#[test]
fn type_change_is_a_change_of_rim() {
    assert!(has_type_change(8, 0));
    assert!(has_type_change(1, 2));
    assert!(!has_type_change(2, 8));
    assert!(!has_type_change(0, 4));
}
