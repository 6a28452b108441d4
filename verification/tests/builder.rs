use rosu_pp_older::fruits_2022::DifficultyValues as CatchValues;
use rosu_pp_older::mania_2022::DifficultyValues as ManiaValues;
use rosu_pp_older::osu_2015::difficulty_object::clamp_delta;
use rosu_pp_older::osu_2022::take_diff_objects;
use rosu_pp_older::osu_2022::DifficultyValues as OsuValues;
use rosu_pp_older::taiko_2022::{DifficultyValues as TaikoValues, ObjectCount};
use rosu_pp_older::util::strains_vec::StrainsVec;

#[derive(Debug, PartialEq)]
struct DiffObject {
    idx: usize,
    delta: f64,
    start_time: f64,
}

fn make(clock_rate: f64) -> impl Fn(&f64, &f64, usize) -> DiffObject {
    move |base, last, idx| DiffObject {
        idx,
        delta: (base - last) / clock_rate,
        start_time: base / clock_rate,
    }
}

#[test]
fn fewer_than_two_objects_make_no_difficulty_object() {
    let make = make(1.0);

    assert!(ManiaValues::create_difficulty_objects(&[], &make).is_empty());
    assert!(ManiaValues::create_difficulty_objects(&[100.0], &make).is_empty());
    assert!(CatchValues::create_difficulty_objects(usize::MAX, &[], &make).is_empty());
    assert!(CatchValues::create_difficulty_objects(usize::MAX, &[100.0], &make).is_empty());
    assert!(CatchValues::create_difficulty_objects(1, &[100.0, 200.0, 300.0], &make).is_empty());
    assert!(CatchValues::create_difficulty_objects(0, &[100.0, 200.0, 300.0], &make).is_empty());

    let with_last_last = |base: &f64, last: &f64, _: Option<&f64>, _: usize| base - last;

    assert!(OsuValues::create_difficulty_objects(usize::MAX, &[], &with_last_last).is_empty());
    assert!(OsuValues::create_difficulty_objects(usize::MAX, &[5.0], &with_last_last).is_empty());
    assert!(OsuValues::create_difficulty_objects(0, &[5.0, 6.0, 7.0], &with_last_last).is_empty());
}

#[test]
fn each_object_after_the_first_has_a_difficulty_object() {
    let times = [0.0, 150.0, 150.0, 900.0];
    let diff_objects = ManiaValues::create_difficulty_objects(&times, &make(1.5));

    assert_eq!(
        diff_objects,
        vec![
            DiffObject {
                idx: 0,
                delta: 100.0,
                start_time: 100.0
            },
            DiffObject {
                idx: 1,
                delta: 0.0,
                start_time: 100.0
            },
            DiffObject {
                idx: 2,
                delta: 500.0,
                start_time: 600.0
            },
        ]
    );
}

#[test]
fn a_faster_clock_shortens_every_delta() {
    let times = [0.0, 120.0, 480.0, 485.0, 2000.0];
    let slow = ManiaValues::create_difficulty_objects(&times, &make(0.75));
    let normal = ManiaValues::create_difficulty_objects(&times, &make(1.0));
    let fast = ManiaValues::create_difficulty_objects(&times, &make(1.5));

    for ((slow, normal), fast) in slow.iter().zip(normal.iter()).zip(fast.iter()) {
        assert!(slow.delta > normal.delta && normal.delta > fast.delta);
        assert_eq!(fast.delta, normal.delta / 1.5);
    }
}

#[test]
fn passed_objects_cut_the_difficulty_objects_short() {
    let times = [0.0, 100.0, 200.0, 300.0, 400.0];

    assert_eq!(CatchValues::create_difficulty_objects(3, &times, &make(1.0)).len(), 2);
    assert_eq!(CatchValues::create_difficulty_objects(5, &times, &make(1.0)).len(), 4);
    assert_eq!(CatchValues::create_difficulty_objects(50, &times, &make(1.0)).len(), 4);
    assert_eq!(
        CatchValues::create_difficulty_objects(2, &times, &make(2.0)),
        vec![DiffObject {
            idx: 0,
            delta: 50.0,
            start_time: 50.0
        }]
    );
}

#[test]
fn the_object_two_places_back_is_handed_on() {
    let positions = [10.0, 20.0, 40.0, 80.0];
    let make = |base: &f64, last: &f64, last_last: Option<&f64>, idx: usize| {
        (idx, base - last, last_last.map(|last_last| last - last_last))
    };

    assert_eq!(
        OsuValues::create_difficulty_objects(2, &positions, &make),
        vec![(0, 10.0, None), (1, 20.0, Some(10.0)), (2, 40.0, Some(20.0))]
    );
}

#[test]
fn two_objects_make_one_peak_for_each_skill() {
    const DIFFICULTY_MULTIPLIER: f64 = 0.0675;

    // Two circles half a second apart and a hundred pixels from each other.
    let objects = [(0.0f32, 100.0f32), (500.0, 200.0)];
    let clock_rate = 1.0;

    let make = |base: &(f32, f32), last: &(f32, f32), _: Option<&(f32, f32)>, _: usize| {
        let delta = f32::from_bits(clamp_delta(((base.0 - last.0) / clock_rate).to_bits()));

        (delta, base.1 - last.1)
    };

    let diff_objects = OsuValues::create_difficulty_objects(usize::MAX, &objects, &make);

    assert_eq!(diff_objects, vec![(500.0, 100.0)]);
    assert_eq!(take_diff_objects(objects.len(), usize::MAX), 1);

    // One evaluation of each skill's strain, and nothing that decays it.
    let (delta, dist) = diff_objects[0];
    let aim_strain = f64::from(dist.powf(0.99) / delta);
    let speed_strain = f64::from(0.95 + 0.25 * (dist - 45.0) / 45.0) / f64::from(delta);

    let rating = |strain: f64| {
        let mut peaks = StrainsVec::with_capacity(1);
        peaks.push(strain.to_bits());

        let sorted = peaks.sorted_non_zero_iter();

        assert_eq!(sorted, vec![strain.to_bits()]);

        f64::from_bits(sorted[0]).sqrt() * DIFFICULTY_MULTIPLIER
    };

    let aim_rating = rating(aim_strain);
    let speed_rating = rating(speed_strain);
    let stars = aim_rating + speed_rating + (aim_rating - speed_rating).abs() / 2.0;

    assert_eq!(aim_rating, aim_strain.sqrt() * 0.0675);
    assert_eq!(speed_rating, speed_strain.sqrt() * 0.0675);
    assert!(stars >= aim_rating.max(speed_rating));
    assert_eq!(stars, 1.5 * aim_rating.max(speed_rating) + 0.5 * aim_rating.min(speed_rating));
}

#[test]
fn taiko_objects_are_built_from_the_third_on() {
    // Time and whether the object is a hit.
    let objects = [(0.0, true), (100.0, false), (250.0, true), (300.0, true), (900.0, true)];
    let is_hit = |object: &(f64, bool)| object.1;
    let make = |curr: &(f64, bool), last: &(f64, bool), last_last: &(f64, bool), idx: usize| {
        (idx, curr.0 - last.0, last.0 - last_last.0)
    };

    let (diff_objects, count) =
        TaikoValues::create_difficulty_objects(&objects, u32::MAX, &is_hit, &make);

    assert_eq!(diff_objects, vec![(0, 150.0, 100.0), (1, 50.0, 150.0), (2, 600.0, 50.0)]);
    assert_eq!(
        count,
        ObjectCount {
            max_combo: 4,
            n_diff_objects: 5
        }
    );

    let (diff_objects, count) =
        TaikoValues::create_difficulty_objects(&objects, 2, &is_hit, &make);

    assert_eq!(diff_objects.len(), 3);
    assert_eq!(
        count,
        ObjectCount {
            max_combo: 2,
            n_diff_objects: 3
        }
    );

    for len in 0..3 {
        let (diff_objects, count) =
            TaikoValues::create_difficulty_objects(&objects[..len], u32::MAX, &is_hit, &make);

        assert!(diff_objects.is_empty());
        assert_eq!(count.n_diff_objects, len);
    }
}
