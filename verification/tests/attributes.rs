use rosu_pp_older::any_2024::difficulty::Difficulty;
use rosu_pp_older::fruits_2022::{
    CatchAttributeProvider, CatchDifficultyAttributes, CatchPerformanceAttributes,
};
use rosu_pp_older::fruits_ppv1::{is_rated as catch_is_rated, unrated as catch_unrated};
use rosu_pp_older::mania_2018::{
    ManiaAttributeProvider, ManiaDifficultyAttributes, ManiaPerformanceAttributes,
};
use rosu_pp_older::mania_ppv1::{
    is_rated as mania_is_rated, unrated as mania_unrated,
    ManiaAttributeProvider as ManiaAttributeProviderV1,
    ManiaDifficultyAttributes as ManiaDifficultyAttributesV1,
};
use rosu_pp_older::osu_2018::stars::{is_rated, take, unrated};
use rosu_pp_older::osu_2018::{OsuDifficultyAttributes, OsuPerformanceAttributes};
use rosu_pp_older::osu_2022::pp::{circle_accuracy_parts, max_slider_ends_dropped};
use rosu_pp_older::osu_2024::performance::{
    amount_hit_objects_with_acc, better_accuracy_parts, given_or_all,
};
use rosu_pp_older::osu_2024::OsuStars;
use rosu_pp_older::taiko_2024::TaikoStars;
use rosu_pp_older::taiko_ppv1::{
    is_rated as taiko_is_rated, unrated as taiko_unrated, TaikoDifficultyAttributes,
    TaikoPerformanceAttributes,
};
use rosu_pp_older::util::mods::GameMods;
use rosu_pp_older::util::priority::{given, limit_to, max_u32, min_u32, sub_or_zero};
use rosu_pp_older::util::score_state::{OsuScoreOrigin, OsuScoreState};

fn state(n300: u32, n100: u32, n50: u32, misses: u32, max_combo: u32) -> OsuScoreState {
    OsuScoreState {
        max_combo,
        large_tick_hits: 0,
        small_tick_hits: 0,
        slider_end_hits: 0,
        n300,
        n100,
        n50,
        misses,
    }
}

#[test]
fn charts_with_fewer_than_two_objects_are_not_rated() {
    for n in 0..2 {
        assert!(!catch_is_rated(n));
        assert!(!mania_is_rated(n));
        assert!(!taiko_is_rated(n));
        assert!(!is_rated(n));
    }

    for n in [2, 3, 1000] {
        assert!(catch_is_rated(n) && mania_is_rated(n) && taiko_is_rated(n) && is_rated(n));
    }
}

#[test]
fn unrated_charts_have_a_star_rating_of_zero() {
    let attrs = unrated(None, 1, 9.5f64.to_bits(), 8.0f64.to_bits()).unwrap();

    assert_eq!(f64::from_bits(attrs.stars), 0.0);
    assert_eq!(f64::from_bits(attrs.aim_strain), 0.0);
    assert_eq!(f64::from_bits(attrs.speed_strain), 0.0);
    assert_eq!(f64::from_bits(attrs.ar), 9.5);
    assert_eq!(f64::from_bits(attrs.od), 8.0);
    assert_eq!((attrs.n_circles, attrs.n_sliders, attrs.n_spinners, attrs.max_combo), (0, 0, 0, 0));

    assert_eq!(OsuDifficultyAttributes::default().stars, 0.0f64.to_bits());
    assert_eq!(ManiaDifficultyAttributes::default().stars, 0.0f64.to_bits());
    assert_eq!(ManiaDifficultyAttributesV1::default().stars, 0.0f64.to_bits());
    assert_eq!(CatchDifficultyAttributes::default().stars, 0.0f64.to_bits());
}

#[test]
fn short_charts_get_zero_attributes_in_every_mode() {
    for n in 0..2 {
        let taiko = taiko_unrated(n).unwrap();

        assert_eq!(f64::from_bits(taiko.stars), 0.0);
        assert_eq!(taiko.max_combo, 0);

        let mania = mania_unrated(n).unwrap();

        assert_eq!(f64::from_bits(mania.stars), 0.0);

        let catch = catch_unrated(n).unwrap();

        assert_eq!(f64::from_bits(catch.stars), 0.0);
        assert_eq!(f64::from_bits(catch.ar), 0.0);
        assert_eq!((catch.n_fruits, catch.n_droplets, catch.n_tiny_droplets), (0, 0, 0));
        assert_eq!(catch.max_combo(), 0);
        assert!(!catch.is_convert());

        let osu = unrated(None, n, 9.0f64.to_bits(), 7.0f64.to_bits()).unwrap();

        assert_eq!(f64::from_bits(osu.stars), 0.0);
        assert_eq!((osu.n_circles, osu.n_sliders, osu.n_spinners, osu.max_combo), (0, 0, 0, 0));
    }

    for n in [2, 3, 1000] {
        assert!(taiko_unrated(n).is_none());
        assert!(mania_unrated(n).is_none());
        assert!(catch_unrated(n).is_none());
        assert!(unrated(None, n, 0, 0).is_none());
    }
}

#[test]
fn a_short_chart_is_not_rated_whatever_was_passed() {
    // One object, and a count of passed objects that is larger.
    assert_eq!(take(Some(2), 1), 1);
    assert!(!is_rated(take(Some(2), 1)));
    assert!(unrated(Some(2), 1, 0, 0).is_some());
    assert!(unrated(Some(usize::MAX), 0, 0, 0).is_some());

    // A long chart of which one object was passed.
    assert!(unrated(Some(1), 500, 0, 0).is_some());
    assert!(unrated(Some(2), 500, 0, 0).is_none());
    assert!(unrated(Some(700), 500, 0, 0).is_none());
}

#[test]
fn passed_objects_decide_how_many_are_taken() {
    assert_eq!(take(None, 40), 40);
    assert_eq!(take(Some(7), 40), 7);
    assert_eq!(take(Some(40), 40), 40);
    assert_eq!(take(Some(70), 40), 40);
    assert_eq!(take(Some(0), 40), 0);
    assert_eq!(take(Some(3), 0), 0);
}

#[test]
fn attributes_are_taken_from_either_result() {
    let difficulty = CatchDifficultyAttributes {
        stars: 4.5f64.to_bits(),
        ar: 9.0f64.to_bits(),
        n_fruits: 3,
        n_droplets: 2,
        n_tiny_droplets: 1,
        is_convert: true,
    };
    let performance = CatchPerformanceAttributes {
        difficulty: difficulty.clone(),
        pp: 100.0f64.to_bits(),
    };

    let from_difficulty = CatchAttributeProvider::Difficulty(difficulty).attributes();
    let from_performance = CatchAttributeProvider::Performance(performance).attributes();

    assert_eq!(from_difficulty.n_fruits, 3);
    assert_eq!(from_performance.n_droplets, 2);
    assert_eq!(f64::from_bits(from_performance.stars), 4.5);
    assert!(from_performance.is_convert());
}

#[test]
fn mania_stars_are_taken_from_any_result() {
    let difficulty = ManiaDifficultyAttributes {
        stars: 3.5f64.to_bits(),
    };
    let performance = ManiaPerformanceAttributes {
        difficulty,
        pp: 250.0f64.to_bits(),
        pp_acc: 100.0f64.to_bits(),
        pp_strain: 150.0f64.to_bits(),
    };

    assert_eq!(ManiaAttributeProvider::Stars(2.0f64.to_bits()).attributes(), 2.0f64.to_bits());
    assert_eq!(ManiaAttributeProvider::Difficulty(difficulty).attributes(), 3.5f64.to_bits());
    assert_eq!(ManiaAttributeProvider::Performance(performance).attributes(), 3.5f64.to_bits());
    assert_eq!(f64::from_bits(performance.stars()), 3.5);
    assert_eq!(f64::from_bits(performance.pp()), 250.0);
    assert_eq!(performance.into_difficulty(), difficulty);
    assert_eq!(
        ManiaAttributeProviderV1::Stars(1.25f64.to_bits()).attributes(),
        1.25f64.to_bits()
    );
}

#[test]
fn performance_attributes_hold_the_difficulty() {
    let taiko = TaikoPerformanceAttributes {
        difficulty: TaikoDifficultyAttributes {
            stars: 0.0f64.to_bits(),
            max_combo: 321,
        },
        pp: 0,
        pp_acc: 0,
        pp_strain: 0,
    };

    assert_eq!(taiko.max_combo(), 321);

    let osu = OsuPerformanceAttributes {
        difficulty: OsuDifficultyAttributes::default(),
        pp: 1.0f64.to_bits(),
        pp_acc: 0,
        pp_aim: 0,
        pp_flashlight: 0,
        pp_speed: 0,
    };

    assert_eq!(osu.difficulty.max_combo, 0);
    assert_eq!(f64::from_bits(osu.pp), 1.0);
}

#[test]
fn accuracy_on_circles_alone() {
    // 100 results on 80 circles: the 20 others are taken off the 300s.
    assert_eq!(circle_accuracy_parts(&state(90, 6, 3, 1, 0), 80), (70 * 6 + 12 + 3, 480));
    assert_eq!(circle_accuracy_parts(&state(10, 60, 29, 1, 0), 80), (0, 480));
    assert_eq!(circle_accuracy_parts(&state(20, 60, 19, 1, 0), 80), (120 + 19, 480));
    assert_eq!(circle_accuracy_parts(&state(90, 6, 3, 1, 0), 0), (0, 0));
}

#[test]
fn accuracy_on_objects_with_a_hit_window() {
    assert_eq!(amount_hit_objects_with_acc(80, 15, true), 80);
    assert_eq!(amount_hit_objects_with_acc(80, 15, false), 95);
    assert_eq!(better_accuracy_parts(&state(90, 6, 3, 1, 0), 80), (70 * 6 + 12 + 3, 480));
    assert_eq!(better_accuracy_parts(&state(10, 60, 29, 1, 0), 80), (-60 + 120 + 29, 480));
    assert_eq!(better_accuracy_parts(&state(0, 0, 0, 100, 0), 80), (-120, 480));
    assert_eq!(better_accuracy_parts(&state(90, 6, 3, 1, 0), 0), (0, 0));
}

#[test]
fn slider_ends_that_can_have_been_dropped() {
    assert_eq!(max_slider_ends_dropped(&state(90, 6, 3, 1, 480), 500), 10);
    assert_eq!(max_slider_ends_dropped(&state(90, 6, 3, 1, 497), 500), 3);
    assert_eq!(max_slider_ends_dropped(&state(90, 6, 3, 1, 600), 500), 0);
}

#[test]
fn accuracy_by_origin() {
    let mut score = state(8, 1, 1, 0, 0);
    score.slider_end_hits = 3;
    score.large_tick_hits = 20;
    score.small_tick_hits = 2;

    assert_eq!(score.accuracy_parts(OsuScoreOrigin::Stable), (2550, 3000));
    assert_eq!(
        score.accuracy_parts(OsuScoreOrigin::WithSliderAcc {
            max_large_ticks: 10,
            max_slider_ends: 4
        }),
        (2550 + 450 + 300, 3000 + 600 + 300)
    );
    assert_eq!(
        score.accuracy_parts(OsuScoreOrigin::WithoutSliderAcc {
            max_large_ticks: 25,
            max_small_ticks: 4
        }),
        (2550 + 600 + 20, 3000 + 750 + 40)
    );
    assert_eq!(OsuScoreState::default().accuracy_parts(OsuScoreOrigin::Stable), (0, 0));
    assert_eq!(OsuScoreState::new().total_hits(), 0);
}

#[test]
fn counts_are_held_within_limits() {
    assert_eq!(given(None, 9), 0);
    assert_eq!(given(Some(4), 9), 4);
    assert_eq!(given(Some(40), 9), 9);
    assert_eq!(given_or_all(None, 9), 9);
    assert_eq!(given_or_all(Some(4), 9), 4);
    assert_eq!(given_or_all(Some(40), 9), 9);
    assert_eq!(limit_to(usize::MAX, 12), 12);
    assert_eq!(limit_to(5, 12), 5);
    assert_eq!(sub_or_zero(5, 12), 0);
    assert_eq!(sub_or_zero(12, 5), 7);
    assert_eq!((min_u32(3, 8), max_u32(3, 8)), (3, 8));
}

#[test]
fn settings_of_the_latest_revisions() {
    let osu = OsuStars::new().mods(64).passed_objects(10).clock_rate(2.0f64.to_bits());

    assert_eq!(osu.difficulty().get_passed_objects(), 10);
    assert_eq!(f64::from_bits(osu.difficulty().get_clock_rate()), 2.0);
    assert_eq!(*osu.difficulty().get_mods(), GameMods::Legacy(64));

    let taiko = TaikoStars::new().mods(256);

    assert_eq!(f64::from_bits(taiko.difficulty().get_clock_rate()), 0.75);
    assert_eq!(taiko.difficulty().given_passed_objects(), None);
    assert_eq!(taiko.difficulty().given_clock_rate(), None);
    assert_eq!(taiko.difficulty().given_lazer(), None);

    let difficulty = Difficulty::new().lazer(true).clock_rate(0.5f64.to_bits());

    assert_eq!(difficulty.given_lazer(), Some(true));
    assert_eq!(difficulty.given_clock_rate(), Some(0.5f64.to_bits()));
    assert_eq!(difficulty, difficulty.clone());
}
