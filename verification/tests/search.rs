use std::cmp;

use rosu_pp_older::fruits_2022::pp::{
    accuracy_parts as catch_accuracy_parts, CatchHitResults, CatchSearch,
};
use rosu_pp_older::fruits_2022::{CatchDifficultyAttributes, FruitsPP};
use rosu_pp_older::mania_2022::pp::{
    ManiaHitResults, ManiaScoreState, ManiaSearch, ManiaSearchKind,
};
use rosu_pp_older::mania_2022::ManiaPP;
use rosu_pp_older::osu_2022::pp::{
    accuracy_parts as osu_accuracy_parts, OsuHitResults, OsuSearch, OsuSearchKind,
};
use rosu_pp_older::osu_2022::OsuPP;
use rosu_pp_older::taiko_2024::performance::{
    accuracy_parts as taiko_accuracy_parts, TaikoHitResults, TaikoSearch,
};
use rosu_pp_older::taiko_2024::TaikoPP;
use rosu_pp_older::util::closest::{consider, scan, scan2, scan3, Closest, Closest2, Closest3};
use rosu_pp_older::util::priority::HitResultPriority;

fn accuracies() -> Vec<f64> {
    let mut accuracies: Vec<f64> = (0..=40).map(|i| f64::from(i) / 40.0).collect();

    accuracies.extend([0.333_333, 0.666_667, 0.9, 0.95, 0.975, 0.9825, 0.99, 0.9975, 0.123_456]);

    accuracies
}

// ---------------------------------------------------------------- taiko

fn taiko_accuracy(n300: u32, n100: u32, misses: u32) -> f64 {
    if n300 + n100 + misses == 0 {
        return 0.0;
    }

    let (numerator, denominator) = taiko_accuracy_parts(n300, n100, misses);

    f64::from(numerator) / f64::from(denominator)
}

/// The search as a plain loop over floats.
fn taiko_by_loop(search: &TaikoSearch, acc: f64) -> (u32, u32) {
    let n_remaining = search.n_remaining;
    let misses = search.misses;
    let mut n300 = 0;
    let mut n100 = 0;

    let target_total = acc * f64::from(2 * search.total_result_count);

    let mut best_dist = f64::MAX;

    let raw_n300 = target_total - f64::from(n_remaining);
    let min_n300 = cmp::min(n_remaining, raw_n300.floor() as u32);
    let max_n300 = cmp::min(n_remaining, raw_n300.ceil() as u32);

    for new300 in min_n300..=max_n300 {
        let new100 = n_remaining - new300;
        let dist = (acc - taiko_accuracy(new300, new100, misses)).abs();

        if dist < best_dist {
            best_dist = dist;
            n300 = new300;
            n100 = new100;
        }
    }

    (n300, n100)
}

fn taiko_by_library(search: &TaikoSearch, acc: f64) -> (u32, u32) {
    let misses = search.misses;
    let target_total = acc * f64::from(2 * search.total_result_count);
    let raw_n300 = target_total - f64::from(search.n_remaining);
    let dist = |n300: u32, n100: u32| (acc - taiko_accuracy(n300, n100, misses)).abs().to_bits();

    search.closest(raw_n300.floor() as u32, raw_n300.ceil() as u32, &dist)
}

#[test]
fn taiko_search_finds_what_the_loop_finds() {
    for max_combo in [0, 1, 2, 7, 50, 333] {
        for misses in [0, 1, 5, 400] {
            for acc in accuracies() {
                let mut pp = TaikoPP::new().accuracy(acc.to_bits()).misses(misses);

                let TaikoHitResults::Open(search) = pp.generate_state(max_combo) else {
                    panic!("settled without a search");
                };

                assert_eq!(
                    taiko_by_library(&search, acc),
                    taiko_by_loop(&search, acc),
                    "{max_combo} objects, {misses} misses, {acc}"
                );
            }
        }
    }
}

#[test]
fn taiko_search_comes_close() {
    let mut pp = TaikoPP::new().accuracy(0.9f64.to_bits());

    let TaikoHitResults::Open(search) = pp.generate_state(200) else {
        panic!("settled without a search");
    };

    let (n300, n100) = taiko_by_library(&search, 0.9);

    assert_eq!((n300, n100), (160, 40));
    assert_eq!(taiko_accuracy(n300, n100, 0), 0.9);
}

// ------------------------------------------------------------------ osu

fn osu_accuracy(n300: u32, n100: u32, n50: u32, misses: u32) -> f64 {
    if n300 + n100 + n50 + misses == 0 {
        return 0.0;
    }

    let (numerator, denominator) = osu_accuracy_parts(n300, n100, n50, misses);

    f64::from(numerator) / f64::from(denominator)
}

/// The search as plain loops over floats.
fn osu_by_loop(search: &OsuSearch, acc: f64) -> (u32, u32, u32) {
    let n_objects = search.n_objects;
    let n_remaining = search.n_remaining;
    let misses = search.misses;

    let mut n300 = search.n300;
    let mut n100 = search.n100;
    let mut n50 = search.n50;

    let target_total = acc * f64::from(6 * n_objects);
    let mut best_dist = f64::MAX;

    match search.kind {
        OsuSearchKind::N300Given => {
            let raw_n100 = target_total - f64::from(n_remaining + 6 * n300);
            let min_n100 = cmp::min(n_remaining, raw_n100.floor() as u32);
            let max_n100 = cmp::min(n_remaining, raw_n100.ceil() as u32);

            for new100 in min_n100..=max_n100 {
                let new50 = n_remaining - new100;
                let dist = (acc - osu_accuracy(n300, new100, new50, misses)).abs();

                if dist < best_dist {
                    best_dist = dist;
                    n100 = new100;
                    n50 = new50;
                }
            }
        }
        OsuSearchKind::N100Given => {
            let raw_n300 = (target_total - f64::from(n_remaining + 2 * n100)) / 5.0;
            let min_n300 = cmp::min(n_remaining, raw_n300.floor() as u32);
            let max_n300 = cmp::min(n_remaining, raw_n300.ceil() as u32);

            for new300 in min_n300..=max_n300 {
                let new50 = n_remaining - new300;
                let curr_dist = (acc - osu_accuracy(new300, n100, new50, misses)).abs();

                if curr_dist < best_dist {
                    best_dist = curr_dist;
                    n300 = new300;
                    n50 = new50;
                }
            }
        }
        OsuSearchKind::N50Given => {
            let raw_n300 = (target_total + f64::from(2 * misses + n50)
                - f64::from(2 * n_objects))
                / 4.0;

            let min_n300 = cmp::min(n_remaining, raw_n300.floor() as u32);
            let max_n300 = cmp::min(n_remaining, raw_n300.ceil() as u32);

            for new300 in min_n300..=max_n300 {
                let new100 = n_remaining - new300;
                let curr_dist = (acc - osu_accuracy(new300, new100, n50, misses)).abs();

                if curr_dist < best_dist {
                    best_dist = curr_dist;
                    n300 = new300;
                    n100 = new100;
                }
            }
        }
        OsuSearchKind::NoneGiven => {
            let raw_n300 = (target_total - f64::from(n_remaining)) / 5.0;
            let min_n300 = cmp::min(n_remaining, raw_n300.floor() as u32);
            let max_n300 = cmp::min(n_remaining, raw_n300.ceil() as u32);

            for new300 in min_n300..=max_n300 {
                let raw_n100 = target_total - f64::from(n_remaining + 5 * new300);
                let min_n100 = cmp::min(raw_n100.floor() as u32, n_remaining - new300);
                let max_n100 = cmp::min(raw_n100.ceil() as u32, n_remaining - new300);

                for new100 in min_n100..=max_n100 {
                    let new50 = n_remaining - new300 - new100;
                    let curr_dist = (acc - osu_accuracy(new300, new100, new50, misses)).abs();

                    if curr_dist < best_dist {
                        best_dist = curr_dist;
                        n300 = new300;
                        n100 = new100;
                        n50 = new50;
                    }
                }
            }
        }
    }

    (n300, n100, n50)
}

fn osu_by_library(search: &OsuSearch, acc: f64) -> (u32, u32, u32) {
    let n_objects = search.n_objects;
    let n_remaining = search.n_remaining;
    let misses = search.misses;

    let target_total = acc * f64::from(6 * n_objects);

    let dist = |n300: u32, n100: u32, n50: u32| {
        (acc - osu_accuracy(n300, n100, n50, misses)).abs().to_bits()
    };

    match search.kind {
        OsuSearchKind::N300Given => {
            let raw_n100 = target_total - f64::from(n_remaining + 6 * search.n300);

            search.closest_given(raw_n100.floor() as u32, raw_n100.ceil() as u32, &dist)
        }
        OsuSearchKind::N100Given => {
            let raw_n300 = (target_total - f64::from(n_remaining + 2 * search.n100)) / 5.0;

            search.closest_given(raw_n300.floor() as u32, raw_n300.ceil() as u32, &dist)
        }
        OsuSearchKind::N50Given => {
            let raw_n300 = (target_total + f64::from(2 * misses + search.n50)
                - f64::from(2 * n_objects))
                / 4.0;

            search.closest_given(raw_n300.floor() as u32, raw_n300.ceil() as u32, &dist)
        }
        OsuSearchKind::NoneGiven => {
            let raw_n300 = (target_total - f64::from(n_remaining)) / 5.0;

            let bounds = |new300: u32| {
                let raw_n100 = target_total - f64::from(n_remaining + 5 * new300);

                (raw_n100.floor() as u32, raw_n100.ceil() as u32)
            };

            search.closest_free(
                raw_n300.floor() as u32,
                raw_n300.ceil() as u32,
                &bounds,
                &dist,
            )
        }
    }
}

#[test]
fn osu_search_finds_what_the_loops_find() {
    let given = [None, Some(0), Some(3), Some(40), Some(500)];

    for n_objects in [0, 1, 9, 64, 250] {
        for misses in [0, 2, 300] {
            for (i, count) in given.iter().enumerate() {
                for which in 0..4 {
                    if (which == 3) != count.is_none() || (which == 3 && i > 0) {
                        continue;
                    }

                    for acc in accuracies() {
                        let mut pp = OsuPP::new().accuracy(acc.to_bits()).misses(misses);

                        if let Some(count) = *count {
                            pp = match which {
                                0 => pp.n300(count),
                                1 => pp.n100(count),
                                _ => pp.n50(count),
                            };
                        }

                        let OsuHitResults::Open(search) = pp.generate_state(1000, n_objects)
                        else {
                            panic!("settled without a search");
                        };

                        assert_eq!(
                            osu_by_library(&search, acc),
                            osu_by_loop(&search, acc),
                            "{search:?} for {acc}"
                        );
                    }
                }
            }
        }
    }
}

#[test]
fn osu_search_comes_close() {
    let pp = OsuPP::new().accuracy(0.98f64.to_bits()).misses(1);

    let OsuHitResults::Open(search) = pp.generate_state(700, 500) else {
        panic!("settled without a search");
    };

    let (n300, n100, n50) = osu_by_library(&search, 0.98);
    let state = search.settle(n300, n100, n50);

    assert_eq!(state.total_hits(), 500);
    assert_eq!(state.misses, 1);
    assert!((osu_accuracy(state.n300, state.n100, state.n50, 1) - 0.98).abs() < 0.0005);
}

// ---------------------------------------------------------------- catch

fn catch_accuracy(fruits: u32, droplets: u32, tiny: u32, tiny_misses: u32, misses: u32) -> f64 {
    let (numerator, denominator) =
        catch_accuracy_parts(fruits, droplets, tiny, tiny_misses, misses);

    f64::from(numerator) / f64::from(denominator)
}

/// The search as a plain loop over floats.
fn catch_by_loop(search: &CatchSearch, acc: f64) -> (u32, u32) {
    let n_fruits = search.fruits;
    let n_droplets = search.droplets;
    let misses = search.misses;

    let mut best_dist = f64::INFINITY;
    let mut best = (0, 0);

    let raw_tiny_droplets = acc
        * f64::from(search.n_fruits + search.n_droplets + search.n_tiny_droplets)
        - f64::from(n_fruits + n_droplets);
    let min_tiny_droplets = cmp::min(search.n_tiny_droplets, raw_tiny_droplets.floor() as u32);
    let max_tiny_droplets = cmp::min(search.n_tiny_droplets, raw_tiny_droplets.ceil() as u32);

    for n_tiny_droplets in min_tiny_droplets..=max_tiny_droplets {
        let n_tiny_droplet_misses = search.n_tiny_droplets - n_tiny_droplets;

        let curr_acc = catch_accuracy(
            n_fruits,
            n_droplets,
            n_tiny_droplets,
            n_tiny_droplet_misses,
            misses,
        );
        let curr_dist = (acc - curr_acc).abs();

        if curr_dist < best_dist {
            best_dist = curr_dist;
            best = (n_tiny_droplets, n_tiny_droplet_misses);
        }
    }

    best
}

fn catch_by_library(search: &CatchSearch, acc: f64) -> (u32, u32) {
    let n_fruits = search.fruits;
    let n_droplets = search.droplets;
    let misses = search.misses;

    let raw_tiny_droplets = acc
        * f64::from(search.n_fruits + search.n_droplets + search.n_tiny_droplets)
        - f64::from(n_fruits + n_droplets);

    let dist = |tiny: u32, tiny_misses: u32| {
        (acc - catch_accuracy(n_fruits, n_droplets, tiny, tiny_misses, misses))
            .abs()
            .to_bits()
    };

    search.closest(
        raw_tiny_droplets.floor() as u32,
        raw_tiny_droplets.ceil() as u32,
        &dist,
    )
}

#[test]
fn catch_search_finds_what_the_loop_finds() {
    for (n_fruits, n_droplets, n_tiny_droplets) in
        [(0, 0, 0), (1, 0, 0), (0, 0, 5), (10, 4, 30), (200, 50, 0), (120, 33, 77)]
    {
        let attrs = CatchDifficultyAttributes {
            stars: 0,
            ar: 0,
            n_fruits,
            n_droplets,
            n_tiny_droplets,
            is_convert: false,
        };

        for misses in [0, 3, 1000] {
            for acc in accuracies() {
                let pp = FruitsPP::new().accuracy(acc.to_bits()).misses(misses);

                let CatchHitResults::Open(search) = pp.generate_state(&attrs) else {
                    panic!("settled without a search");
                };

                assert_eq!(
                    catch_by_library(&search, acc),
                    catch_by_loop(&search, acc),
                    "{search:?} for {acc}"
                );
            }
        }
    }
}

// ---------------------------------------------------------------- mania

fn mania_accuracy(n320: u32, n300: u32, n200: u32, n100: u32, n50: u32, misses: u32) -> f64 {
    let state = ManiaScoreState {
        n320,
        n300,
        n200,
        n100,
        n50,
        misses,
    };
    let (numerator, denominator) = state.accuracy_parts();

    f64::from(numerator) / f64::from(denominator)
}

/// The search as plain loops over floats, up to the counts that the loops
/// leave behind.
#[allow(clippy::too_many_lines)]
fn mania_by_loop(search: &ManiaSearch, acc: f64) -> (u32, u32, u32, u32) {
    let n_objects = search.n_objects;
    let n_remaining = search.n_remaining;
    let misses = search.misses;
    let n320 = search.counts.n320;
    let n300 = search.counts.n300;
    let mut n200 = search.counts.n200;
    let mut n100 = search.counts.n100;
    let mut n50 = search.counts.n50;
    let given = (search.n320_given, search.n300_given);

    let target_total = acc * f64::from(6 * n_objects);
    let mut best_dist = f64::INFINITY;
    let mut n3x0 = n_objects.saturating_sub(n320 + n300 + n200 + n100 + n50 + misses);

    let narrow = |min_n3x0: u32, max_n3x0: u32| match given {
        (true, true) => (
            cmp::min(n_remaining, n320 + n300),
            cmp::min(n_remaining, n320 + n300),
        ),
        (true, false) => (cmp::max(min_n3x0, n320), cmp::max(max_n3x0, n320)),
        (false, true) => (cmp::max(min_n3x0, n300), cmp::max(max_n3x0, n300)),
        (false, false) => (min_n3x0, max_n3x0),
    };

    match search.kind {
        ManiaSearchKind::N200Missing => {
            let raw_n3x0 = (target_total - f64::from(4 * n_remaining)
                + f64::from(2 * n100 + 3 * n50))
                / 2.0;
            let limit = n_remaining.saturating_sub(n100 + n50);
            let (min_n3x0, max_n3x0) = narrow(
                cmp::min(raw_n3x0.floor() as u32, limit),
                cmp::min(raw_n3x0.ceil() as u32, limit),
            );

            for new3x0 in min_n3x0..=max_n3x0 {
                let new200 = n_remaining.saturating_sub(new3x0 + n100 + n50);
                let curr_dist = (acc - mania_accuracy(new3x0, 0, new200, n100, n50, misses)).abs();

                if curr_dist < best_dist {
                    best_dist = curr_dist;
                    n3x0 = new3x0;
                    n200 = new200;
                }
            }
        }
        ManiaSearchKind::N100Missing => {
            let raw_n3x0 = (target_total - f64::from(2 * (n_remaining + n200) - n50)) / 4.0;
            let limit = n_remaining.saturating_sub(n200 + n50);
            let (min_n3x0, max_n3x0) = narrow(
                cmp::min(raw_n3x0.floor() as u32, limit),
                cmp::min(raw_n3x0.ceil() as u32, limit),
            );

            for new3x0 in min_n3x0..=max_n3x0 {
                let new100 = n_remaining.saturating_sub(new3x0 + n200 + n50);
                let curr_dist = (acc - mania_accuracy(new3x0, 0, n200, new100, n50, misses)).abs();

                if curr_dist < best_dist {
                    best_dist = curr_dist;
                    n3x0 = new3x0;
                    n100 = new100;
                }
            }
        }
        ManiaSearchKind::N50Missing => {
            let raw_n3x0 = (target_total - f64::from(n_remaining + 3 * n200 + n100)) / 5.0;
            let limit = n_remaining.saturating_sub(n200 + n100);
            let (min_n3x0, max_n3x0) = narrow(
                cmp::min(raw_n3x0.floor() as u32, limit),
                cmp::min(raw_n3x0.ceil() as u32, limit),
            );

            for new3x0 in min_n3x0..=max_n3x0 {
                let new50 = n_remaining.saturating_sub(new3x0 + n200 + n100);
                let curr_dist = (acc - mania_accuracy(new3x0, 0, n200, n100, new50, misses)).abs();

                if curr_dist < best_dist {
                    best_dist = curr_dist;
                    n3x0 = new3x0;
                    n50 = new50;
                }
            }
        }
        ManiaSearchKind::N200Given => {
            let (min_n3x0, max_n3x0) = narrow(
                cmp::min(
                    ((target_total - f64::from(2 * (n_remaining + n200))) / 4.0).floor() as u32,
                    n_remaining - n200,
                ),
                cmp::min(
                    ((target_total - f64::from(n_remaining + 3 * n200)) / 5.0).ceil() as u32,
                    n_remaining - n200,
                ),
            );

            for new3x0 in min_n3x0..=max_n3x0 {
                let raw_n100 = target_total - f64::from(n_remaining + 5 * new3x0 + 3 * n200);
                let limit = n_remaining.saturating_sub(new3x0 + n200);
                let min_n100 = cmp::min(raw_n100.floor() as u32, limit);
                let max_n100 = cmp::min(raw_n100.ceil() as u32, limit);

                for new100 in min_n100..=max_n100 {
                    let new50 = n_remaining.saturating_sub(new3x0 + n200 + new100);
                    let curr_dist =
                        (acc - mania_accuracy(new3x0, 0, n200, new100, new50, misses)).abs();

                    if curr_dist < best_dist {
                        best_dist = curr_dist;
                        n3x0 = new3x0;
                        n100 = new100;
                        n50 = new50;
                    }
                }
            }
        }
        ManiaSearchKind::N100Given => {
            let (min_n3x0, max_n3x0) = narrow(
                cmp::min(
                    (acc * f64::from(3 * n_remaining) - f64::from(2 * n_remaining - n100)).floor()
                        as u32,
                    n_remaining - n100,
                ),
                cmp::min(
                    ((target_total - f64::from(n_remaining + n100)) / 5.0).ceil() as u32,
                    n_remaining - n100,
                ),
            );

            for new3x0 in min_n3x0..=max_n3x0 {
                let raw_n200 = (target_total - f64::from(n_remaining + 5 * new3x0 + n100)) / 3.0;
                let limit = n_remaining.saturating_sub(new3x0 + n100);
                let min_n200 = cmp::min(raw_n200.floor() as u32, limit);
                let max_n200 = cmp::min(raw_n200.ceil() as u32, limit);

                for new200 in min_n200..=max_n200 {
                    let new50 = n_remaining.saturating_sub(new3x0 + new200 + n100);
                    let curr_dist =
                        (acc - mania_accuracy(new3x0, 0, new200, n100, new50, misses)).abs();

                    if curr_dist < best_dist {
                        best_dist = curr_dist;
                        n3x0 = new3x0;
                        n200 = new200;
                        n50 = new50;
                    }
                }
            }
        }
        ManiaSearchKind::N50Given => {
            let (min_n3x0, max_n3x0) = narrow(
                cmp::min(
                    ((target_total - f64::from(4 * n_remaining - 3 * n50)) / 2.0).floor() as u32,
                    n_remaining - n50,
                ),
                cmp::min(
                    ((target_total - f64::from(2 * n_remaining - n50)) / 4.0).ceil() as u32,
                    n_remaining - n50,
                ),
            );

            for new3x0 in min_n3x0..=max_n3x0 {
                let raw_n200 = (target_total - f64::from(2 * n_remaining + 4 * new3x0)
                    + f64::from(n50))
                    / 2.0;
                let limit = n_remaining.saturating_sub(new3x0 + n50);
                let min_n200 = cmp::min(raw_n200.floor() as u32, limit);
                let max_n200 = cmp::min(raw_n200.ceil() as u32, limit);

                for new200 in min_n200..=max_n200 {
                    let new100 = n_remaining.saturating_sub(new3x0 + new200 + n50);
                    let curr_dist =
                        (acc - mania_accuracy(new3x0, 0, new200, new100, n50, misses)).abs();

                    if curr_dist < best_dist {
                        best_dist = curr_dist;
                        n3x0 = new3x0;
                        n200 = new200;
                        n100 = new100;
                    }
                }
            }
        }
        ManiaSearchKind::NoneGiven => {
            let (min_n3x0, max_n3x0) = narrow(
                cmp::min(
                    ((target_total - f64::from(4 * n_remaining)) / 5.0).floor() as u32,
                    n_remaining,
                ),
                cmp::min(
                    ((target_total - f64::from(n_remaining)) / 5.0)
                        .min(acc * f64::from(3 * n_objects) - f64::from(n_remaining))
                        .ceil() as u32,
                    n_remaining,
                ),
            );

            for new3x0 in min_n3x0..=max_n3x0 {
                let min_n200 = cmp::min(
                    (acc * f64::from(3 * n_objects) - f64::from(n_remaining + 2 * new3x0)).floor()
                        as u32,
                    n_remaining - new3x0,
                );

                let max_n200 = cmp::min(
                    ((target_total - f64::from(n_remaining + 5 * new3x0)) / 3.0).ceil() as u32,
                    n_remaining - new3x0,
                );

                for new200 in min_n200..=max_n200 {
                    let raw_n100 =
                        target_total - f64::from(n_remaining + 5 * new3x0 + 3 * new200);
                    let min_n100 =
                        cmp::min(raw_n100.floor() as u32, n_remaining - (new3x0 + new200));
                    let max_n100 =
                        cmp::min(raw_n100.ceil() as u32, n_remaining - (new3x0 + new200));

                    for new100 in min_n100..=max_n100 {
                        let new50 = n_remaining - new3x0 - new200 - new100;
                        let curr_acc = mania_accuracy(new3x0, 0, new200, new100, new50, misses);
                        let curr_dist = (acc - curr_acc).abs();

                        if curr_dist < best_dist {
                            best_dist = curr_dist;
                            n3x0 = new3x0;
                            n200 = new200;
                            n100 = new100;
                            n50 = new50;
                        }
                    }
                }
            }
        }
    }

    (n3x0, n200, n100, n50)
}

fn mania_by_library(search: &ManiaSearch, acc: f64) -> (u32, u32, u32, u32) {
    let n_objects = search.n_objects;
    let n_remaining = search.n_remaining;
    let misses = search.misses;

    let n200 = search.counts.n200;
    let n100 = search.counts.n100;
    let n50 = search.counts.n50;

    let target_total = acc * f64::from(6 * n_objects);

    let dist = |new3x0: u32, new200: u32, new100: u32, new50: u32| {
        (acc - mania_accuracy(new3x0, 0, new200, new100, new50, misses))
            .abs()
            .to_bits()
    };

    match search.kind {
        ManiaSearchKind::N200Missing => {
            let raw_n3x0 = (target_total - f64::from(4 * n_remaining)
                + f64::from(2 * n100 + 3 * n50))
                / 2.0;

            search.closest_one(raw_n3x0.floor() as u32, raw_n3x0.ceil() as u32, &dist)
        }
        ManiaSearchKind::N100Missing => {
            let raw_n3x0 = (target_total - f64::from(2 * (n_remaining + n200) - n50)) / 4.0;

            search.closest_one(raw_n3x0.floor() as u32, raw_n3x0.ceil() as u32, &dist)
        }
        ManiaSearchKind::N50Missing => {
            let raw_n3x0 = (target_total - f64::from(n_remaining + 3 * n200 + n100)) / 5.0;

            search.closest_one(raw_n3x0.floor() as u32, raw_n3x0.ceil() as u32, &dist)
        }
        ManiaSearchKind::N200Given => {
            let min_n3x0 =
                ((target_total - f64::from(2 * (n_remaining + n200))) / 4.0).floor() as u32;
            let max_n3x0 =
                ((target_total - f64::from(n_remaining + 3 * n200)) / 5.0).ceil() as u32;

            let bounds = |new3x0: u32| {
                let raw_n100 = target_total - f64::from(n_remaining + 5 * new3x0 + 3 * n200);

                (raw_n100.floor() as u32, raw_n100.ceil() as u32)
            };

            search.closest_two(min_n3x0, max_n3x0, &bounds, &dist)
        }
        ManiaSearchKind::N100Given => {
            let min_n3x0 = (acc * f64::from(3 * n_remaining)
                - f64::from(2 * n_remaining - n100))
            .floor() as u32;
            let max_n3x0 = ((target_total - f64::from(n_remaining + n100)) / 5.0).ceil() as u32;

            let bounds = |new3x0: u32| {
                let raw_n200 = (target_total - f64::from(n_remaining + 5 * new3x0 + n100)) / 3.0;

                (raw_n200.floor() as u32, raw_n200.ceil() as u32)
            };

            search.closest_two(min_n3x0, max_n3x0, &bounds, &dist)
        }
        ManiaSearchKind::N50Given => {
            let min_n3x0 =
                ((target_total - f64::from(4 * n_remaining - 3 * n50)) / 2.0).floor() as u32;
            let max_n3x0 =
                ((target_total - f64::from(2 * n_remaining - n50)) / 4.0).ceil() as u32;

            let bounds = |new3x0: u32| {
                let raw_n200 = (target_total - f64::from(2 * n_remaining + 4 * new3x0)
                    + f64::from(n50))
                    / 2.0;

                (raw_n200.floor() as u32, raw_n200.ceil() as u32)
            };

            search.closest_two(min_n3x0, max_n3x0, &bounds, &dist)
        }
        ManiaSearchKind::NoneGiven => {
            let min_n3x0 = ((target_total - f64::from(4 * n_remaining)) / 5.0).floor() as u32;
            let max_n3x0 = ((target_total - f64::from(n_remaining)) / 5.0)
                .min(acc * f64::from(3 * n_objects) - f64::from(n_remaining))
                .ceil() as u32;

            let bounds_200 = |new3x0: u32| {
                let min_n200 = (acc * f64::from(3 * n_objects)
                    - f64::from(n_remaining + 2 * new3x0))
                .floor() as u32;
                let max_n200 =
                    ((target_total - f64::from(n_remaining + 5 * new3x0)) / 3.0).ceil() as u32;

                (min_n200, max_n200)
            };

            let bounds_100 = |new3x0: u32, new200: u32| {
                let raw_n100 = target_total - f64::from(n_remaining + 5 * new3x0 + 3 * new200);

                (raw_n100.floor() as u32, raw_n100.ceil() as u32)
            };

            search.closest_all(min_n3x0, max_n3x0, &bounds_200, &bounds_100, &dist)
        }
    }
}

fn mania_searches(n_objects: u32, misses: u32, acc: f64) -> Vec<ManiaSearch> {
    let counts = [None, Some(0), Some(4), Some(35)];
    let mut searches = Vec::new();

    for n320 in [None, Some(2), Some(50)] {
        for n300 in [None, Some(1), Some(70)] {
            for n200 in counts {
                for n100 in counts {
                    for n50 in counts {
                        let mut pp = ManiaPP::new().accuracy(acc.to_bits()).misses(misses);

                        if let Some(n) = n320 {
                            pp = pp.n320(n);
                        }
                        if let Some(n) = n300 {
                            pp = pp.n300(n);
                        }
                        if let Some(n) = n200 {
                            pp = pp.n200(n);
                        }
                        if let Some(n) = n100 {
                            pp = pp.n100(n);
                        }
                        if let Some(n) = n50 {
                            pp = pp.n50(n);
                        }

                        if let ManiaHitResults::Open(search) = pp.generate_state(n_objects) {
                            searches.push(search);
                        }
                    }
                }
            }
        }
    }

    searches
}

#[test]
fn mania_search_finds_what_the_loops_find() {
    for n_objects in [0, 1, 10, 48] {
        for misses in [0, 3] {
            for acc in [0.0, 0.25, 0.5, 0.77, 0.9, 0.95, 0.983, 1.0] {
                for search in mania_searches(n_objects, misses, acc) {
                    assert_eq!(
                        mania_by_library(&search, acc),
                        mania_by_loop(&search, acc),
                        "{search:?} for {acc}"
                    );
                }
            }
        }
    }
}

#[test]
fn mania_search_on_a_longer_chart() {
    for acc in accuracies() {
        for priority in [HitResultPriority::BestCase, HitResultPriority::WorstCase] {
            let pp = ManiaPP::new()
                .accuracy(acc.to_bits())
                .misses(7)
                .hitresult_priority(priority);

            let ManiaHitResults::Open(search) = pp.generate_state(400) else {
                panic!("settled without a search");
            };

            let found = mania_by_library(&search, acc);

            assert_eq!(found, mania_by_loop(&search, acc), "{acc}");

            let state = search
                .try_settle(found.0, found.1, found.2, found.3)
                .unwrap();

            assert_eq!(state.misses, 7);
            assert!(state.total_hits() <= 400);
        }
    }
}

#[test]
fn mania_counts_that_do_not_fit_are_not_settled() {
    let pp = ManiaPP::new().accuracy(0.9f64.to_bits()).n320(30).n100(2);
    let ManiaHitResults::Open(search) = pp.generate_state(50) else {
        panic!("settled without a search");
    };

    assert!(search.try_settle(29, 0, 2, 0).is_none());
    assert!(search.try_settle(30, 0, 2, 0).is_some());
    assert!(search.try_settle(u32::MAX, 1, 2, 0).is_none());
}

// --------------------------------------------------------------- engine

#[test]
fn the_first_of_the_closest_candidates_is_taken() {
    let start = Closest {
        dist: f64::MAX.to_bits(),
        found: None,
    };

    let dists = [3.0, 1.5, 1.5, 2.0, f64::NAN, 1.5];
    let dist = |candidate: u32| f64::to_bits(dists[candidate as usize - 10]);
    let best = scan(start, 10, 15, &dist);

    assert_eq!(best.found, Some(11));
    assert_eq!(f64::from_bits(best.dist), 1.5);

    assert_eq!(scan(start, 15, 10, &dist), start);
    assert_eq!(scan(start, 14, 14, &dist), start);
    assert_eq!(consider(start, 4, 2.5f64.to_bits()).found, Some(4));
    assert_eq!(consider(best, 4, 1.5f64.to_bits()), best);
    assert_eq!(consider(best, 4, f64::NAN.to_bits()), best);
}

#[test]
fn nested_searches_look_at_every_candidate_within_bounds() {
    let start = Closest2 {
        dist: f64::INFINITY.to_bits(),
        found: None,
    };

    // Second candidates from 1 to 6, cut down to what 8 leaves of the first.
    let bounds = |_first: u32| (1, 6);
    let dist = |first: u32, second: u32| (f64::from(first + second) - 9.25).abs().to_bits();
    let best = scan2(start, 0, 8, 8, &bounds, &dist);

    // 9 is out of reach, 8 is reached first by 2 and 6.
    assert_eq!(best.found, Some((2, 6)));
    assert_eq!(f64::from_bits(best.dist), 1.25);

    let start = Closest3 {
        dist: f64::INFINITY.to_bits(),
        found: None,
    };

    let bounds_b = |_a: u32| (0, 100);
    let bounds_c = |_a: u32, _b: u32| (0, 100);
    let dist = |a: u32, b: u32, c: u32| {
        (f64::from(100 * a + 10 * b + c) - 352.0).abs().to_bits()
    };
    let best = scan3(start, 0, 9, 9, &bounds_b, &bounds_c, &dist);

    assert_eq!(best.found, Some((3, 5, 1)));
    assert_eq!(f64::from_bits(best.dist), 1.0);
}
