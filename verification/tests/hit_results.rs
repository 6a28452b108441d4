use rosu_pp_older::any_2024::difficulty::Difficulty;
use rosu_pp_older::mania_2022::pp::{
    ManiaCounts, ManiaHitResults, ManiaScoreState, ManiaSearch, ManiaSearchKind,
};
use rosu_pp_older::mania_2022::ManiaPP;
use rosu_pp_older::osu_2022::pp::{
    accuracy_parts as osu_accuracy_parts, OsuHitResults as OsuHitResults2022,
    OsuSearchKind as OsuSearchKind2022,
};
use rosu_pp_older::osu_2022::OsuPP as OsuPP2022;
use rosu_pp_older::osu_2024::performance::{
    n_large_tick_miss, n_slider_ends_dropped, total_imperfect_hits, OsuHitResults,
    OsuObjectCounts, OsuSearchKind,
};
use rosu_pp_older::osu_2024::OsuPP;
use rosu_pp_older::taiko_2024::performance::{
    accuracy_parts as taiko_accuracy_parts, TaikoHitResults, TaikoScoreState,
};
use rosu_pp_older::taiko_2024::TaikoPP;
use rosu_pp_older::util::mods::GameMods;
use rosu_pp_older::util::priority::HitResultPriority;
use rosu_pp_older::util::score_state::{OsuScoreOrigin, OsuScoreState};

fn taiko_settled(results: TaikoHitResults) -> TaikoScoreState {
    match results {
        TaikoHitResults::Settled(state) => state,
        TaikoHitResults::Open(search) => panic!("left open: {search:?}"),
    }
}

#[test]
fn taiko_without_counts_is_a_full_combo() {
    let state = taiko_settled(TaikoPP::new().generate_state(100));

    assert_eq!(
        state,
        TaikoScoreState {
            max_combo: 100,
            n300: 100,
            n100: 0,
            misses: 0
        }
    );
    assert_eq!(state.total_hits(), 100);
}

#[test]
fn taiko_worst_case_fills_with_100s() {
    let mut pp = TaikoPP::new()
        .misses(3)
        .hitresult_priority(HitResultPriority::WorstCase);
    let state = taiko_settled(pp.generate_state(50));

    assert_eq!(
        state,
        TaikoScoreState {
            max_combo: 47,
            n300: 0,
            n100: 47,
            misses: 3
        }
    );
    assert_eq!(pp.n100, Some(47));
    assert_eq!(pp.n300, Some(0));
    assert_eq!(pp.combo, Some(47));
    assert_eq!(pp.misses, Some(3));
}

#[test]
fn taiko_given_counts_are_cut_down() {
    let state = taiko_settled(
        TaikoPP::new()
            .n300(500)
            .n100(7)
            .misses(20)
            .combo(1000)
            .generate_state(30),
    );

    assert_eq!(
        state,
        TaikoScoreState {
            max_combo: 10,
            n300: 10,
            n100: 7,
            misses: 20
        }
    );
}

#[test]
fn taiko_passed_objects_limit_the_results() {
    let state = taiko_settled(
        TaikoPP::new()
            .passed_objects(40)
            .n100(5)
            .misses(1)
            .generate_state(100),
    );

    assert_eq!(state.n300 + state.n100 + state.misses, 40);
    assert_eq!((state.n300, state.n100, state.misses), (34, 5, 1));
    assert_eq!(state.max_combo, 99);
}

#[test]
fn taiko_accuracy_with_one_count_given_needs_no_search() {
    let acc = 0.9f64.to_bits();
    let with_300 = taiko_settled(TaikoPP::new().accuracy(acc).n300(70).misses(5).generate_state(100));
    let with_100 = taiko_settled(TaikoPP::new().accuracy(acc).n100(10).generate_state(100));

    assert_eq!((with_300.n300, with_300.n100, with_300.misses), (70, 25, 5));
    assert_eq!((with_100.n300, with_100.n100, with_100.misses), (90, 10, 0));
}

#[test]
fn taiko_accuracy_without_counts_is_left_open() {
    let mut pp = TaikoPP::new().accuracy(0.95f64.to_bits()).misses(4).combo(60);

    let TaikoHitResults::Open(search) = pp.generate_state(80) else {
        panic!("settled without a search");
    };

    assert_eq!(search.total_result_count, 80);
    assert_eq!(search.n_remaining, 76);
    assert_eq!(search.misses, 4);
    assert_eq!(search.max_combo, 60);

    // The search itself: the split of the remaining results that comes closest.
    let target = 0.95;
    let mut best = (f64::MAX, 0, 0);

    for n300 in 0..=search.n_remaining {
        let n100 = search.n_remaining - n300;
        let (earned, possible) = taiko_accuracy_parts(n300, n100, search.misses);
        let dist = (target - f64::from(earned) / f64::from(possible)).abs();

        if dist < best.0 {
            best = (dist, n300, n100);
        }
    }

    let state = pp.settle(&search, best.1, best.2);

    assert_eq!((state.n300, state.n100, state.misses), (76, 0, 4));
    assert_eq!(state.max_combo, 60);
    assert_eq!(pp.n300, Some(76));
    assert_eq!(pp.n100, Some(0));
}

#[test]
fn taiko_accuracy_parts_of_a_score() {
    assert_eq!(taiko_accuracy_parts(10, 5, 5), (25, 40));
    assert_eq!(taiko_accuracy_parts(0, 0, 0), (0, 0));
}

#[test]
fn taiko_state_is_taken_over() {
    let state = TaikoScoreState {
        max_combo: 12,
        n300: 10,
        n100: 2,
        misses: 1,
    };
    let pp = TaikoPP::new().state(state);

    assert_eq!((pp.combo, pp.n300, pp.n100, pp.misses), (Some(12), Some(10), Some(2), Some(1)));
    assert_eq!(taiko_settled(TaikoPP::new().state(state).generate_state(13)), state);
}

#[test]
fn taiko_calculation_is_repeatable() {
    let build = || {
        TaikoPP::new()
            .mods(GameMods::Legacy(64))
            .difficulty(Difficulty::new().passed_objects(33))
            .n100(4)
            .misses(2)
    };

    assert_eq!(build().generate_state(77), build().generate_state(77));
}

fn osu_2022_settled(results: OsuHitResults2022) -> OsuScoreState {
    match results {
        OsuHitResults2022::Settled(state) => state,
        OsuHitResults2022::Open(search) => panic!("left open: {search:?}"),
    }
}

#[test]
fn osu_2022_best_case_fills_the_first_missing_count() {
    let state = osu_2022_settled(OsuPP2022::new().n100(3).misses(2).generate_state(150, 100));

    assert_eq!((state.n300, state.n100, state.n50, state.misses), (95, 3, 0, 2));
    assert_eq!(state.max_combo, 148);
    assert_eq!(state.total_hits(), 100);

    let state = osu_2022_settled(OsuPP2022::new().n300(90).misses(2).generate_state(150, 100));

    assert_eq!((state.n300, state.n100, state.n50), (90, 8, 0));

    let state = osu_2022_settled(OsuPP2022::new().n300(90).n100(3).generate_state(150, 100));

    assert_eq!((state.n300, state.n100, state.n50), (90, 3, 7));
}

#[test]
fn osu_2022_worst_case_fills_from_the_other_end() {
    let worst = || OsuPP2022::new().hitresult_priority(HitResultPriority::WorstCase);

    let state = osu_2022_settled(worst().n100(3).misses(2).generate_state(150, 100));
    assert_eq!((state.n300, state.n100, state.n50, state.misses), (0, 3, 95, 2));

    let state = osu_2022_settled(worst().n50(3).generate_state(150, 100));
    assert_eq!((state.n300, state.n100, state.n50), (0, 97, 3));

    let state = osu_2022_settled(worst().n50(3).n100(4).generate_state(150, 100));
    assert_eq!((state.n300, state.n100, state.n50), (93, 4, 3));

    let state = osu_2022_settled(worst().n300(1).n50(3).n100(4).generate_state(150, 100));
    assert_eq!((state.n300, state.n100, state.n50), (1, 4, 95));
}

#[test]
fn osu_2022_too_many_given_results_stay() {
    let state = osu_2022_settled(
        OsuPP2022::new()
            .n300(80)
            .n100(80)
            .n50(80)
            .misses(10)
            .combo(500)
            .generate_state(120, 100),
    );

    assert_eq!((state.n300, state.n100, state.n50, state.misses), (80, 80, 80, 10));
    assert_eq!(state.max_combo, 110);
}

#[test]
fn osu_2022_accuracy_with_two_counts_needs_no_search() {
    let acc = |pp: OsuPP2022| pp.accuracy(0.97f64.to_bits());

    let state = osu_2022_settled(acc(OsuPP2022::new()).n300(90).n100(5).generate_state(100, 100));
    assert_eq!((state.n300, state.n100, state.n50), (90, 5, 5));

    let state = osu_2022_settled(acc(OsuPP2022::new()).n300(90).n50(5).generate_state(100, 100));
    assert_eq!((state.n300, state.n100, state.n50), (90, 5, 5));

    let state = osu_2022_settled(acc(OsuPP2022::new()).n100(9).n50(1).generate_state(100, 100));
    assert_eq!((state.n300, state.n100, state.n50), (90, 9, 1));
}

#[test]
fn osu_2022_accuracy_with_fewer_counts_is_left_open() {
    let acc = |pp: OsuPP2022| pp.accuracy(0.97f64.to_bits()).misses(2);

    let kinds = [
        (acc(OsuPP2022::new()).n300(90), OsuSearchKind2022::N300Given, 8, (90, 0, 0)),
        (acc(OsuPP2022::new()).n100(6), OsuSearchKind2022::N100Given, 92, (0, 6, 0)),
        (acc(OsuPP2022::new()).n50(1), OsuSearchKind2022::N50Given, 97, (0, 0, 1)),
        (acc(OsuPP2022::new()), OsuSearchKind2022::NoneGiven, 98, (0, 0, 0)),
    ];

    for (pp, kind, n_remaining, given) in kinds {
        let OsuHitResults2022::Open(search) = pp.generate_state(200, 100) else {
            panic!("settled without a search");
        };

        assert_eq!(search.kind, kind);
        assert_eq!(search.n_objects, 100);
        assert_eq!(search.n_remaining, n_remaining);
        assert_eq!((search.n300, search.n100, search.n50), given);
        assert_eq!(search.misses, 2);
        assert_eq!(search.max_combo, 198);
    }
}

#[test]
fn osu_2022_settle_shifts_only_after_a_free_search() {
    let free = |priority| {
        let pp = OsuPP2022::new()
            .accuracy(0.9f64.to_bits())
            .hitresult_priority(priority);

        match pp.generate_state(100, 100) {
            OsuHitResults2022::Open(search) => search,
            OsuHitResults2022::Settled(_) => panic!("settled without a search"),
        }
    };

    let best = free(HitResultPriority::BestCase).settle(80, 7, 13);
    assert_eq!((best.n300, best.n100, best.n50), (77, 22, 1));

    let worst = free(HitResultPriority::WorstCase).settle(80, 13, 7);
    assert_eq!((worst.n300, worst.n100, worst.n50), (82, 3, 15));

    for state in [best, worst] {
        assert_eq!(state.n300 + state.n100 + state.n50, 100);
    }

    assert_eq!(osu_accuracy_parts(77, 22, 1, 0), osu_accuracy_parts(80, 7, 13, 0));
    assert_eq!(osu_accuracy_parts(82, 3, 15, 0), osu_accuracy_parts(80, 13, 7, 0));

    let OsuHitResults2022::Open(given) = OsuPP2022::new()
        .accuracy(0.9f64.to_bits())
        .n300(80)
        .generate_state(100, 100)
    else {
        panic!("settled without a search");
    };

    let state = given.settle(80, 7, 13);
    assert_eq!((state.n300, state.n100, state.n50), (80, 7, 13));
}

#[test]
fn osu_accuracy_parts_of_a_score() {
    assert_eq!(osu_accuracy_parts(90, 5, 3, 2), (6 * 90 + 2 * 5 + 3, 600));
    assert_eq!(osu_accuracy_parts(0, 0, 0, 0), (0, 0));
}

fn chart() -> OsuObjectCounts {
    OsuObjectCounts {
        max_combo: 300,
        n_objects: 100,
        n_sliders: 40,
        n_large_ticks: 60,
    }
}

fn osu_settled(results: OsuHitResults) -> OsuScoreState {
    match results {
        OsuHitResults::Settled(state) => state,
        OsuHitResults::Open(search) => panic!("left open: {search:?}"),
    }
}

#[test]
fn osu_2024_stable_scores_count_no_slider_parts() {
    let mut pp = OsuPP::new()
        .lazer(false)
        .large_tick_hits(12)
        .slider_end_hits(30)
        .misses(1);

    assert_eq!(pp.score_origin(chart()), OsuScoreOrigin::Stable);

    let state = osu_settled(pp.generate_state(chart()));

    assert_eq!((state.large_tick_hits, state.small_tick_hits, state.slider_end_hits), (0, 0, 0));
    assert_eq!((state.n300, state.n100, state.n50, state.misses), (99, 0, 0, 1));
    assert_eq!(state.max_combo, 299);
    assert_eq!(pp.large_tick_hits, Some(0));
    assert_eq!(pp.n300, Some(99));
}

#[test]
fn osu_2024_lazer_scores_count_slider_ends() {
    let mut pp = OsuPP::new().large_tick_hits(80).slider_end_hits(30);

    assert_eq!(
        pp.score_origin(chart()),
        OsuScoreOrigin::WithSliderAcc {
            max_large_ticks: 60,
            max_slider_ends: 40
        }
    );

    let state = osu_settled(pp.generate_state(chart()));

    assert_eq!((state.large_tick_hits, state.small_tick_hits, state.slider_end_hits), (60, 0, 30));
    assert_eq!(n_slider_ends_dropped(40, &state), 10);
    assert_eq!(n_large_tick_miss(60, &state), 0);
    assert_eq!(total_imperfect_hits(&state), 0);
    assert_eq!(
        state.accuracy_parts(pp.score_origin(chart())),
        (300 * 100 + 150 * 30 + 30 * 60, 300 * 100 + 150 * 40 + 30 * 60)
    );
}

#[test]
fn osu_2024_classic_lazer_scores_count_small_ticks() {
    let classic = GameMods::Intermode {
        bits: 0,
        blinds: false,
        traceable: false,
        classic: true,
    };
    let mut pp = OsuPP::new().mods(classic).small_tick_hits(35);

    assert_eq!(
        pp.score_origin(chart()),
        OsuScoreOrigin::WithoutSliderAcc {
            max_large_ticks: 100,
            max_small_ticks: 40
        }
    );

    let state = osu_settled(pp.generate_state(chart()));

    assert_eq!((state.large_tick_hits, state.small_tick_hits, state.slider_end_hits), (100, 35, 0));
}

#[test]
fn osu_2024_search_carries_the_slider_values() {
    let mut pp = OsuPP::new()
        .accuracy(0.98f64.to_bits())
        .slider_end_hits(38)
        .misses(1)
        .combo(250);

    let OsuHitResults::Open(search) = pp.generate_state(chart()) else {
        panic!("settled without a search");
    };

    assert_eq!(search.kind, OsuSearchKind::NoneGiven);
    assert_eq!(search.n_remaining, 99);
    assert_eq!(search.slider_acc_value, 150 * 38 + 30 * 60);
    assert_eq!(search.max_slider_acc_value, 150 * 40 + 30 * 60);
    assert_eq!(search.max_combo, 250);
    assert_eq!(pp.misses, Some(1));
    assert_eq!(pp.n300, None);

    let state = pp.settle(&search, 95, 3, 1);

    assert_eq!((state.n300, state.n100, state.n50, state.misses), (95, 3, 1, 1));
    assert_eq!(state.slider_end_hits, 38);
    assert_eq!(pp.n300, Some(95));
    assert_eq!(pp.n50, Some(1));
}

fn mania_settled(results: ManiaHitResults) -> ManiaScoreState {
    match results {
        ManiaHitResults::Settled(state) => state,
        ManiaHitResults::Open(search) => panic!("left open: {search:?}"),
    }
}

fn mania_open(results: ManiaHitResults) -> ManiaSearch {
    match results {
        ManiaHitResults::Open(search) => search,
        ManiaHitResults::Settled(state) => panic!("settled: {state:?}"),
    }
}

fn counts(state: ManiaScoreState) -> [u32; 6] {
    [state.n320, state.n300, state.n200, state.n100, state.n50, state.misses]
}

#[test]
fn mania_without_accuracy_fills_by_priority() {
    let best = mania_settled(ManiaPP::new().n300(10).misses(5).generate_state(100));
    assert_eq!(counts(best), [85, 10, 0, 0, 0, 5]);
    assert_eq!(best.total_hits(), 100);

    let best = mania_settled(ManiaPP::new().n320(50).n300(10).misses(5).generate_state(100));
    assert_eq!(counts(best), [50, 10, 35, 0, 0, 5]);

    let worst = || ManiaPP::new().hitresult_priority(HitResultPriority::WorstCase);

    let state = mania_settled(worst().n300(10).misses(5).generate_state(100));
    assert_eq!(counts(state), [0, 10, 0, 0, 85, 5]);

    let state = mania_settled(worst().n50(1).n100(2).n200(3).generate_state(100));
    assert_eq!(counts(state), [0, 94, 3, 2, 1, 0]);

    let all = |pp: ManiaPP| pp.n320(1).n300(1).n200(1).n100(1).n50(1);

    assert_eq!(counts(mania_settled(all(ManiaPP::new()).generate_state(10))), [6, 1, 1, 1, 1, 0]);
    assert_eq!(counts(mania_settled(all(worst()).generate_state(10))), [1, 1, 1, 1, 6, 0]);
}

#[test]
fn mania_accuracy_decides_nothing_where_counts_do() {
    let acc = || ManiaPP::new().accuracy(0.5f64.to_bits());

    let state = mania_settled(acc().n320(1).n300(2).n200(3).n100(4).generate_state(20));
    assert_eq!(counts(state), [1, 2, 3, 4, 10, 0]);

    let state = mania_settled(acc().n300(2).n200(3).n100(4).n50(5).generate_state(20));
    assert_eq!(counts(state), [6, 2, 3, 4, 5, 0]);

    let state = mania_settled(acc().n200(3).n100(4).n50(5).generate_state(20));
    assert_eq!(counts(state), [8, 0, 3, 4, 5, 0]);

    let state = mania_settled(
        acc()
            .hitresult_priority(HitResultPriority::WorstCase)
            .n200(3)
            .n100(4)
            .n50(5)
            .generate_state(20),
    );
    assert_eq!(counts(state), [0, 8, 3, 4, 5, 0]);
}

#[test]
fn mania_searches_by_what_is_given() {
    let acc = || ManiaPP::new().accuracy(0.9f64.to_bits()).misses(1);

    let kinds = [
        (acc().n100(1).n50(1), ManiaSearchKind::N200Missing),
        (acc().n320(9).n200(1).n50(1), ManiaSearchKind::N100Missing),
        (acc().n300(9).n200(1).n100(1), ManiaSearchKind::N50Missing),
        (acc().n200(1), ManiaSearchKind::N200Given),
        (acc().n320(3).n300(4).n100(1), ManiaSearchKind::N100Given),
        (acc().n50(1), ManiaSearchKind::N50Given),
        (acc(), ManiaSearchKind::NoneGiven),
        (acc().n320(3).n300(4), ManiaSearchKind::NoneGiven),
    ];

    for (pp, kind) in kinds {
        let search = mania_open(pp.generate_state(50));

        assert_eq!(search.kind, kind);
        assert_eq!(search.n_objects, 50);
        assert_eq!(search.n_remaining, 49);
        assert_eq!(search.misses, 1);
    }
}

#[test]
fn mania_search_starts_from_what_is_unaccounted() {
    let search = mania_open(
        ManiaPP::new()
            .accuracy(0.9f64.to_bits())
            .n320(10)
            .n100(5)
            .misses(2)
            .generate_state(60),
    );

    assert_eq!(search.n3x0, 60 - 10 - 5 - 2);
    assert!(search.n320_given);
    assert!(!search.n300_given);
    assert_eq!(
        search.counts,
        ManiaCounts {
            n320: 10,
            n300: 0,
            n200: 0,
            n100: 5,
            n50: 0
        }
    );
    assert_eq!(search.n3x0_bounds(4, 30), (10, 30));
    assert_eq!(search.n3x0_bounds(12, 30), (12, 30));
}

#[test]
fn mania_bounds_with_both_or_neither_given() {
    let both = mania_open(
        ManiaPP::new()
            .accuracy(0.9f64.to_bits())
            .n320(30)
            .n300(40)
            .generate_state(60),
    );
    let neither = mania_open(ManiaPP::new().accuracy(0.9f64.to_bits()).generate_state(60));
    let second = mania_open(
        ManiaPP::new()
            .accuracy(0.9f64.to_bits())
            .n300(7)
            .generate_state(60),
    );

    assert_eq!(both.n3x0_bounds(1, 2), (60, 60));
    assert_eq!(neither.n3x0_bounds(1, 2), (1, 2));
    assert_eq!(second.n3x0_bounds(1, 9), (7, 9));
}

#[test]
fn mania_settle_splits_the_sum() {
    let open = |pp: ManiaPP| mania_open(pp.accuracy(0.9f64.to_bits()).n200(4).generate_state(60));

    let best = open(ManiaPP::new()).settle(50, 4, 3, 3);
    assert_eq!(counts(best), [50, 0, 4, 3, 3, 0]);

    let worst = open(ManiaPP::new().hitresult_priority(HitResultPriority::WorstCase))
        .settle(50, 4, 3, 3);
    assert_eq!(counts(worst), [0, 50, 4, 3, 3, 0]);

    let first = open(ManiaPP::new().n320(12)).settle(50, 4, 3, 3);
    assert_eq!(counts(first), [12, 38, 4, 3, 3, 0]);

    let second = open(ManiaPP::new().n300(12)).settle(50, 4, 3, 3);
    assert_eq!(counts(second), [38, 12, 4, 3, 3, 0]);
}

#[test]
fn mania_settle_trades_200s_in_the_best_case() {
    let free = |pp: ManiaPP| mania_open(pp.accuracy(0.9f64.to_bits()).generate_state(60));

    let best = free(ManiaPP::new()).settle(40, 9, 6, 5);
    assert_eq!(counts(best), [44, 0, 1, 10, 5, 0]);
    assert_eq!(best.total_hits(), 60);
    assert_eq!(
        best.accuracy_parts(),
        ManiaScoreState {
            n320: 40,
            n300: 0,
            n200: 9,
            n100: 6,
            n50: 5,
            misses: 0
        }
        .accuracy_parts()
    );

    let worst = free(ManiaPP::new().hitresult_priority(HitResultPriority::WorstCase))
        .settle(40, 9, 6, 5);
    assert_eq!(counts(worst), [0, 40, 9, 6, 5, 0]);

    let given = free(ManiaPP::new().n320(10)).settle(40, 9, 6, 5);
    assert_eq!(counts(given), [10, 30, 9, 6, 5, 0]);
}

#[test]
fn mania_accuracies_of_a_score() {
    let state = ManiaScoreState {
        n320: 5,
        n300: 4,
        n200: 3,
        n100: 2,
        n50: 1,
        misses: 1,
    };

    assert_eq!(state.total_hits(), 16);
    assert_eq!(state.accuracy_parts(), (6 * 9 + 4 * 3 + 2 * 2 + 1, 96));
    assert_eq!(state.custom_accuracy_parts(), (160 + 120 + 60 + 20 + 5, 16 * 32));
    assert_eq!(ManiaScoreState::default().total_hits(), 0);
}
