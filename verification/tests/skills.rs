use rosu_pp_older::fruits_ppv1::movement::Movement;
use rosu_pp_older::mania_2018::{ManiaPP as ManiaPP2018, ManiaStars as ManiaStars2018};
use rosu_pp_older::mania_2022::mania_object::ObjectParams;
use rosu_pp_older::mania_ppv1::ManiaPP as ManiaPPv1;
use rosu_pp_older::osu_2022::{has_star_rating, slider_factor, slider_factor_is_ratio, take_diff_objects};
use rosu_pp_older::taiko_2022::{
    convert_penalty, count_objects, is_rescaled, n_processed, ConvertPenalty, ObjectCount,
};
use rosu_pp_older::taiko_2024::difficulty::skills::stamina::{
    mono_index, places_from_tenth, MonoStreak, Skill, Stamina, StaminaEvaluator, Step,
};
use rosu_pp_older::taiko_ppv1::strain::{ColorState, ColorSwitch};
use rosu_pp_older::util::sync::{Arena, RefCount};

const SECTION_LEN: f64 = 400.0;
const STRAIN_DECAY_BASE: f64 = 0.4;

fn strain_decay(ms: f64) -> f64 {
    STRAIN_DECAY_BASE.powf(ms / 1000.0)
}

/// Feeds one object to the skill the way a calculation does: sections that
/// ended before the object are rolled over, then the strain of the object is
/// recorded.
fn feed(skill: &mut Skill, first: bool, start_time: f64, delta_time: f64, prev_time: f64, add: f64) {
    if first {
        let end = (start_time / SECTION_LEN).ceil() * SECTION_LEN;
        skill.inner.set_section_end(end.to_bits());
    }

    while let Step::NewSection { boundary } = skill.process(start_time.to_bits()) {
        let boundary = f64::from_bits(boundary);

        let decayed = f64::from_bits(skill.inner.curr_strain()) * strain_decay(boundary - prev_time);

        skill
            .inner
            .start_new_section_from(decayed.to_bits(), (boundary + SECTION_LEN).to_bits());
    }

    let strain = f64::from_bits(skill.inner.curr_strain()) * strain_decay(delta_time) + add;
    skill.inner.record(strain.to_bits(), strain.to_bits());
}

#[test]
fn sections_roll_over_between_distant_objects() {
    let mut skill = Skill::new(Stamina::new(false));

    // Two objects that are 3.5 sections apart.
    let first = 100.0;
    let second = first + 3.5 * SECTION_LEN;

    feed(&mut skill, true, first, 0.0, 0.0, 2.0);
    let strain_at_first = f64::from_bits(skill.inner.curr_strain());
    feed(&mut skill, false, second, second - first, first, 1.0);

    let peaks: Vec<f64> = skill
        .into_inner()
        .get_curr_strain_peaks()
        .into_vec()
        .into_iter()
        .map(f64::from_bits)
        .collect();

    assert_eq!(strain_at_first, 2.0);
    assert_eq!(peaks.len(), 4);
    assert_eq!(peaks[0], strain_at_first);
    assert_eq!(peaks[1], strain_at_first * strain_decay(400.0 - first));
    assert_eq!(peaks[2], strain_at_first * strain_decay(800.0 - first));
    assert_eq!(peaks[3], strain_at_first * strain_decay(second - first) + 1.0);
}

#[test]
fn a_skill_without_objects_has_one_peak_of_zero() {
    let peaks = Stamina::new(false).get_curr_strain_peaks();

    assert_eq!(peaks.len(), 1);
    assert_eq!(peaks.into_vec(), vec![0.0f64.to_bits()]);
}

#[test]
fn objects_in_one_section_leave_one_peak() {
    let mut skill = Skill::new(Stamina::new(false));

    feed(&mut skill, true, 10.0, 0.0, 0.0, 1.0);
    feed(&mut skill, false, 200.0, 190.0, 10.0, 3.0);
    feed(&mut skill, false, 400.0, 200.0, 200.0, 0.5);

    assert_eq!(skill.process(400.0f64.to_bits()), Step::Evaluate);
    assert_eq!(f64::from_bits(skill.inner.section_end()), 400.0);

    let peaks = skill.into_inner().get_curr_strain_peaks().into_vec();
    let highest = 1.0 * strain_decay(190.0) + 3.0;

    assert_eq!(peaks, vec![highest.to_bits()]);
}

#[test]
fn charts_of_one_colour_start_sections_at_zero() {
    let mut skill = Skill::new(Stamina::new(true));

    feed(&mut skill, true, 0.0, 0.0, 0.0, 5.0);
    feed(&mut skill, false, 900.0, 900.0, 0.0, 0.0);

    let peaks: Vec<f64> = skill
        .into_inner()
        .get_curr_strain_peaks()
        .into_vec()
        .into_iter()
        .map(f64::from_bits)
        .collect();

    assert_eq!(peaks, vec![5.0, 0.0, 0.0, 5.0 * strain_decay(900.0)]);
}

#[test]
fn a_single_colour_carries_no_strain_over() {
    let single = Stamina::new(true);
    let mixed = Stamina::new(false);

    for decayed in [0.0f64, 0.75, 12.5, f64::MAX] {
        assert_eq!(single.initial_strain(decayed.to_bits()), 0.0f64.to_bits());
        assert_eq!(mixed.initial_strain(decayed.to_bits()), decayed.to_bits());
    }
}

#[test]
fn a_single_colour_counts_the_eased_strain() {
    let mut single = Stamina::new(true);
    let mut mixed = Stamina::new(false);

    assert_eq!(single.strain_value_at(8.0f64.to_bits(), 0.5f64.to_bits()), 0.5f64.to_bits());
    assert_eq!(mixed.strain_value_at(8.0f64.to_bits(), 0.5f64.to_bits()), 8.0f64.to_bits());

    single.record(8.0f64.to_bits(), 0.5f64.to_bits());
    mixed.record(8.0f64.to_bits(), 0.5f64.to_bits());

    assert_eq!(f64::from_bits(single.curr_strain()), 8.0);
    assert_eq!(f64::from_bits(mixed.curr_strain()), 8.0);

    single.start_new_section_from(3.0f64.to_bits(), 400.0f64.to_bits());
    mixed.start_new_section_from(3.0f64.to_bits(), 400.0f64.to_bits());
    single.save_curr_peak();
    mixed.save_curr_peak();

    let single: Vec<f64> =
        single.get_curr_strain_peaks().into_vec().into_iter().map(f64::from_bits).collect();
    let mixed: Vec<f64> =
        mixed.get_curr_strain_peaks().into_vec().into_iter().map(f64::from_bits).collect();

    assert_eq!(single, vec![0.0, 0.0]);
    assert_eq!(mixed, vec![3.0, 3.0]);
}

#[test]
fn a_first_object_at_a_boundary_adds_a_section() {
    let mut skill = Skill::new(Stamina::new(false));

    // The first section ends where the first object stands, so one more
    // section ends before the second object than with a later start.
    feed(&mut skill, true, 0.0, 0.0, 0.0, 2.0);
    feed(&mut skill, false, 3.5 * SECTION_LEN, 3.5 * SECTION_LEN, 0.0, 1.0);

    let peaks: Vec<f64> = skill
        .into_inner()
        .get_curr_strain_peaks()
        .into_vec()
        .into_iter()
        .map(f64::from_bits)
        .collect();

    assert_eq!(
        peaks,
        vec![
            2.0,
            2.0 * strain_decay(0.0),
            2.0 * strain_decay(400.0),
            2.0 * strain_decay(800.0),
            2.0 * strain_decay(1400.0) + 1.0,
        ]
    );
}

/// Feeds one object to the skill and lets the skill roll its sections over.
fn feed_rolling(skill: &mut Skill, first: bool, start_time: f64, delta_time: f64, prev_time: f64, add: f64) {
    if first {
        let end = (start_time / SECTION_LEN).ceil() * SECTION_LEN;
        skill.inner.set_section_end(end.to_bits());
    }

    let next_end = |end: u64| (f64::from_bits(end) + SECTION_LEN).to_bits();
    let decay = |strain: u64, end: u64| {
        (f64::from_bits(strain) * strain_decay(f64::from_bits(end) - prev_time)).to_bits()
    };

    assert!(skill.roll_over(start_time.to_bits(), &next_end, &decay));

    let strain = f64::from_bits(skill.inner.curr_strain()) * strain_decay(delta_time) + add;
    skill.inner.record(strain.to_bits(), strain.to_bits());
}

#[test]
fn rolling_over_saves_a_peak_for_each_section() {
    let mut skill = Skill::new(Stamina::new(false));

    // Two objects that are 3.5 sections apart.
    let first = 100.0;
    let second = first + 3.5 * SECTION_LEN;

    feed_rolling(&mut skill, true, first, 0.0, 0.0, 2.0);

    assert_eq!(f64::from_bits(skill.inner.section_end()), 400.0);

    feed_rolling(&mut skill, false, second, second - first, first, 1.0);

    assert_eq!(f64::from_bits(skill.inner.section_end()), 1600.0);

    let peaks: Vec<f64> = skill
        .into_inner()
        .get_curr_strain_peaks()
        .into_vec()
        .into_iter()
        .map(f64::from_bits)
        .collect();

    assert_eq!(
        peaks,
        vec![
            2.0,
            2.0 * strain_decay(300.0),
            2.0 * strain_decay(700.0),
            2.0 * strain_decay(1400.0) + 1.0,
        ]
    );
}

#[test]
fn rolling_over_agrees_with_single_steps() {
    let times = [0.0, 130.0, 390.0, 400.0, 401.0, 1999.5, 2000.0, 9000.25, 9000.25];

    for single in [false, true] {
        let mut stepped = Skill::new(Stamina::new(single));
        let mut rolled = Skill::new(Stamina::new(single));
        let mut prev = 0.0;

        for (i, &time) in times.iter().enumerate() {
            let add = 0.5 + i as f64;

            feed(&mut stepped, i == 0, time, time - prev, prev, add);
            feed_rolling(&mut rolled, i == 0, time, time - prev, prev, add);

            assert_eq!(stepped.inner.section_end(), rolled.inner.section_end());
            assert_eq!(stepped.inner.curr_strain(), rolled.inner.curr_strain());

            prev = time;
        }

        let stepped = stepped.into_inner().get_curr_strain_peaks().into_vec();
        let rolled = rolled.into_inner().get_curr_strain_peaks().into_vec();

        assert_eq!(stepped, rolled);
        assert_eq!(stepped.len(), 24);
    }
}

#[test]
fn rolling_over_stays_where_the_object_lies() {
    let mut skill = Skill::new(Stamina::new(false));

    skill.inner.set_section_end(400.0f64.to_bits());
    skill.inner.record(3.0f64.to_bits(), 3.0f64.to_bits());

    let next_end = |end: u64| (f64::from_bits(end) + SECTION_LEN).to_bits();
    let decay = |strain: u64, _: u64| strain;

    for time in [400.0, 399.0, -5.0, f64::NAN, f64::NEG_INFINITY] {
        assert!(skill.roll_over(f64::to_bits(time), &next_end, &decay));
        assert_eq!(f64::from_bits(skill.inner.section_end()), 400.0);
        assert!(skill.inner.has_room());
    }

    let peaks = skill.into_inner().get_curr_strain_peaks().into_vec();

    assert_eq!(peaks, vec![3.0f64.to_bits()]);
}

#[test]
fn place_in_a_run_of_one_colour() {
    let mut indices = Arena::new();
    let hits: Vec<RefCount> = (0..8).map(|idx| RefCount::new(&mut indices, idx)).collect();

    let mut streaks = Arena::new();
    let first = RefCount::new(
        &mut streaks,
        MonoStreak {
            hit_objects: hits[..3].iter().map(RefCount::downgrade).collect(),
        },
    );
    let second = RefCount::new(
        &mut streaks,
        MonoStreak {
            hit_objects: hits[3..].iter().map(RefCount::downgrade).collect(),
        },
    );

    assert_eq!(mono_index(Some(first.downgrade()), &streaks, &indices, 2), 2);
    assert_eq!(mono_index(Some(first.downgrade()), &streaks, &indices, 0), 0);
    assert_eq!(mono_index(Some(second.downgrade()), &streaks, &indices, 6), 3);
    assert_eq!(mono_index(Some(second.downgrade()), &streaks, &indices, 3), 0);

    // A hit without a run, a hit of another run, a run that is gone.
    assert_eq!(mono_index(None, &streaks, &indices, 6), 0);
    assert_eq!(mono_index(Some(first.downgrade()), &streaks, &indices, 6), 0);
    assert_eq!(mono_index(Some(second.downgrade()), &Arena::new(), &indices, 6), 0);

    // Hits that are gone are passed over.
    let few: Arena<usize> = Arena::new();
    assert_eq!(mono_index(Some(second.downgrade()), &streaks, &few, 6), 0);

    assert_eq!(places_from_tenth(0), 10);
    assert_eq!(places_from_tenth(10), 0);
    assert_eq!(places_from_tenth(25), -15);
}

#[test]
fn fingers_that_are_free() {
    let close = Some(299.9f64.to_bits());
    let far = Some(300.0f64.to_bits());

    assert_eq!(StaminaEvaluator::available_fingers_for(close, far), 2);
    assert_eq!(StaminaEvaluator::available_fingers_for(far, close), 2);
    assert_eq!(StaminaEvaluator::available_fingers_for(close, None), 2);
    assert_eq!(StaminaEvaluator::available_fingers_for(None, close), 2);
    assert_eq!(StaminaEvaluator::available_fingers_for(far, far), 4);
    assert_eq!(StaminaEvaluator::available_fingers_for(None, None), 4);
    assert_eq!(StaminaEvaluator::available_fingers_for(Some(f64::NAN.to_bits()), None), 4);
    assert_eq!(StaminaEvaluator::available_fingers_for(Some((-5.0f64).to_bits()), None), 2);
    assert_eq!(StaminaEvaluator::key_lookback(far, None), 3);
    assert_eq!(StaminaEvaluator::key_lookback(close, None), 1);
}

#[test]
fn convert_penalty_sets_in_above_eight() {
    let color = 1.5f64.to_bits();
    let mut stamina = 7.0f64;

    while stamina <= 9.0 {
        let expected = if stamina > 8.0 {
            ConvertPenalty::ConvertMultiInput
        } else {
            ConvertPenalty::Convert
        };

        assert_eq!(convert_penalty(true, color, stamina.to_bits()), expected, "{stamina}");
        assert_eq!(convert_penalty(false, color, stamina.to_bits()), ConvertPenalty::Native);

        stamina += 0.0625;
    }

    let just_above = f64::from_bits(8.0f64.to_bits() + 1);

    assert_eq!(convert_penalty(true, color, 8.0f64.to_bits()), ConvertPenalty::Convert);
    assert_eq!(
        convert_penalty(true, color, just_above.to_bits()),
        ConvertPenalty::ConvertMultiInput
    );
}

#[test]
fn convert_penalty_needs_little_colour() {
    let stamina = 8.5f64.to_bits();

    assert_eq!(
        convert_penalty(true, 1.999f64.to_bits(), stamina),
        ConvertPenalty::ConvertMultiInput
    );
    assert_eq!(convert_penalty(true, 2.0f64.to_bits(), stamina), ConvertPenalty::Convert);
    assert_eq!(convert_penalty(true, f64::NAN.to_bits(), stamina), ConvertPenalty::Convert);
    assert_eq!(convert_penalty(true, 0.0f64.to_bits(), f64::NAN.to_bits()), ConvertPenalty::Convert);
}

#[test]
fn star_rating_with_the_convert_penalty() {
    // The factor on the star rating for a colour rating of 1.5.
    let factor = |is_convert: bool, stamina: f64| {
        match convert_penalty(is_convert, 1.5f64.to_bits(), stamina.to_bits()) {
            ConvertPenalty::Native => 1.0,
            ConvertPenalty::Convert => 0.925,
            ConvertPenalty::ConvertMultiInput => 0.925 * 0.8,
        }
    };

    assert_eq!(factor(true, 7.0), 0.925);
    assert_eq!(factor(true, 8.0), 0.925);
    assert_eq!(factor(true, 8.01), 0.925 * 0.8);
    assert_eq!(factor(true, 9.0), 0.925 * 0.8);
    assert_eq!(factor(false, 9.0), 1.0);
}

#[test]
fn negative_ratings_are_not_rescaled() {
    assert!(is_rescaled(0.0f64.to_bits()));
    assert!(is_rescaled(3.5f64.to_bits()));
    assert!(is_rescaled((-0.0f64).to_bits()));
    assert!(!is_rescaled((-0.5f64).to_bits()));
    assert!(is_rescaled(f64::NAN.to_bits()));
}

#[test]
fn taiko_objects_are_counted_up_to_the_passed_hits() {
    let hits = [true, false, true, true, false, true, true];

    assert_eq!(
        count_objects(&hits, u32::MAX),
        ObjectCount {
            max_combo: 5,
            n_diff_objects: 7
        }
    );
    assert_eq!(
        count_objects(&hits, 3),
        ObjectCount {
            max_combo: 3,
            n_diff_objects: 4
        }
    );
    assert_eq!(
        count_objects(&hits, 0),
        ObjectCount {
            max_combo: 0,
            n_diff_objects: 0
        }
    );
    assert_eq!(n_processed(count_objects(&hits, u32::MAX)), 5);
}

#[test]
fn short_charts_have_no_difficulty_objects() {
    for len in 0..3 {
        let hits = vec![true; len];

        assert_eq!(n_processed(count_objects(&hits, u32::MAX)), 0);
    }

    assert_eq!(take_diff_objects(0, usize::MAX), 0);
    assert_eq!(take_diff_objects(1, usize::MAX), 0);
    assert_eq!(take_diff_objects(2, usize::MAX), 1);
    assert_eq!(take_diff_objects(10, 1), 0);
    assert_eq!(take_diff_objects(10, 4), 3);
    assert_eq!(take_diff_objects(10, 40), 9);
}

#[test]
fn slider_factor_is_one_without_aim() {
    let ratio = 0.875f64.to_bits();

    assert!(slider_factor_is_ratio(2.5f64.to_bits()));
    assert!(!slider_factor_is_ratio(0.0f64.to_bits()));
    assert!(!slider_factor_is_ratio(f64::NAN.to_bits()));
    assert_eq!(f64::from_bits(slider_factor(2.5f64.to_bits(), ratio)), 0.875);
    assert_eq!(f64::from_bits(slider_factor(0.0f64.to_bits(), f64::NAN.to_bits())), 1.0);
    assert_eq!(f64::from_bits(slider_factor((-1.0f64).to_bits(), ratio)), 1.0);
}

#[test]
fn star_rating_needs_some_performance() {
    assert!(has_star_rating(0.00002f64.to_bits()));
    assert!(!has_star_rating(0.00001f64.to_bits()));
    assert!(!has_star_rating(0.0f64.to_bits()));
    assert_eq!(has_star_rating(0.000_010_000_000_1f64.to_bits()), 0.000_010_000_000_1 > 0.00001);
}

#[test]
fn colour_changes_count_when_the_parity_changes() {
    let mut state = ColorState::new();
    let mut counted = Vec::new();

    // d d k k k d k k d
    for change in [false, true, false, false, true, true, false, true] {
        counted.push(state.has_color_change(change));
    }

    assert_eq!(counted, vec![false, false, false, false, true, false, false, true]);
    assert_eq!(state.same_color_count, 1);
    assert_eq!(state.last_color_switch, ColorSwitch::Even);

    state.reset();

    assert_eq!(state, ColorState::new());
    assert_eq!(state.last_color_switch, ColorSwitch::Unset);
}

#[test]
fn hits_that_make_no_pattern_forget_the_colours() {
    let mut state = ColorState::new();
    let near = 250.0f32.to_bits();

    assert_eq!(state.take_in(true, true, near, false), Some(false));
    assert_eq!(state.take_in(true, true, near, true), Some(false));
    assert_eq!(state.take_in(true, true, near, true), Some(true));
    assert_eq!(state.last_color_switch, ColorSwitch::Odd);

    assert_eq!(state.take_in(true, true, 1000.0f32.to_bits(), true), None);
    assert_eq!(state, ColorState::new());

    assert_eq!(state.take_in(true, true, 999.99f32.to_bits(), false), Some(false));
    assert_eq!(state.same_color_count, 2);
    assert_eq!(state.take_in(false, true, near, false), None);
    assert_eq!(state.take_in(true, false, near, false), None);
    assert_eq!(state.take_in(true, true, f32::NAN.to_bits(), false), None);
    assert_eq!(state, ColorState::new());
}

#[test]
fn movement_keeps_the_peak_of_a_section() {
    let mut movement = Movement::new();

    assert_eq!(f64::from_bits(movement.current_strain), 1.0);
    assert_eq!(movement.prev_time, None);

    movement.process(0.5f64.to_bits(), 10.0f64.to_bits());
    assert_eq!(f64::from_bits(movement.current_section_peak), 1.0);

    movement.process(3.5f64.to_bits(), 20.0f64.to_bits());
    assert_eq!(f64::from_bits(movement.current_section_peak), 3.5);
    assert_eq!(movement.prev_time, Some(20.0f64.to_bits()));

    movement.save_current_peak();
    movement.start_new_section_from(0.25f64.to_bits());
    movement.process(0.125f64.to_bits(), 800.0f64.to_bits());
    movement.save_current_peak();
    movement.moved(12.5f32.to_bits(), (-3.0f32).to_bits());

    assert_eq!(movement.strain_peaks, vec![3.5f64.to_bits(), 0.25f64.to_bits()]);
    assert_eq!(movement.last_player_position, Some(12.5f32.to_bits()));
}

#[test]
fn movement_rolls_over_the_sections_between_two_objects() {
    let section_len = 750.0;
    let decay_base: f64 = 0.2;
    let first = 100.0;
    let second = first + 3.5 * section_len;

    let mut movement = Movement::new();

    movement.process(2.0f64.to_bits(), f64::to_bits(first));

    let next_end = |end: u64| (f64::from_bits(end) + section_len).to_bits();
    let decay = |strain: u64, end: u64| {
        let left = f64::from_bits(strain) * decay_base.powf((f64::from_bits(end) - first) / 1000.0);

        left.to_bits()
    };

    let end = movement.roll_sections(second.to_bits(), 750.0f64.to_bits(), &next_end, &decay);

    assert_eq!(f64::from_bits(end), 3000.0);

    movement.process(1.5f64.to_bits(), f64::to_bits(second));
    movement.save_current_peak();

    let peaks: Vec<f64> = movement.strain_peaks.iter().map(|b| f64::from_bits(*b)).collect();

    assert_eq!(
        peaks,
        vec![
            2.0,
            2.0 * decay_base.powf(650.0 / 1000.0),
            2.0 * decay_base.powf(1400.0 / 1000.0),
            f64::max(1.5, 2.0 * decay_base.powf(2150.0 / 1000.0)),
        ]
    );
}

#[test]
fn movement_stays_in_its_section() {
    let mut movement = Movement::new();

    movement.process(2.0f64.to_bits(), 10.0f64.to_bits());

    let next_end = |end: u64| (f64::from_bits(end) + 750.0).to_bits();
    let decay = |strain: u64, _: u64| strain;

    for time in [750.0, 20.0, -1.0, f64::NAN] {
        let end = movement.roll_sections(f64::to_bits(time), 750.0f64.to_bits(), &next_end, &decay);

        assert_eq!(f64::from_bits(end), 750.0);
        assert!(movement.strain_peaks.is_empty());
    }

    let end = movement.roll_sections(750.5f64.to_bits(), 750.0f64.to_bits(), &next_end, &decay);

    assert_eq!(f64::from_bits(end), 1500.0);
    assert_eq!(movement.strain_peaks, vec![2.0f64.to_bits()]);
    assert_eq!(f64::from_bits(movement.current_section_peak), 2.0);
}

#[test]
fn movement_sorts_its_peaks_for_the_weighted_sum() {
    let mut movement = Movement::new();
    let peaks = [1.0, 0.0, 7.25, 3.0, 7.25, 0.5];

    for peak in peaks {
        movement.start_new_section_from(f64::to_bits(peak));
        movement.save_current_peak();
    }

    movement.sort_strain_peaks();

    let sorted: Vec<f64> = movement.strain_peaks.iter().map(|b| f64::from_bits(*b)).collect();

    assert_eq!(sorted, vec![7.25, 7.25, 3.0, 1.0, 0.5, 0.0]);

    // The weighted sum does not fall when a peak is added.
    let weighted = |peaks: &[f64]| {
        let mut sum = 0.0;
        let mut weight = 1.0;

        for peak in peaks {
            sum += peak * weight;
            weight *= 0.94;
        }

        sum
    };

    assert_eq!(weighted(&sorted[..2]), 7.25 + 7.25 * 0.94);

    // The skill weighs its peaks in this very order.
    let weigh = |difficulty: u64, weight: u64, strain: u64| {
        let weight = f64::from_bits(weight);
        let difficulty = f64::from_bits(difficulty) + f64::from_bits(strain) * weight;

        (difficulty.to_bits(), (weight * 0.94).to_bits())
    };

    let mut unsorted = Movement::new();

    for peak in peaks {
        unsorted.start_new_section_from(f64::to_bits(peak));
        unsorted.save_current_peak();
    }

    assert_eq!(f64::from_bits(unsorted.difficulty_value(&weigh)), weighted(&sorted));
    assert_eq!(unsorted.strain_peaks, movement.strain_peaks);
    assert_eq!(f64::from_bits(Movement::new().difficulty_value(&weigh)), 0.0);

    for n in 1..=sorted.len() {
        assert!(weighted(&sorted[..n]) >= weighted(&sorted[..n - 1]));
    }
}

#[test]
fn mania_objects_add_to_the_combo() {
    let mut params = ObjectParams::new();

    params.record_note();
    params.record_long_note(0);
    params.record_long_note(7);
    params.record_note();

    assert!(params.has_room_for(0));
    assert!(params.has_room_for(u32::MAX - 12));
    assert!(!params.has_room_for(u32::MAX - 11));
    assert!(!params.has_room_for(u32::MAX));
    assert_eq!(params.into_max_combo(), 11);
    assert!(ObjectParams::new().has_room_for(u32::MAX - 1));
    assert!(!ObjectParams::new().has_room_for(u32::MAX));
}

#[test]
fn mania_scores_are_halved_by_mods() {
    assert_eq!(ManiaPP2018::new().score_halvings(), 0);
    assert_eq!(ManiaPP2018::new().mods(2).score_halvings(), 1);
    assert_eq!(ManiaPP2018::new().mods(1 | 2 | 256).score_halvings(), 3);
    assert_eq!(ManiaPP2018::new().mods(64 | 8).score(900_000).score_halvings(), 0);
    assert_eq!(ManiaPPv1::new().mods(1 | 256).score_halvings(), 2);
    assert_eq!(f32::from_bits(ManiaPPv1::new().acc), 1.0);

    let pp = ManiaPPv1::new()
        .attributes(4.5f32.to_bits())
        .score(700_000)
        .accuracy(0.97f32.to_bits())
        .passed_objects(12);

    assert_eq!(pp.score, Some(700_000));
    assert_eq!(pp.passed_objects, Some(12));
    assert_eq!(f32::from_bits(pp.stars.unwrap()), 4.5);

    let pp = ManiaPP2018::new().attributes(3.25f64.to_bits()).passed_objects(5);

    assert_eq!(f64::from_bits(pp.stars.unwrap()), 3.25);
    assert_eq!(pp.passed_objects, Some(5));
}

#[test]
fn mania_takes_all_objects_unless_told() {
    assert_eq!(ManiaStars2018::new().take(30), 30);
    assert_eq!(ManiaStars2018::new().passed_objects(12).take(30), 12);
    assert_eq!(ManiaStars2018::new().passed_objects(30).take(30), 30);
    assert_eq!(ManiaStars2018::new().passed_objects(50).mods(64).take(30), 30);
    assert_eq!(ManiaStars2018::new().passed_objects(2).take(1), 1);
}
