use rosu_pp_older::util::strains_vec::{likely, unlikely, StrainsEntry, StrainsVec};

fn bits(values: &[f64]) -> Vec<u64> {
    values.iter().map(|v| v.to_bits()).collect()
}

fn floats(values: Vec<u64>) -> Vec<f64> {
    values.into_iter().map(f64::from_bits).collect()
}

fn filled(values: &[f64]) -> StrainsVec {
    let mut vec = StrainsVec::with_capacity(values.len());

    for value in bits(values) {
        vec.push(value);
    }

    vec
}

#[test]
fn push_merges_consecutive_zeros() {
    let vec = filled(&[1.5, 0.0, 0.0, 2.5]);

    assert_eq!(vec.len(), 4);
    assert_eq!(floats(vec.into_vec()), vec![1.5, 0.0, 0.0, 2.5]);
}

#[test]
fn push_stores_what_is_not_positive_as_zero() {
    let vec = filled(&[-3.0, -0.0, 0.0, f64::NEG_INFINITY, 4.0]);

    assert_eq!(vec.len(), 5);
    assert_eq!(vec.into_vec(), bits(&[0.0, 0.0, 0.0, 0.0, 4.0]));
}

#[test]
fn push_keeps_infinity_as_a_value() {
    let vec = filled(&[f64::INFINITY, 1.0]);

    assert_eq!(vec.into_vec(), bits(&[f64::INFINITY, 1.0]));
}

#[test]
fn empty_list() {
    let vec = StrainsVec::with_capacity(0);

    assert_eq!(vec.len(), 0);
    assert_eq!(vec.iter().next(), None);
    assert!(vec.into_vec().is_empty());
}

#[test]
fn iter_walks_over_zeros_one_by_one() {
    let vec = filled(&[0.0, 0.0, 3.0, 0.0, 1.0, 0.0, 0.0, 0.0]);
    let mut iter = vec.iter();
    let mut seen = Vec::new();

    assert_eq!(iter.len(), 8);
    assert_eq!(iter.size_hint(), (8, Some(8)));

    while let Some(value) = iter.next() {
        seen.push(f64::from_bits(value));
    }

    assert_eq!(seen, vec![0.0, 0.0, 3.0, 0.0, 1.0, 0.0, 0.0, 0.0]);
    assert_eq!(iter.len(), 0);
    assert_eq!(iter.next(), None);
}

#[test]
fn retain_non_zero_drops_zeros_and_keeps_len() {
    let mut vec = filled(&[0.0, 2.0, 0.0, 0.0, 1.0, 3.0, 0.0]);
    vec.retain_non_zero();

    assert_eq!(vec.len(), 7);
    assert_eq!(floats(vec.non_zero_iter()), vec![2.0, 1.0, 3.0]);
}

#[test]
fn sort_desc_orders_like_the_floats() {
    let values = [0.25, 7.5, 1.0e-300, 3.0, 7.5, f64::INFINITY, 2.0, 1.0e300];
    let mut vec = filled(&values);
    vec.sort_desc();

    let mut expected = values.to_vec();
    expected.sort_by(|a, b| b.total_cmp(a));

    assert_eq!(floats(vec.non_zero_iter()), expected);
}

#[test]
fn sorted_non_zero_iter_drops_zeros_and_sorts() {
    let mut vec = filled(&[0.0, 2.0, 0.0, 5.0, 1.0, 0.0, 3.0]);
    let sorted = floats(vec.sorted_non_zero_iter());

    assert_eq!(sorted, vec![5.0, 3.0, 2.0, 1.0]);
    assert!(sorted.windows(2).all(|pair| pair[0] >= pair[1]));
}

#[test]
fn sorting_twice_changes_nothing() {
    let mut vec = filled(&[4.0, 0.0, 9.0, 1.0]);
    vec.retain_non_zero_and_sort();
    let once = vec.non_zero_iter();
    vec.retain_non_zero_and_sort();

    assert_eq!(once, vec.non_zero_iter());
}

#[test]
fn entries_tell_values_from_zero_counts() {
    let value = StrainsEntry::new_value(2.5f64.to_bits());

    assert!(value.is_value());
    assert!(!value.is_zero());
    assert_eq!(f64::from_bits(value.value()), 2.5);
    assert_eq!(value.try_as_value(), Some(2.5f64.to_bits()));

    let mut zero = StrainsEntry::new_zero();

    assert!(zero.is_zero());
    assert!(!zero.is_value());
    assert_eq!(zero.zero_count(), 1);
    assert_eq!(zero.try_as_value(), None);
    assert!(f64::from_bits(zero.value()).is_sign_negative());

    zero.incr_zero_count();
    zero.incr_zero_count();
    assert_eq!(zero.zero_count(), 3);

    zero.decr_zero_count();
    assert_eq!(zero.zero_count(), 2);
    assert_eq!(StrainsEntry::from_raw(zero.into_raw()).zero_count(), 2);
}

#[test]
fn hints_hand_the_condition_back() {
    assert!(likely(true));
    assert!(!likely(false));
    assert!(unlikely(true));
    assert!(!unlikely(false));
}

#[test]
fn sum_adds_the_values_in_order() {
    let values = [0.5, 0.0, 1.0e16, 0.0, 0.0, 1.0, 3.25, 1.0e-8];
    let vec = filled(&values);

    let plus = |sum: u64, value: u64| (f64::from_bits(sum) + f64::from_bits(value)).to_bits();
    let sum = f64::from_bits(vec.sum(0.0f64.to_bits(), &plus));

    assert_eq!(sum, values.iter().filter(|v| **v != 0.0).fold(0.0, |sum, v| sum + v));
    assert_eq!(sum, values.iter().sum::<f64>());
    assert_eq!(
        f64::from_bits(StrainsVec::with_capacity(0).sum(7.5f64.to_bits(), &plus)),
        7.5
    );
}

#[test]
fn sorted_values_are_changed_in_place() {
    let mut vec = filled(&[2.0, 0.0, 8.0, 4.0, 0.0]);

    // The highest two values are halved.
    let update = |i: usize, value: u64| {
        let value = f64::from_bits(value);

        (if i < 2 { value / 2.0 } else { value }).to_bits()
    };

    vec.sorted_non_zero_iter_mut(&update);

    assert_eq!(floats(vec.non_zero_iter()), vec![4.0, 2.0, 2.0]);
    assert_eq!(vec.len(), 5);
}
