use geo::coord::{Coord, Line};
use geo::exponent::{binary_exponent, power_of_two_shift};
use geo::ordering::{least_index, lex_cmp};
use geo::utils::{partial_max, partial_min, partition_slice, EitherIter};
use num_traits::Float;
use std::cmp::Ordering;

fn decoded_exponent_f64(value: f64) -> i32 {
    let (mantissa, exponent, _) = value.integer_decode();
    binary_exponent(mantissa, exponent)
}

fn decoded_exponent_f32(value: f32) -> i32 {
    let (mantissa, exponent, _) = value.integer_decode();
    binary_exponent(mantissa, exponent)
}

/// Valid for `e` in `[-1074, 1023]`.
fn exact_pow2(e: i32) -> f64 {
    if e >= -1022 {
        f64::from_bits(((e + 1023) as u64) << 52)
    } else {
        f64::from_bits(1u64 << (e + 1074))
    }
}

#[test]
fn test_partial_max() {
    assert_eq!(5, partial_max(5, 4));
    assert_eq!(5, partial_max(5, 5));
}

#[test]
fn test_partial_min() {
    assert_eq!(4, partial_min(5, 4));
    assert_eq!(4, partial_min(4, 4));
}

#[test]
fn partial_max_and_min_prefer_second_on_ties() {
    assert_eq!(partial_max((1, 'a'), (1, 'a')), (1, 'a'));
    assert_eq!(partial_max(-3i64, 7), 7);
    assert_eq!(partial_min(-3i64, 7), -3);
}

#[test]
fn test_max_binary_exponent() {
    assert_eq!(decoded_exponent_f64(f64::MAX), 1023);
    assert_eq!(decoded_exponent_f32(f32::MAX), 127);
}

#[test]
fn test_binary_exponent_is_exact() {
    let samples = [
        f64::from_bits(1),
        f64::MIN_POSITIVE,
        1e-300,
        0.1,
        0.75,
        1.0,
        1.5,
        3.0,
        1024.0,
        1e300,
        f64::MAX,
    ];
    for val in samples {
        let e = decoded_exponent_f64(val);
        assert!((-1074..=1023).contains(&e), "{val:e} e={e}");
        assert!(exact_pow2(e) <= val, "{val:e} e={e}");
        assert!(e == 1023 || val < exact_pow2(e + 1), "{val:e} e={e}");
    }
}

#[test]
fn test_binary_exponent_round_trips_powers_of_two() {
    for e in -1074..=1023 {
        assert_eq!(decoded_exponent_f64(exact_pow2(e)), e);
        assert_eq!(decoded_exponent_f64(-exact_pow2(e)), e);
    }
}

#[test]
fn binary_exponent_of_raw_parts() {
    assert_eq!(binary_exponent(1, 0), 0);
    assert_eq!(binary_exponent(8, -3), 0);
    assert_eq!(binary_exponent(9007199254740991, 971), 1023);
    assert_eq!(binary_exponent(u64::MAX, -10), 53);
    // A zero mantissa counts 64 leading zeros.
    assert_eq!(binary_exponent(0, -1075), -1076);
}

#[test]
fn power_of_two_scale_is_exact_and_capped() {
    let max64 = decoded_exponent_f64(f64::MAX);
    let max32 = decoded_exponent_f32(f32::MAX);
    let shift = |value: f64, target: i32| {
        power_of_two_shift(decoded_exponent_f64(value), target, max64)
    };
    assert_eq!(shift(2f64.powi(1023), 500), -523);
    assert_eq!(2f64.powi(shift(2f64.powi(1023), 500)), 2f64.powi(-523));
    assert_eq!(shift(2f64.powi(-143), 500), 643);
    assert_eq!(2f64.powi(shift(2f64.powi(-143), 500)), 2f64.powi(643));
    assert_eq!(shift(3.0f64, 0), -1);
    assert_eq!(2f64.powi(shift(3.0f64, 0)), 0.5);
    // Subnormal inputs get the largest representable power of two.
    assert_eq!(shift(f64::from_bits(1), 500), 1023);
    assert_eq!(2f64.powi(shift(f64::from_bits(1), 500)), 2f64.powi(1023));
    let shift32 = power_of_two_shift(decoded_exponent_f32(f32::from_bits(1)), 38, max32);
    assert_eq!(shift32, 127);
    assert_eq!(2f32.powi(shift32), 2f32.powi(127));
}

#[test]
fn power_of_two_shift_is_capped_both_ways() {
    assert_eq!(power_of_two_shift(0, 2000, 1023), 1023);
    assert_eq!(power_of_two_shift(0, -2000, 1023), -1023);
    assert_eq!(power_of_two_shift(10, 12, 1023), 2);
    assert_eq!(power_of_two_shift(10, 12, 0), 0);
}

#[test]
fn partition_slice_splits_by_predicate() {
    let mut data = vec![7u32, 2, 9, 4, 1, 8, 3];
    let (small, large) = partition_slice(&mut data, |x: &u32| *x < 5);
    assert!(small.iter().all(|x| *x < 5));
    assert!(large.iter().all(|x| *x >= 5));
    assert_eq!(small.len(), 4);
    assert_eq!(large.len(), 3);
    let mut all: Vec<u32> = small.iter().chain(large.iter()).copied().collect();
    all.sort();
    assert_eq!(all, vec![1, 2, 3, 4, 7, 8, 9]);
}

#[test]
fn partition_slice_leaves_a_partitioned_slice_as_it_is() {
    let mut data = vec![4, 1, 3, 9, 7, 8];
    {
        let (small, large) = partition_slice(&mut data, |x: &i32| *x < 5);
        assert_eq!(small, &[4, 1, 3]);
        assert_eq!(large, &[9, 7, 8]);
    }
    assert_eq!(data, vec![4, 1, 3, 9, 7, 8]);
}

#[test]
fn partition_slice_edge_cases() {
    let mut empty: Vec<i32> = vec![];
    let (a, b) = partition_slice(&mut empty, |x: &i32| *x > 0);
    assert!(a.is_empty() && b.is_empty());

    let mut all_true = vec![1, 2, 3];
    let (a, b) = partition_slice(&mut all_true, |x: &i32| *x > 0);
    assert_eq!(a.len(), 3);
    assert!(b.is_empty());

    let mut all_false = vec![-1, -2, -3];
    let (a, b) = partition_slice(&mut all_false, |x: &i32| *x > 0);
    assert!(a.is_empty());
    assert_eq!(b.len(), 3);

    let mut single = vec![5];
    let (a, b) = partition_slice(&mut single, |x: &i32| *x > 0);
    assert_eq!((a.len(), b.len()), (1, 0));
}

#[test]
fn partition_slice_writes_through_parts() {
    let mut data = vec![1, 10, 2, 20];
    {
        let (small, large) = partition_slice(&mut data, |x: &i32| *x < 5);
        small[0] = 0;
        large[0] = 100;
    }
    assert!(data.contains(&0));
    assert!(data.contains(&100));
}

#[test]
fn lex_cmp_orders_by_x_then_y() {
    let a = Coord::new(1, 5);
    let b = Coord::new(2, 0);
    let c = Coord::new(1, 7);
    assert_eq!(lex_cmp(&a, &b), Ordering::Less);
    assert_eq!(lex_cmp(&b, &a), Ordering::Greater);
    assert_eq!(lex_cmp(&a, &c), Ordering::Less);
    assert_eq!(lex_cmp(&c, &a), Ordering::Greater);
    assert_eq!(lex_cmp(&a, &a), Ordering::Equal);
}

#[test]
fn least_index_returns_first_least_point() {
    let pts = [
        Coord::new(3, 1),
        Coord::new(1, 5),
        Coord::new(1, 2),
        Coord::new(1, 2),
    ];
    assert_eq!(least_index(&pts), 2);
    assert_eq!(least_index(&[Coord::new(0, 0)]), 0);
    let line = Line::new(Coord::new(-4, 9), Coord::new(-4, -9));
    assert_eq!(least_index(&[line.start, line.end]), 1);
}

#[test]
fn either_iter_delegates_to_the_iterator_it_holds() {
    let mut a: EitherIter<std::vec::IntoIter<i32>, std::ops::Range<i32>> =
        EitherIter::A(vec![4, 5].into_iter());
    assert_eq!(a.next(), Some(4));
    assert_eq!(a.next(), Some(5));
    assert_eq!(a.next(), None);
    let mut b: EitherIter<std::vec::IntoIter<i32>, std::ops::Range<i32>> = EitherIter::B(0..2);
    assert_eq!(b.next(), Some(0));
    assert_eq!(b.next(), Some(1));
    assert_eq!(b.next(), None);
    assert!(matches!(b, EitherIter::B(_)));
}
