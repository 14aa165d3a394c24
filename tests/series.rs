use workout::series::{bench_total_weight, random_series, SERIES_HIGH, SERIES_LOW};

#[test]
fn random_series_stays_in_range() {
    for _ in 0..2000 {
        let s = random_series();
        assert!((5..=11).contains(&s));
        assert_ne!(s, 4);
        assert_ne!(s, 12);
    }
}

#[test]
fn random_series_is_not_constant() {
    let first = random_series();
    let mut other = false;
    for _ in 0..2000 {
        if random_series() != first {
            other = true;
        }
    }
    assert!(other);
}

#[test]
fn series_bounds() {
    assert_eq!(SERIES_LOW, 5);
    assert_eq!(SERIES_HIGH, 12);
}

#[test]
fn bench_total_with_given_series() {
    assert_eq!(bench_total_weight(90, 6, Some(5)), Some(2700));
    assert_eq!(bench_total_weight(90, 6, Some(0)), Some(0));
    assert_eq!(bench_total_weight(i32::MAX, 2, Some(1)), None);
}

#[test]
fn bench_total_without_series_uses_a_drawn_count() {
    for _ in 0..500 {
        let total = bench_total_weight(90, 6, None).unwrap();
        assert_eq!(total % 540, 0);
        let s = total / 540;
        assert!((5..=11).contains(&s));
    }
}

#[test]
fn bench_total_without_series_overflows_to_none() {
    assert_eq!(bench_total_weight(i32::MAX, 1, None), None);
}
