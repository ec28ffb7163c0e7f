use drifting_bird::book::{walk, FillResult, PriceLevel};
use drifting_bird::errors::StrategyError;

fn level(price: u64, size: u64) -> PriceLevel {
    PriceLevel { price, size }
}

#[test]
fn walk_exact_average() {
    let levels = vec![level(99_000, 30), level(99_500, 40)];
    let r = walk(&levels, 50).unwrap();
    // (99_000 * 30 + 99_500 * 20) / 50 == 99_200
    assert_eq!(r, FillResult { average_price: 99_200, filled_size: 50 });
}

#[test]
fn walk_insufficient_depth() {
    let levels = vec![level(99_000, 30), level(99_500, 10)];
    let r = walk(&levels, 50).unwrap();
    assert_eq!(r, FillResult { average_price: 0, filled_size: 40 });
}

#[test]
fn walk_empty_book() {
    let levels: Vec<PriceLevel> = Vec::new();
    let r = walk(&levels, 5).unwrap();
    assert_eq!(r, FillResult { average_price: 0, filled_size: 0 });
}

#[test]
fn walk_zero_target_is_arithmetic_error() {
    let levels = vec![level(10, 10)];
    assert_eq!(walk(&levels, 0), Err(StrategyError::Arithmetic));
}

#[test]
fn walk_overflow_is_arithmetic_error() {
    let levels = vec![level(u64::MAX, 2)];
    assert_eq!(walk(&levels, 2), Err(StrategyError::Arithmetic));
}

#[test]
fn walk_accumulation_overflow_is_arithmetic_error() {
    // Each term fits, but their sum does not.
    let levels = vec![level(u64::MAX / 2, 1), level(u64::MAX / 2, 1), level(u64::MAX / 2, 1)];
    assert_eq!(walk(&levels, 3), Err(StrategyError::Arithmetic));
}

#[test]
fn walk_monotonic_in_target() {
    // Larger targets never shrink the fill, and the fill never
    // exceeds its target.
    let levels = vec![level(7, 4), level(9, 6), level(11, 5)];
    let mut previous = 0;
    for target in 1..20u64 {
        let r = walk(&levels, target).unwrap();
        assert!(r.filled_size >= previous);
        assert!(r.filled_size <= target);
        previous = r.filled_size;
    }
}

#[test]
fn walk_stops_at_target() {
    // The second level must stay untouched once the target is filled.
    let levels = vec![level(10, 5), level(1_000_000, 5)];
    let r = walk(&levels, 5).unwrap();
    assert_eq!(r, FillResult { average_price: 10, filled_size: 5 });
}

#[test]
fn walk_partial_level() {
    let levels = vec![level(100, 3)];
    let r = walk(&levels, 2).unwrap();
    assert_eq!(r, FillResult { average_price: 100, filled_size: 2 });
}

#[test]
fn walk_skips_zero_size_levels() {
    let levels = vec![level(5, 0), level(7, 10)];
    let r = walk(&levels, 10).unwrap();
    assert_eq!(r, FillResult { average_price: 7, filled_size: 10 });
}

#[test]
fn walk_average_rounds_down() {
    // (3 * 1 + 4 * 1) / 2 == 3 in integer division.
    let levels = vec![level(3, 1), level(4, 1)];
    let r = walk(&levels, 2).unwrap();
    assert_eq!(r, FillResult { average_price: 3, filled_size: 2 });
}
