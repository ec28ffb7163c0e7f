use drifting_bird::errors::StrategyError;
use drifting_bird::quotes::{
    best_quotes, BestQuote, OraclePrice, OrderDirection, OrderKind, RestingOwnOrder,
};

fn order(
    market_index: u16,
    is_post_only: bool,
    order_kind: OrderKind,
    direction: OrderDirection,
    absolute_price: u64,
    oracle_price_offset: i32,
    base_size: u64,
) -> RestingOwnOrder {
    RestingOwnOrder {
        market_index,
        is_post_only,
        order_kind,
        direction,
        absolute_price,
        oracle_price_offset,
        base_size,
    }
}

fn bid(absolute_price: u64, base_size: u64) -> RestingOwnOrder {
    order(0, true, OrderKind::Limit, OrderDirection::Long, absolute_price, 0, base_size)
}

fn ask(absolute_price: u64, base_size: u64) -> RestingOwnOrder {
    order(0, true, OrderKind::Limit, OrderDirection::Short, absolute_price, 0, base_size)
}

const ORACLE: OraclePrice = OraclePrice { price: 10_000_000 };

#[test]
fn empty_orders_give_sentinels() {
    let orders: Vec<RestingOwnOrder> = Vec::new();
    let (b, a) = best_quotes(&orders, ORACLE, 0).unwrap();
    assert_eq!(b, BestQuote { price: 0, size: 0 });
    assert_eq!(a, BestQuote { price: 0, size: 0 });
}

#[test]
fn picks_highest_bid_and_lowest_ask() {
    let orders = vec![
        bid(100_000_000, 1_000_000),
        bid(120_000_000, 2_000_000),
        bid(110_000_000, 3_000_000),
        ask(300_000_000, 4_000_000),
        ask(250_000_000, 5_000_000),
        ask(260_000_000, 6_000_000),
    ];
    let (b, a) = best_quotes(&orders, ORACLE, 0).unwrap();
    assert_eq!(b, BestQuote { price: 120_000, size: 2 });
    assert_eq!(a, BestQuote { price: 250_000, size: 5 });
}

#[test]
fn decoys_never_affect_the_result() {
    // Orders on another market, non-post-only orders and non-limit
    // kinds carry extreme prices that must all be ignored.
    let orders = vec![
        bid(100_000_000, 1_000_000),
        order(7, true, OrderKind::Limit, OrderDirection::Long, u64::MAX, 0, 1_000_000),
        order(0, false, OrderKind::Limit, OrderDirection::Long, u64::MAX, 0, 1_000_000),
        order(0, true, OrderKind::Other, OrderDirection::Long, u64::MAX, 0, 1_000_000),
        ask(250_000_000, 1_000_000),
        order(7, true, OrderKind::Limit, OrderDirection::Short, 1_000, 0, 1_000_000),
        order(0, false, OrderKind::Limit, OrderDirection::Short, 1_000, 0, 1_000_000),
        order(0, true, OrderKind::Other, OrderDirection::Short, 1_000, 0, 1_000_000),
    ];
    let with_decoys = best_quotes(&orders, ORACLE, 0).unwrap();
    let clean = vec![bid(100_000_000, 1_000_000), ask(250_000_000, 1_000_000)];
    assert_eq!(with_decoys, best_quotes(&clean, ORACLE, 0).unwrap());
    assert_eq!(with_decoys.0, BestQuote { price: 100_000, size: 1 });
    assert_eq!(with_decoys.1, BestQuote { price: 250_000, size: 1 });
}

#[test]
fn oracle_offset_ties_absolute_and_later_wins() {
    // Oracle 10_000_000 scales to 100_000; an offset of 500 resolves
    // to 100_500, which rescales to 100, exactly as an absolute price
    // of 100_500 does.  On the tie the later-seen order wins.
    let absolute = bid(100_500, 1_000_000);
    let relative = order(
        0,
        true,
        OrderKind::OracleAnchored,
        OrderDirection::Long,
        0,
        500,
        2_000_000,
    );
    let orders = vec![absolute, relative];
    let (b, _) = best_quotes(&orders, ORACLE, 0).unwrap();
    assert_eq!(b, BestQuote { price: 100, size: 2 });

    let orders_reversed = vec![relative, absolute];
    let (b2, _) = best_quotes(&orders_reversed, ORACLE, 0).unwrap();
    assert_eq!(b2, BestQuote { price: 100, size: 1 });
}

#[test]
fn equal_bid_prices_later_size_wins() {
    let orders = vec![bid(100_000_000, 1_000_000), bid(100_000_000, 9_000_000)];
    let (b, _) = best_quotes(&orders, ORACLE, 0).unwrap();
    assert_eq!(b, BestQuote { price: 100_000, size: 9 });
}

#[test]
fn scan_is_idempotent() {
    let orders = vec![
        bid(100_000_000, 1_000_000),
        order(0, true, OrderKind::OracleAnchored, OrderDirection::Short, 0, 1_000, 2_000_000),
        order(3, true, OrderKind::Limit, OrderDirection::Long, 999_000_000, 0, 1_000_000),
    ];
    let first = best_quotes(&orders, ORACLE, 0);
    let second = best_quotes(&orders, ORACLE, 0);
    assert_eq!(first, second);
}

#[test]
fn negative_resolution_is_arithmetic_error() {
    // Oracle -10_000_000 scales to -100_000; an offset of 5 leaves
    // the resolved price negative.
    let oracle = OraclePrice { price: -10_000_000 };
    let relative = order(0, true, OrderKind::Limit, OrderDirection::Long, 0, 5, 1_000_000);
    let orders = vec![relative];
    assert_eq!(best_quotes(&orders, oracle, 0), Err(StrategyError::Arithmetic));
}

#[test]
fn oracle_scaling_truncates_toward_zero() {
    // -199 / 100 truncates to -1, so an offset of 1 resolves to 0,
    // which is not negative: the scan must succeed.
    let oracle = OraclePrice { price: -199 };
    let relative = order(0, true, OrderKind::Limit, OrderDirection::Long, 0, 1, 3_000_000);
    let orders = vec![relative];
    let (b, _) = best_quotes(&orders, oracle, 0).unwrap();
    assert_eq!(b, BestQuote { price: 0, size: 3 });
}

#[test]
fn zero_offset_ignores_oracle() {
    let wild_oracle = OraclePrice { price: i64::MIN };
    let orders = vec![bid(42_000, 1_000_000)];
    let (b, _) = best_quotes(&orders, wild_oracle, 0).unwrap();
    assert_eq!(b, BestQuote { price: 42, size: 1 });
}
