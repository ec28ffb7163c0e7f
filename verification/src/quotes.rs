//! Best bid and ask among the caller's own resting orders on the local
//! venue, with oracle-relative price offsets resolved to absolute
//! prices.

use vstd::arithmetic::div_mod::{lemma_div_is_ordered, lemma_div_pos_is_pos};
use vstd::prelude::*;

use crate::errors::StrategyError;

verus! {

/// Fixed-point divisor that takes an order's native price to the
/// common comparison unit.
pub const PRICE_SCALE: u64 = 1000;

/// Fixed-point divisor that takes an order's native base size to the
/// common comparison unit.
pub const SIZE_SCALE: u64 = 1000000;

/// Fixed-point divisor that takes the oracle feed's native price to
/// the orders' native price unit.
pub const ORACLE_SCALE: u64 = 100;

/// What kind of order a slot holds.  Only limit-like orders (plain
/// limit and oracle-anchored limit) carry a comparable price; any
/// other kind is ignored by the quote scan.
#[derive(Clone, Copy, Debug, PartialEq, Eq, Structural)]
pub enum OrderKind {
    Limit,
    OracleAnchored,
    Other,
}

/// The side an order rests on: `Long` orders are bids, `Short` orders
/// are asks.
#[derive(Clone, Copy, Debug, PartialEq, Eq, Structural)]
pub enum OrderDirection {
    Long,
    Short,
}

/// One of the caller's own resting orders on the local venue.  A slot
/// whose `oracle_price_offset` is 0 is priced by `absolute_price`
/// alone; otherwise the offset is added to the live oracle price.
#[derive(Clone, Copy, Debug, PartialEq, Eq, Structural)]
pub struct RestingOwnOrder {
    pub market_index: u16,
    pub is_post_only: bool,
    pub order_kind: OrderKind,
    pub direction: OrderDirection,
    pub absolute_price: u64,
    pub oracle_price_offset: i32,
    pub base_size: u64,
}

/// A point-in-time reference price from the external feed, in the
/// feed's native fixed-point unit.
#[derive(Clone, Copy, Debug, PartialEq, Eq, Structural)]
pub struct OraclePrice {
    pub price: i64,
}

/// The best price and size found on one side, or the sentinel
/// `{price: 0, size: 0}` when no order qualifies there.
#[derive(Clone, Copy, Debug, PartialEq, Eq, Structural)]
pub struct BestQuote {
    pub price: u64,
    pub size: u64,
}

/// Truncating division, rounding toward zero as the machine's signed
/// division does; `d` must be positive for this to be meaningful.
pub open spec fn div_trunc_by(a: int, d: int) -> int {
    if a >= 0 {
        a / d
    } else {
        -((-a) / d)
    }
}

/// The oracle price brought to the orders' native price unit.
pub open spec fn oracle_unit(oracle_price: i64) -> int {
    div_trunc_by(oracle_price as int, ORACLE_SCALE as int)
}

/// Whether an order takes part in the scan at all: it must sit on the
/// filtered market, be post-only (maker liquidity), and be limit-like.
pub open spec fn is_candidate(o: RestingOwnOrder, market_filter: u16) -> bool {
    o.market_index == market_filter && o.is_post_only && (o.order_kind is Limit
        || o.order_kind is OracleAnchored)
}

/// The oracle price plus the order's offset, in the orders' native
/// price unit, before the final rescale.
pub open spec fn offset_sum(o: RestingOwnOrder, oracle_price: i64) -> int {
    oracle_unit(oracle_price) + o.oracle_price_offset
}

/// Whether the order's comparison price can be resolved: an absolute
/// order always can; an oracle-relative one only when the resolved
/// price is not negative.
pub open spec fn resolves(o: RestingOwnOrder, oracle_price: i64) -> bool {
    o.oracle_price_offset == 0 || offset_sum(o, oracle_price) >= 0
}

/// The order's price in the common comparison unit: the absolute price
/// rescaled, or the oracle price plus offset rescaled.
pub open spec fn comparison_price(o: RestingOwnOrder, oracle_price: i64) -> int {
    if o.oracle_price_offset == 0 {
        (o.absolute_price as int) / (PRICE_SCALE as int)
    } else {
        offset_sum(o, oracle_price) / (PRICE_SCALE as int)
    }
}

/// The order's size in the common comparison unit.
pub open spec fn quoted_size(o: RestingOwnOrder) -> int {
    (o.base_size as int) / (SIZE_SCALE as int)
}

/// The quote a candidate order contributes.
pub open spec fn candidate_quote(o: RestingOwnOrder, oracle_price: i64) -> BestQuote {
    BestQuote {
        price: comparison_price(o, oracle_price) as u64,
        size: quoted_size(o) as u64,
    }
}

/// Whether some candidate order's oracle-relative price resolves to a
/// negative value, which makes the whole scan fail.
pub open spec fn has_unresolvable(
    orders: Seq<RestingOwnOrder>,
    oracle_price: i64,
    market_filter: u16,
) -> bool
    decreases orders.len(),
{
    if orders.len() == 0 {
        false
    } else {
        has_unresolvable(orders.drop_last(), oracle_price, market_filter) || (is_candidate(
            orders.last(),
            market_filter,
        ) && !resolves(orders.last(), oracle_price))
    }
}

/// The best bid after scanning `orders` left to right: among candidate
/// `Long` orders, the one with the highest comparison price, a
/// later-seen order replacing an earlier one on an equal price
/// (last-write-wins).  `None` while no candidate has been seen: a real
/// price of 0 never competes with the empty state.
pub open spec fn best_bid_fold(
    orders: Seq<RestingOwnOrder>,
    oracle_price: i64,
    market_filter: u16,
) -> Option<BestQuote>
    decreases orders.len(),
{
    if orders.len() == 0 {
        None
    } else {
        let prev = best_bid_fold(orders.drop_last(), oracle_price, market_filter);
        let o = orders.last();
        if is_candidate(o, market_filter) && o.direction is Long {
            let q = candidate_quote(o, oracle_price);
            match prev {
                None => Some(q),
                Some(b) => if q.price >= b.price {
                    Some(q)
                } else {
                    Some(b)
                },
            }
        } else {
            prev
        }
    }
}

/// The best ask after scanning `orders` left to right: the mirror of
/// [`best_bid_fold`] over candidate `Short` orders, keeping the lowest
/// comparison price, last-write-wins on ties.
pub open spec fn best_ask_fold(
    orders: Seq<RestingOwnOrder>,
    oracle_price: i64,
    market_filter: u16,
) -> Option<BestQuote>
    decreases orders.len(),
{
    if orders.len() == 0 {
        None
    } else {
        let prev = best_ask_fold(orders.drop_last(), oracle_price, market_filter);
        let o = orders.last();
        if is_candidate(o, market_filter) && o.direction is Short {
            let q = candidate_quote(o, oracle_price);
            match prev {
                None => Some(q),
                Some(b) => if q.price <= b.price {
                    Some(q)
                } else {
                    Some(b)
                },
            }
        } else {
            prev
        }
    }
}

/// The empty state collapses to the `{0, 0}` sentinel.
pub open spec fn quote_or_empty(q: Option<BestQuote>) -> BestQuote {
    match q {
        None => BestQuote { price: 0, size: 0 },
        Some(b) => b,
    }
}

/// The complete outcome of the quote scan: an arithmetic error exactly
/// when some candidate's oracle-relative price resolves negative, else
/// the best bid and best ask with the `{0, 0}` sentinel where no order
/// qualifies.
pub open spec fn spec_best_quotes(
    orders: Seq<RestingOwnOrder>,
    oracle_price: i64,
    market_filter: u16,
) -> Result<(BestQuote, BestQuote), StrategyError> {
    if has_unresolvable(orders, oracle_price, market_filter) {
        Err(StrategyError::Arithmetic)
    } else {
        Ok(
            (
                quote_or_empty(best_bid_fold(orders, oracle_price, market_filter)),
                quote_or_empty(best_ask_fold(orders, oracle_price, market_filter)),
            ),
        )
    }
}

/// A single unresolvable candidate anywhere in the list makes the scan
/// unresolvable.
pub proof fn lemma_unresolvable_at(
    orders: Seq<RestingOwnOrder>,
    j: int,
    oracle_price: i64,
    market_filter: u16,
)
    requires
        0 <= j < orders.len(),
        is_candidate(orders[j], market_filter),
        !resolves(orders[j], oracle_price),
    ensures
        has_unresolvable(orders, oracle_price, market_filter),
    decreases orders.len(),
{
    if j < orders.len() - 1 {
        lemma_unresolvable_at(orders.drop_last(), j, oracle_price, market_filter);
    }
}

/// Best-quote idempotence: the scan is a pure function of the order
/// list, the oracle price and the market filter, so two runs on the
/// same inputs return the same output.
pub proof fn lemma_best_quotes_idempotent(
    r1: Result<(BestQuote, BestQuote), StrategyError>,
    r2: Result<(BestQuote, BestQuote), StrategyError>,
    orders: Seq<RestingOwnOrder>,
    oracle_price: i64,
    market_filter: u16,
)
    requires
        r1 == spec_best_quotes(orders, oracle_price, market_filter),
        r2 == spec_best_quotes(orders, oracle_price, market_filter),
    ensures
        r1 == r2,
{
}

/// Non-candidate orders leave each piece of the scan untouched: the
/// folds and the unresolvability flag of a list equal those of its
/// candidates alone.
proof fn lemma_scan_ignores_noncandidates(
    orders: Seq<RestingOwnOrder>,
    oracle_price: i64,
    market_filter: u16,
)
    ensures
        best_bid_fold(
            orders.filter(|o: RestingOwnOrder| is_candidate(o, market_filter)),
            oracle_price,
            market_filter,
        ) == best_bid_fold(orders, oracle_price, market_filter),
        best_ask_fold(
            orders.filter(|o: RestingOwnOrder| is_candidate(o, market_filter)),
            oracle_price,
            market_filter,
        ) == best_ask_fold(orders, oracle_price, market_filter),
        has_unresolvable(
            orders.filter(|o: RestingOwnOrder| is_candidate(o, market_filter)),
            oracle_price,
            market_filter,
        ) == has_unresolvable(orders, oracle_price, market_filter),
    decreases orders.len(),
{
    let pred = |o: RestingOwnOrder| is_candidate(o, market_filter);
    reveal_with_fuel(Seq::filter, 2);
    if orders.len() > 0 {
        let rest = orders.drop_last();
        let o = orders.last();
        lemma_scan_ignores_noncandidates(rest, oracle_price, market_filter);
        if pred(o) {
            assert(orders.filter(pred) == rest.filter(pred).push(o));
            assert(rest.filter(pred).push(o).drop_last() =~= rest.filter(pred));
            assert(rest.filter(pred).push(o).last() == o);
        } else {
            assert(orders.filter(pred) == rest.filter(pred));
        }
    } else {
        assert(orders.filter(pred) =~= orders);
    }
}

/// Best-quote filtering: orders that are not candidates (wrong market
/// index, not post-only, or not limit-like) never affect the result:
/// the scan of a list equals the scan of its candidates alone.
pub proof fn lemma_best_quotes_filter(
    orders: Seq<RestingOwnOrder>,
    oracle_price: i64,
    market_filter: u16,
)
    ensures
        spec_best_quotes(
            orders.filter(|o: RestingOwnOrder| is_candidate(o, market_filter)),
            oracle_price,
            market_filter,
        ) == spec_best_quotes(orders, oracle_price, market_filter),
{
    lemma_scan_ignores_noncandidates(orders, oracle_price, market_filter);
}

/// Offset resolution: an oracle-relative order compares exactly as the
/// oracle price plus its offset, rescaled to the common unit.
pub proof fn lemma_offset_resolution(o: RestingOwnOrder, oracle_price: i64)
    requires
        o.oracle_price_offset != 0,
    ensures
        comparison_price(o, oracle_price) == (oracle_unit(oracle_price)
            + o.oracle_price_offset) / (PRICE_SCALE as int),
{
}

/// An absolute order and an oracle-relative one tie whenever the
/// absolute price and the resolved oracle-relative price rescale to
/// the same comparison unit.
pub proof fn lemma_offset_ties_absolute(
    abs_order: RestingOwnOrder,
    off_order: RestingOwnOrder,
    oracle_price: i64,
)
    requires
        abs_order.oracle_price_offset == 0,
        off_order.oracle_price_offset != 0,
        (abs_order.absolute_price as int) / (PRICE_SCALE as int) == offset_sum(
            off_order,
            oracle_price,
        ) / (PRICE_SCALE as int),
    ensures
        comparison_price(abs_order, oracle_price) == comparison_price(off_order, oracle_price),
{
}

/// The oracle price brought to the orders' native price unit, by
/// truncating division as the feed's fixed-point convention asks.
fn scaled_oracle_price(p: i64) -> (r: i64)
    ensures
        r as int == oracle_unit(p),
        -92233720368547758 <= r as int <= 92233720368547758,
{
    if p >= 0 {
        let q = (p as u64) / ORACLE_SCALE;
        proof {
            lemma_div_is_ordered(p as int, i64::MAX as int, ORACLE_SCALE as int);
            lemma_div_pos_is_pos(p as int, ORACLE_SCALE as int);
        }
        q as i64
    } else {
        let mag: u64 = if p == i64::MIN {
            9223372036854775808u64
        } else {
            (-p) as u64
        };
        let q = mag / ORACLE_SCALE;
        proof {
            lemma_div_is_ordered(mag as int, 9223372036854775808int, ORACLE_SCALE as int);
            lemma_div_pos_is_pos(mag as int, ORACLE_SCALE as int);
        }
        -(q as i64)
    }
}

/// Scans the caller's own resting orders and returns the best bid and
/// best ask on the filtered market.
///
/// An order takes part only when it sits on `market_filter`, is
/// post-only, and is limit-like; everything else is skipped, whatever
/// its price.  An oracle-relative price is the oracle price plus the
/// order's offset, rescaled; an absolute price is rescaled directly.
/// Ties go to the later-seen order.  Sides with no qualifying order
/// report the `{0, 0}` sentinel; an oracle-relative price that
/// resolves negative aborts with an arithmetic error.
pub fn best_quotes(orders: &Vec<RestingOwnOrder>, oracle: OraclePrice, market_filter: u16) -> (r:
    Result<(BestQuote, BestQuote), StrategyError>)
    ensures
        r == spec_best_quotes(orders@, oracle.price, market_filter),
{
    let mut bid: Option<BestQuote> = None;
    let mut ask: Option<BestQuote> = None;
    let mut i: usize = 0;
    proof {
        assert(orders@.take(0) =~= Seq::<RestingOwnOrder>::empty());
    }
    while i < orders.len()
        invariant
            0 <= i <= orders@.len(),
            !has_unresolvable(orders@.take(i as int), oracle.price, market_filter),
            bid == best_bid_fold(orders@.take(i as int), oracle.price, market_filter),
            ask == best_ask_fold(orders@.take(i as int), oracle.price, market_filter),
        decreases orders@.len() - i,
    {
        let o = orders[i];
        proof {
            assert(orders@.take(i as int + 1).drop_last() =~= orders@.take(i as int));
            assert(orders@.take(i as int + 1).last() == orders@[i as int]);
        }
        let limit_like = matches!(o.order_kind, OrderKind::Limit | OrderKind::OracleAnchored);
        if o.market_index == market_filter && o.is_post_only && limit_like {
            let price: u64;
            if o.oracle_price_offset == 0 {
                price = o.absolute_price / PRICE_SCALE;
            } else {
                let unit = scaled_oracle_price(oracle.price);
                let sum = unit + (o.oracle_price_offset as i64);
                if sum < 0 {
                    proof {
                        lemma_unresolvable_at(orders@, i as int, oracle.price, market_filter);
                    }
                    return Err(StrategyError::Arithmetic);
                }
                price = (sum as u64) / PRICE_SCALE;
            }
            let size = o.base_size / SIZE_SCALE;
            match o.direction {
                OrderDirection::Long => {
                    bid = match bid {
                        None => Some(BestQuote { price, size }),
                        Some(b) => if price >= b.price {
                            Some(BestQuote { price, size })
                        } else {
                            Some(b)
                        },
                    };
                },
                OrderDirection::Short => {
                    ask = match ask {
                        None => Some(BestQuote { price, size }),
                        Some(b) => if price <= b.price {
                            Some(BestQuote { price, size })
                        } else {
                            Some(b)
                        },
                    };
                },
            }
        }
        i = i + 1;
    }
    proof {
        assert(orders@.take(orders@.len() as int) =~= orders@);
    }
    Ok(
        (
            match bid {
                None => BestQuote { price: 0, size: 0 },
                Some(b) => b,
            },
            match ask {
                None => BestQuote { price: 0, size: 0 },
                Some(a) => a,
            },
        ),
    )
}

} // verus!
