//! The arbitrage gate: combines the local venue's best quotes with a
//! walk of the reference venue's book and accepts or rejects the
//! proposed directional trade.

use vstd::arithmetic::mul::{lemma_mul_inequality, lemma_mul_upper_bound};
use vstd::prelude::*;

use crate::book::{spec_walk, walk, FillResult, PriceLevel};
use crate::errors::StrategyError;
use crate::quotes::{best_quotes, spec_best_quotes, BestQuote, OraclePrice, RestingOwnOrder};

verus! {

/// Fixed integer scale that expresses the spread between two prices in
/// basis-point-like units without floating point.
pub const SPREAD_SCALE: u64 = 100000;

/// Why a trade was turned down.  All of these are expected outcomes,
/// not failures.
#[derive(Clone, Copy, Debug, PartialEq, Eq, Structural)]
pub enum RejectReason {
    /// The reference book could not fill the requested trade size.
    InsufficientDepth,
    /// The prices are not crossed in the requested direction.  This
    /// also covers the sides where no local order qualified, whose
    /// sentinel price 0 never exceeds a reference price.
    NotCrossed,
    /// The spread is below the caller's threshold.
    SpreadTooSmall,
    /// The local hedge side holds less size than the trade needs.
    InsufficientLocalSize,
}

/// The outcome of one evaluation: accepted, carrying the two opposing
/// prices and sizes that justified it, or rejected with a reason.
#[derive(Clone, Copy, Debug, PartialEq, Eq, Structural)]
pub enum ArbitrageVerdict {
    Accepted {
        /// The local venue's comparison price on the side that crossed.
        local_price: u64,
        /// The local size that covers the hedge leg.
        local_size: u64,
        /// The reference venue's average fill price for the trade size.
        reference_price: u64,
        /// The reference size actually filled (the trade size).
        reference_size: u64,
    },
    Rejected {
        reason: RejectReason,
    },
}

/// The spread between a crossing local price and the reference price,
/// in `SPREAD_SCALE` units; meaningful when `ref_price` is positive.
pub open spec fn spec_spread(local_price: u64, ref_price: u64) -> int {
    (local_price * SPREAD_SCALE - ref_price * SPREAD_SCALE) / (ref_price as int)
}

/// One directional branch of the decision, taking the reference fill
/// as given: `local_price` is the local side whose price must cross
/// the reference fill, `hedge_size` the other local side's size that
/// must cover the trade.  Crossing is checked first; then the scaled-spread
/// arithmetic must fit the price width and the reference price must
/// not be zero, else the evaluation aborts; then the spread and the
/// hedge size thresholds apply in that order.
pub open spec fn spec_gate_branch(
    local_price: u64,
    hedge_size: u64,
    fill: FillResult,
    trade_size: u64,
    min_spread: u64,
) -> Result<ArbitrageVerdict, StrategyError> {
    if local_price <= fill.average_price {
        Ok(ArbitrageVerdict::Rejected { reason: RejectReason::NotCrossed })
    } else if local_price * SPREAD_SCALE > u64::MAX || fill.average_price == 0 {
        Err(StrategyError::Arithmetic)
    } else if spec_spread(local_price, fill.average_price) < min_spread {
        Ok(ArbitrageVerdict::Rejected { reason: RejectReason::SpreadTooSmall })
    } else if hedge_size < trade_size {
        Ok(ArbitrageVerdict::Rejected { reason: RejectReason::InsufficientLocalSize })
    } else {
        Ok(
            ArbitrageVerdict::Accepted {
                local_price,
                local_size: hedge_size,
                reference_price: fill.average_price,
                reference_size: fill.filled_size,
            },
        )
    }
}

/// The complete outcome of one evaluation against a walked reference
/// side: a walk failure aborts; a partial fill rejects for
/// insufficient depth; otherwise the branch for the requested
/// direction decides.  Selling locally (`is_buy_local` false) compares
/// the local bid against the reference fill and hedges with the local
/// ask's size; buying locally is the mirror image.
pub open spec fn spec_evaluate(
    local_bid: BestQuote,
    local_ask: BestQuote,
    ref_side: Seq<PriceLevel>,
    trade_size: u64,
    is_buy_local: bool,
    min_spread: u64,
) -> Result<ArbitrageVerdict, StrategyError> {
    match spec_walk(ref_side, trade_size) {
        Err(e) => Err(e),
        Ok(fill) => if fill.filled_size < trade_size {
            Ok(ArbitrageVerdict::Rejected { reason: RejectReason::InsufficientDepth })
        } else if !is_buy_local {
            spec_gate_branch(local_bid.price, local_ask.size, fill, trade_size, min_spread)
        } else {
            spec_gate_branch(local_ask.price, local_bid.size, fill, trade_size, min_spread)
        },
    }
}

/// The whole evaluation from raw inputs: scan the local orders for the
/// best quotes, walk the reference side opposite the requested
/// direction, and gate the trade.
pub open spec fn spec_initialize(
    orders: Seq<RestingOwnOrder>,
    oracle_price: i64,
    market_filter: u16,
    ref_bids: Seq<PriceLevel>,
    ref_asks: Seq<PriceLevel>,
    min_spread: u64,
    is_buy_local: bool,
    trade_size: u64,
) -> Result<ArbitrageVerdict, StrategyError> {
    match spec_best_quotes(orders, oracle_price, market_filter) {
        Err(e) => Err(e),
        Ok(quotes) => spec_evaluate(
            quotes.0,
            quotes.1,
            if is_buy_local {
                ref_bids
            } else {
                ref_asks
            },
            trade_size,
            is_buy_local,
            min_spread,
        ),
    }
}

/// Gate symmetry: swapping the roles of the local bid and ask while
/// flipping the requested direction evaluates to the very same
/// verdict against the same walked reference side.
pub proof fn lemma_gate_symmetry(
    local_bid: BestQuote,
    local_ask: BestQuote,
    ref_side: Seq<PriceLevel>,
    trade_size: u64,
    min_spread: u64,
)
    ensures
        spec_evaluate(local_bid, local_ask, ref_side, trade_size, false, min_spread)
            == spec_evaluate(local_ask, local_bid, ref_side, trade_size, true, min_spread),
{
}

/// One directional branch of the decision over a given reference fill.
fn gate_branch(
    local_price: u64,
    hedge_size: u64,
    fill: FillResult,
    trade_size: u64,
    min_spread: u64,
) -> (r: Result<ArbitrageVerdict, StrategyError>)
    ensures
        r == spec_gate_branch(local_price, hedge_size, fill, trade_size, min_spread),
{
    let ref_price = fill.average_price;
    if local_price <= ref_price {
        return Ok(ArbitrageVerdict::Rejected { reason: RejectReason::NotCrossed });
    }
    proof {
        lemma_mul_upper_bound(
            local_price as int,
            u64::MAX as int,
            SPREAD_SCALE as int,
            SPREAD_SCALE as int,
        );
    }
    let local_scaled = (local_price as u128) * (SPREAD_SCALE as u128);
    if local_scaled > u64::MAX as u128 {
        return Err(StrategyError::Arithmetic);
    }
    if ref_price == 0 {
        return Err(StrategyError::Arithmetic);
    }
    let ref_scaled = (ref_price as u128) * (SPREAD_SCALE as u128);
    proof {
        lemma_mul_inequality(ref_price as int, local_price as int, SPREAD_SCALE as int);
    }
    let spread = (local_scaled - ref_scaled) / (ref_price as u128);
    if spread < min_spread as u128 {
        Ok(ArbitrageVerdict::Rejected { reason: RejectReason::SpreadTooSmall })
    } else if hedge_size < trade_size {
        Ok(ArbitrageVerdict::Rejected { reason: RejectReason::InsufficientLocalSize })
    } else {
        Ok(
            ArbitrageVerdict::Accepted {
                local_price,
                local_size: hedge_size,
                reference_price: ref_price,
                reference_size: fill.filled_size,
            },
        )
    }
}

/// Evaluates the proposed trade against already-extracted local quotes
/// and the reference side opposite the requested direction.
pub fn evaluate(
    local_bid: BestQuote,
    local_ask: BestQuote,
    ref_side: &Vec<PriceLevel>,
    trade_size: u64,
    is_buy_local: bool,
    min_spread: u64,
) -> (r: Result<ArbitrageVerdict, StrategyError>)
    ensures
        r == spec_evaluate(local_bid, local_ask, ref_side@, trade_size, is_buy_local, min_spread),
{
    let fill = match walk(ref_side, trade_size) {
        Ok(f) => f,
        Err(e) => {
            return Err(e);
        },
    };
    if fill.filled_size < trade_size {
        return Ok(ArbitrageVerdict::Rejected { reason: RejectReason::InsufficientDepth });
    }
    if !is_buy_local {
        gate_branch(local_bid.price, local_ask.size, fill, trade_size, min_spread)
    } else {
        gate_branch(local_ask.price, local_bid.size, fill, trade_size, min_spread)
    }
}

/// The single evaluation entry point: extracts the best local quotes,
/// walks the reference side opposite the requested direction for
/// `trade_size`, and gates the trade on the spread threshold
/// `min_spread` and on local hedge size.
pub fn initialize(
    orders: &Vec<RestingOwnOrder>,
    oracle: OraclePrice,
    market_filter: u16,
    ref_bids: &Vec<PriceLevel>,
    ref_asks: &Vec<PriceLevel>,
    min_spread: u64,
    is_buy_local: bool,
    trade_size: u64,
) -> (r: Result<ArbitrageVerdict, StrategyError>)
    ensures
        r == spec_initialize(
            orders@,
            oracle.price,
            market_filter,
            ref_bids@,
            ref_asks@,
            min_spread,
            is_buy_local,
            trade_size,
        ),
{
    let quotes = match best_quotes(orders, oracle, market_filter) {
        Ok(q) => q,
        Err(e) => {
            return Err(e);
        },
    };
    let ref_side = if is_buy_local {
        ref_bids
    } else {
        ref_asks
    };
    evaluate(quotes.0, quotes.1, ref_side, trade_size, is_buy_local, min_spread)
}

} // verus!
