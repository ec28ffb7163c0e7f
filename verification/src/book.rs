//! The book walker: size-weighted average fill price over one side of
//! an order book.

use vstd::arithmetic::div_mod::{lemma_div_nonincreasing, lemma_div_pos_is_pos};
use vstd::arithmetic::mul::{lemma_mul_nonnegative, lemma_mul_upper_bound};
use vstd::prelude::*;

use crate::errors::StrategyError;

verus! {

/// One resting quantity at one price on one side of a venue's book.
#[derive(Clone, Copy, Debug, PartialEq, Eq, Structural)]
pub struct PriceLevel {
    pub price: u64,
    pub size: u64,
}

/// What a walk of the book produced.  `average_price` is meaningful
/// only when `filled_size` reached the requested target; when the book
/// is too shallow it is set to 0 and callers must treat the fill as
/// insufficient.
#[derive(Clone, Copy, Debug, PartialEq, Eq, Structural)]
pub struct FillResult {
    pub average_price: u64,
    pub filled_size: u64,
}

/// The total size resting on the book: the sum of all level sizes.
pub open spec fn sum_sizes(levels: Seq<PriceLevel>) -> int
    decreases levels.len(),
{
    if levels.len() == 0 {
        0
    } else {
        levels.first().size + sum_sizes(levels.drop_first())
    }
}

/// The value (price times size summed over every level) of the whole
/// book, with no target cap.
pub open spec fn weighted_value(levels: Seq<PriceLevel>) -> int
    decreases levels.len(),
{
    if levels.len() == 0 {
        0
    } else {
        levels.first().price * levels.first().size + weighted_value(levels.drop_first())
    }
}

/// The value consumed by a best-first walk that fills up to `target`:
/// whole levels while they fit, then the remainder of the first level
/// that does not, and nothing beyond it.
pub open spec fn walk_value(levels: Seq<PriceLevel>, target: int) -> int
    decreases levels.len(),
{
    if levels.len() == 0 {
        0
    } else {
        let l = levels.first();
        if l.size <= target {
            l.price * l.size + walk_value(levels.drop_first(), target - l.size)
        } else {
            l.price * target
        }
    }
}

/// The size such a walk fills: the whole target when the book is deep
/// enough, else everything the book has.
pub open spec fn filled_of(levels: Seq<PriceLevel>, target: int) -> int {
    if sum_sizes(levels) <= target {
        sum_sizes(levels)
    } else {
        target
    }
}

/// The complete outcome of walking `levels` for `target_size`.
///
/// The walk fails with an arithmetic error exactly when the consumed
/// value does not fit the price width, or when `target_size` is 0 and
/// the average-price division would divide by zero.  Otherwise the fill
/// size is the smaller of the book's depth and the target, and the
/// average price is the consumed value divided by the target when the
/// target was reached, 0 when the book was too shallow.
pub open spec fn spec_walk(levels: Seq<PriceLevel>, target_size: u64) -> Result<
    FillResult,
    StrategyError,
> {
    if target_size == 0 || walk_value(levels, target_size as int) > u64::MAX {
        Err(StrategyError::Arithmetic)
    } else {
        Ok(
            FillResult {
                average_price: if sum_sizes(levels) >= target_size {
                    (walk_value(levels, target_size as int) / (target_size as int)) as u64
                } else {
                    0
                },
                filled_size: filled_of(levels, target_size as int) as u64,
            },
        )
    }
}

pub proof fn lemma_sum_sizes_nonneg(levels: Seq<PriceLevel>)
    ensures
        sum_sizes(levels) >= 0,
    decreases levels.len(),
{
    if levels.len() > 0 {
        lemma_sum_sizes_nonneg(levels.drop_first());
    }
}

pub proof fn lemma_walk_value_nonneg(levels: Seq<PriceLevel>, target: int)
    requires
        target >= 0,
    ensures
        walk_value(levels, target) >= 0,
    decreases levels.len(),
{
    if levels.len() > 0 {
        let l = levels.first();
        if l.size <= target {
            lemma_mul_nonnegative(l.price as int, l.size as int);
            lemma_walk_value_nonneg(levels.drop_first(), target - l.size);
        } else {
            lemma_mul_nonnegative(l.price as int, target);
        }
    }
}

/// A walk that can consume the whole book consumes exactly its
/// weighted value: once the target is at least the book's depth, the
/// value filled is the plain sum of price times size over every level.
pub proof fn lemma_walk_value_whole(levels: Seq<PriceLevel>, target: int)
    requires
        sum_sizes(levels) <= target,
    ensures
        walk_value(levels, target) == weighted_value(levels),
    decreases levels.len(),
{
    if levels.len() > 0 {
        lemma_sum_sizes_nonneg(levels.drop_first());
        lemma_walk_value_whole(levels.drop_first(), target - levels.first().size);
    }
}

/// Walker monotonicity: raising the target never shrinks the fill, and
/// the fill never exceeds its own target.
pub proof fn lemma_walker_monotonic(levels: Seq<PriceLevel>, t1: u64, t2: u64)
    requires
        t1 <= t2,
    ensures
        match (spec_walk(levels, t1), spec_walk(levels, t2)) {
            (Ok(f1), Ok(f2)) => f1.filled_size <= f2.filled_size && f1.filled_size <= t1,
            _ => true,
        },
{
    lemma_sum_sizes_nonneg(levels);
}

/// Walker exactness: when the book holds at least the target, the walk
/// fills the target exactly, and the average price is the consumed
/// value divided by the target (integer division).
pub proof fn lemma_walker_exact(levels: Seq<PriceLevel>, target_size: u64)
    requires
        sum_sizes(levels) >= target_size,
    ensures
        match spec_walk(levels, target_size) {
            Ok(f) => f.filled_size == target_size && f.average_price == walk_value(
                levels,
                target_size as int,
            ) / (target_size as int),
            Err(_) => true,
        },
{
    if spec_walk(levels, target_size) is Ok {
        lemma_walk_value_nonneg(levels, target_size as int);
        lemma_div_pos_is_pos(walk_value(levels, target_size as int), target_size as int);
        lemma_div_nonincreasing(walk_value(levels, target_size as int), target_size as int);
    }
}

/// Walker insufficiency: when the book holds less than the target, the
/// walk fills exactly the book's depth, stays below the target, and
/// reports no average price.
pub proof fn lemma_walker_insufficient(levels: Seq<PriceLevel>, target_size: u64)
    requires
        sum_sizes(levels) < target_size,
    ensures
        match spec_walk(levels, target_size) {
            Ok(f) => f.filled_size == sum_sizes(levels) && f.filled_size < target_size
                && f.average_price == 0,
            Err(_) => true,
        },
{
    lemma_sum_sizes_nonneg(levels);
}

/// Walks `levels` best-first and fills up to `target_size`.
///
/// Whole levels are consumed while they fit; the first level that does
/// not fit is consumed only for the remaining size and the scan stops
/// there.  All value arithmetic is checked: an accumulated value beyond
/// the price width aborts with an arithmetic error, as does the
/// average-price division when `target_size` is 0.  The caller is
/// expected to hand the levels best-first (lowest ask or highest bid
/// first); the walk itself does not re-sort and is well defined on any
/// order.
pub fn walk(levels: &Vec<PriceLevel>, target_size: u64) -> (r: Result<
    FillResult,
    StrategyError,
>)
    ensures
        r == spec_walk(levels@, target_size),
{
    if target_size == 0 {
        return Err(StrategyError::Arithmetic);
    }
    let t = target_size;
    let mut filled: u64 = 0;
    let mut value: u64 = 0;
    let mut i: usize = 0;
    proof {
        assert(levels@.skip(0) =~= levels@);
    }
    while i < levels.len()
        invariant_except_break
            0 <= i <= levels@.len(),
            filled <= t,
            t == target_size,
            value + walk_value(levels@.skip(i as int), t - filled) == walk_value(
                levels@,
                t as int,
            ),
            sum_sizes(levels@) == filled + sum_sizes(levels@.skip(i as int)),
        ensures
            filled <= t,
            value == walk_value(levels@, t as int),
            filled as int == filled_of(levels@, t as int),
        decreases levels@.len() - i,
    {
        let l = levels[i];
        proof {
            assert(levels@.skip(i as int).len() > 0);
            assert(levels@.skip(i as int).first() == levels@[i as int]);
            assert(levels@.skip(i as int).drop_first() =~= levels@.skip(i as int + 1));
        }
        let remaining = t - filled;
        if l.size <= remaining {
            proof {
                lemma_mul_upper_bound(l.price as int, u64::MAX as int, l.size as int, u64::MAX as int);
                lemma_mul_nonnegative(l.price as int, l.size as int);
                lemma_walk_value_nonneg(levels@.skip(i as int + 1), remaining - l.size);
            }
            let term = (l.price as u128) * (l.size as u128);
            let total = (value as u128) + term;
            if total > u64::MAX as u128 {
                return Err(StrategyError::Arithmetic);
            }
            value = total as u64;
            filled = filled + l.size;
            i = i + 1;
        } else {
            proof {
                lemma_mul_upper_bound(
                    l.price as int,
                    u64::MAX as int,
                    remaining as int,
                    u64::MAX as int,
                );
                lemma_mul_nonnegative(l.price as int, remaining as int);
            }
            let term = (l.price as u128) * (remaining as u128);
            let total = (value as u128) + term;
            if total > u64::MAX as u128 {
                return Err(StrategyError::Arithmetic);
            }
            value = total as u64;
            filled = t;
            proof {
                lemma_sum_sizes_nonneg(levels@.skip(i as int + 1));
            }
            break ;
        }
    }
    if filled >= t {
        let average = value / filled;
        proof {
            lemma_walk_value_nonneg(levels@, t as int);
            lemma_div_pos_is_pos(value as int, t as int);
            lemma_div_nonincreasing(value as int, t as int);
        }
        Ok(FillResult { average_price: average, filled_size: filled })
    } else {
        Ok(FillResult { average_price: 0, filled_size: filled })
    }
}

} // verus!
