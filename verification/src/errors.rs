//! Hard failures of an evaluation.

use vstd::prelude::*;

verus! {

/// A hard failure that aborts the whole evaluation with no partial
/// result.  Expected negative outcomes (insufficient depth, no
/// qualifying order, a spread below the threshold) are not errors: they
/// are folded into the rejection branch of the verdict instead.
#[derive(Clone, Copy, Debug, PartialEq, Eq, Structural)]
pub enum StrategyError {
    /// Overflow, underflow or division by zero in a checked arithmetic
    /// step: price times size, offset resolution, the spread
    /// computation, or the average-price division.
    Arithmetic,
}

} // verus!
