//! Cross-venue arbitrage evaluation core.
//!
//! The library compares liquidity on two order-book venues and decides
//! whether a proposed directional trade clears a caller-supplied spread
//! and size threshold.  It is built from three pure components:
//!
//! - [`book::walk`]: walks one side of the reference venue's book and
//!   returns the size-weighted average price for a target trade size;
//! - [`quotes::best_quotes`]: scans the caller's own resting orders on
//!   the local venue, resolves oracle-relative price offsets, and picks
//!   the best bid and ask;
//! - [`gate::evaluate`] and [`gate::initialize`]: combine the two and
//!   accept or reject the trade.
//!
//! Every component is a stateless function over plain values; loading
//! and deserialising the venue snapshots, the order list and the oracle
//! feed is the caller's business.

pub mod book;
pub mod errors;
pub mod gate;
pub mod quotes;
