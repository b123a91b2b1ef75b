//! Trade-decision engine for a market-monitoring loop.
//!
//! On each observed block the driver wraps the current pool price in a
//! [`strategy::TradeContext`] and asks a single long-lived
//! [`strategy::Strategy`] for at most one trade intent. Prices are carried
//! as exact rationals ([`rational::Rational`]), so every decision and the
//! exponential-moving-average recurrence are computed exactly.

pub mod laws;
pub mod rational;
pub mod strategy;
