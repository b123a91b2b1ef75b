//! The strategy composition and decision engine.
//!
//! A [`Strategy`] maps one price observation per block to at most one
//! [`Trade`] intent. Leaf policies ([`Empty`], [`AlwaysBuy`],
//! [`AlwaysSell`], [`Threshold`]) are stateless; the composite
//! [`ExponentialMovingAverage`] smooths the observed price and delegates
//! the decision to an inner strategy it owns. A declarative [`Config`]
//! tree builds a concrete strategy once at startup.

use vstd::prelude::*;

use crate::rational::Rational;

verus! {

/// Exact rational trade amount: `numerator / denominator` of unsigned
/// integers, so an amount survives the trip to on-chain token precision
/// without floating-point drift.
///
/// A meaningful amount has a nonzero denominator; the engine does not
/// enforce that, mirroring the configuration pipeline, which passes
/// numeric values through unvalidated. The engine never divides by the
/// denominator, so a zero denominator cannot fail a decision step.
#[derive(Debug, Clone, Copy, PartialEq, Eq, Structural)]
pub struct Fraction {
    pub numerator: u64,
    pub denominator: u64,
}

impl Fraction {
    pub fn new(numerator: u64, denominator: u64) -> (r: Fraction)
        ensures
            r.numerator == numerator,
            r.denominator == denominator,
    {
        Fraction { numerator, denominator }
    }
}

/// A configured amount: either a plain integer (denominator 1) or an
/// explicit numerator/denominator pair. Both normalize to a [`Fraction`].
#[derive(Debug, Clone, Copy, PartialEq, Eq, Structural)]
pub enum FractionInput {
    Int(u64),
    Fraction { numerator: u64, denominator: u64 },
}

/// The [`Fraction`] a configured amount denotes.
pub open spec fn fraction_of(input: FractionInput) -> Fraction {
    match input {
        FractionInput::Int(i) => Fraction { numerator: i, denominator: 1 },
        FractionInput::Fraction { numerator, denominator } => Fraction { numerator, denominator },
    }
}

impl FractionInput {
    pub fn to_fraction(&self) -> (r: Fraction)
        ensures
            r == fraction_of(*self),
    {
        match self {
            FractionInput::Int(i) => Fraction { numerator: *i, denominator: 1 },
            FractionInput::Fraction { numerator, denominator } => {
                Fraction { numerator: *numerator, denominator: *denominator }
            },
        }
    }
}

/// Context handed to a strategy each evaluation cycle: the pool price
/// observed at the current block, as an exact rational.
#[derive(Debug, Clone, Copy, PartialEq, Eq, Structural)]
pub struct TradeContext {
    pub price_lossy: Rational,
}

/// A trade intent: buy or sell a fixed exact amount. Produced fresh each
/// cycle and handed to the execution collaborator; `None` from a
/// strategy means "no trade this cycle".
#[derive(Debug, Clone, Copy, PartialEq, Eq, Structural)]
pub enum Trade {
    Buy { amount: Fraction },
    Sell { amount: Fraction },
}

/// Strategy that never trades: the explicit "do nothing" policy and the
/// base case terminating composite chains.
#[derive(Debug, Clone, Copy, PartialEq, Eq, Structural)]
pub struct Empty;

/// Strategy that buys its fixed configured amount every cycle, ignoring
/// the price entirely.
#[derive(Debug, Clone, Copy, PartialEq, Eq, Structural)]
pub struct AlwaysBuy(pub FractionInput);

/// Strategy that sells its fixed configured amount every cycle, ignoring
/// the price entirely.
#[derive(Debug, Clone, Copy, PartialEq, Eq, Structural)]
pub struct AlwaysSell(pub FractionInput);

/// One-sided trigger: a price level paired with the amount to trade when
/// the level is crossed.
#[derive(Debug, Clone, Copy, PartialEq, Eq)]
pub struct ThresholdPoint {
    pub at: Rational,
    pub amount: FractionInput,
}

/// Strategy that buys at or below one price and sells at or above
/// another. Either side may be absent, in which case it never fires; the
/// buy side is checked first.
#[derive(Debug, Clone, Copy, PartialEq, Eq)]
pub struct Threshold {
    pub buy: Option<ThresholdPoint>,
    pub sell: Option<ThresholdPoint>,
}

/// Composite strategy that feeds an exponentially smoothed price to the
/// inner strategy it owns.
///
/// `carry` is the weight kept from the previous smoothed price, usually
/// in `[0, 1]`; it is not validated, so an out-of-range value gives
/// divergent rather than smoothed behavior — a caller responsibility.
/// `last` is the smoothing memory, absent until the first observation.
#[derive(Debug)]
pub struct ExponentialMovingAverage {
    pub inner: Box<Strategy>,
    pub carry: Rational,
    pub last: Option<Rational>,
}

/// A decision policy: one of the closed set of strategy variants,
/// dispatched by pattern match. The composite variant owns its inner
/// strategy exclusively, so a strategy value is a finite tree.
#[derive(Debug)]
pub enum Strategy {
    Empty(Empty),
    AlwaysBuy(AlwaysBuy),
    AlwaysSell(AlwaysSell),
    Threshold(Threshold),
    Ema(ExponentialMovingAverage),
}

/// What the sell side of a threshold decides once the buy side has
/// declined: sell the configured amount iff the price is at or above the
/// sell level.
pub open spec fn threshold_sell_decision(sell: Option<ThresholdPoint>, price: Rational) -> Option<
    Trade,
> {
    match sell {
        Some(s) => if price.is_ge(s.at) {
            Some(Trade::Sell { amount: fraction_of(s.amount) })
        } else {
            None
        },
        None => None,
    }
}

/// The threshold decision rule, buy side checked strictly first: buy at
/// or below the buy level, else sell at or above the sell level, else no
/// trade.
pub open spec fn threshold_decision(t: Threshold, price: Rational) -> Option<Trade> {
    match t.buy {
        Some(b) => if price.is_le(b.at) {
            Some(Trade::Buy { amount: fraction_of(b.amount) })
        } else {
            threshold_sell_decision(t.sell, price)
        },
        None => threshold_sell_decision(t.sell, price),
    }
}

/// `x` is representable as an `i128`.
pub open spec fn in_i128(x: int) -> bool {
    i128::MIN <= x <= i128::MAX
}

/// Numerator of `last * carry + price * (1 - carry)` computed exactly
/// over the common denominator `last.den * carry.den * price.den`.
pub open spec fn smoothed_num(last: Rational, carry: Rational, price: Rational) -> int {
    last.num * carry.num * price.den + price.num * (carry.den - carry.num) * last.den
}

/// Denominator of the exact smoothing step: the product of the three
/// denominators.
pub open spec fn smoothed_den(last: Rational, carry: Rational, price: Rational) -> int {
    last.den * carry.den * price.den
}

/// The exact smoothing step is representable: every intermediate product
/// of the fixed evaluation order fits in an `i128`, and the resulting
/// numerator and denominator fit the [`Rational`] fields.
pub open spec fn ema_fits(last: Rational, carry: Rational, price: Rational) -> bool {
    &&& in_i128(last.num * carry.num * price.den)
    &&& in_i128(price.num * (carry.den - carry.num))
    &&& in_i128(price.num * (carry.den - carry.num) * last.den)
    &&& in_i128(smoothed_num(last, carry, price))
    &&& in_i128(last.den * carry.den)
    &&& in_i128(smoothed_den(last, carry, price))
    &&& i64::MIN <= smoothed_num(last, carry, price) <= i64::MAX
    &&& smoothed_den(last, carry, price) <= u64::MAX
}

/// The smoothed price one step produces: the exact value of
/// `last * carry + price * (1 - carry)` when it is representable, and
/// the raw price otherwise (the smoothing memory restarts rather than
/// round).
pub open spec fn ema_smoothed(last: Rational, carry: Rational, price: Rational) -> Rational {
    if ema_fits(last, carry, price) {
        Rational {
            num: smoothed_num(last, carry, price) as i64,
            den: smoothed_den(last, carry, price) as u64,
        }
    } else {
        price
    }
}

/// The price an average hands to its inner strategy for a raw
/// observation: the raw price on a cold start, one smoothing step
/// otherwise.
pub open spec fn smoothed_of(e: ExponentialMovingAverage, price: Rational) -> Rational {
    match e.last {
        Some(l) => ema_smoothed(l, e.carry, price),
        None => price,
    }
}

/// The trade a strategy emits for a raw price observation.
pub open spec fn output_of(s: Strategy, price: Rational) -> Option<Trade>
    decreases s,
{
    match s {
        Strategy::Empty(_) => None,
        Strategy::AlwaysBuy(a) => Some(Trade::Buy { amount: fraction_of(a.0) }),
        Strategy::AlwaysSell(a) => Some(Trade::Sell { amount: fraction_of(a.0) }),
        Strategy::Threshold(t) => threshold_decision(t, price),
        Strategy::Ema(e) => output_of(*e.inner, smoothed_of(e, price)),
    }
}

/// How one evaluation cycle changes a strategy: every moving average on
/// the delegation path records its newly smoothed price — even when the
/// final answer is "no trade" — and everything else is unchanged.
pub open spec fn steps_to(pre: Strategy, price: Rational, post: Strategy) -> bool
    decreases pre,
{
    match pre {
        Strategy::Ema(e) => {
            &&& post matches Strategy::Ema(e2)
            &&& e2.carry == e.carry
            &&& e2.last == Some(smoothed_of(e, price))
            &&& steps_to(*e.inner, smoothed_of(e, price), *e2.inner)
        },
        _ => post == pre,
    }
}

/// One exact smoothing step: `last * carry + price * (1 - carry)` over a
/// common denominator, or `price` itself when the exact result is not
/// representable.
pub fn smooth_step(last: &Rational, carry: &Rational, price: &Rational) -> (r: Rational)
    ensures
        r == ema_smoothed(*last, *carry, *price),
{
    let a: i128 = last.num as i128;
    let b: i128 = last.den as i128;
    let e: i128 = carry.num as i128;
    let f: i128 = carry.den as i128;
    let g: i128 = price.num as i128;
    let h: i128 = price.den as i128;
    proof {
        assert(i128::MIN <= a * e <= i128::MAX) by (nonlinear_arith)
            requires
                i64::MIN <= a <= i64::MAX,
                i64::MIN <= e <= i64::MAX,
        ;
    }
    let n1: i128 = a * e;
    let buy_side: Option<i128> = n1.checked_mul(h);
    let fe: i128 = f - e;
    let sell_weight: Option<i128> = g.checked_mul(fe);
    let sell_side: Option<i128> = match sell_weight {
        Some(v) => v.checked_mul(b),
        None => None,
    };
    let num: Option<i128> = match (buy_side, sell_side) {
        (Some(x), Some(y)) => x.checked_add(y),
        _ => None,
    };
    let d1: Option<i128> = b.checked_mul(f);
    let den: Option<i128> = match d1 {
        Some(v) => v.checked_mul(h),
        None => None,
    };
    match (num, den) {
        (Some(n), Some(d)) => {
            if i64::MIN as i128 <= n && n <= i64::MAX as i128 && d <= u64::MAX as i128 {
                proof {
                    assert(d >= 0) by (nonlinear_arith)
                        requires
                            b >= 0,
                            f >= 0,
                            h >= 0,
                            d == b * f * h,
                    ;
                }
                Rational { num: n as i64, den: d as u64 }
            } else {
                *price
            }
        },
        _ => *price,
    }
}

impl Empty {
    /// Never trades, never changes.
    pub fn trade(&mut self, _ctx: &TradeContext) -> (r: Option<Trade>)
        ensures
            r is None,
            *final(self) == *old(self),
    {
        None
    }
}

impl AlwaysBuy {
    /// Buys the fixed configured amount, whatever the price.
    pub fn trade(&mut self, _ctx: &TradeContext) -> (r: Option<Trade>)
        ensures
            r == Some(Trade::Buy { amount: fraction_of(old(self).0) }),
            *final(self) == *old(self),
    {
        Some(Trade::Buy { amount: self.0.to_fraction() })
    }
}

impl AlwaysSell {
    /// Sells the fixed configured amount, whatever the price.
    pub fn trade(&mut self, _ctx: &TradeContext) -> (r: Option<Trade>)
        ensures
            r == Some(Trade::Sell { amount: fraction_of(old(self).0) }),
            *final(self) == *old(self),
    {
        Some(Trade::Sell { amount: self.0.to_fraction() })
    }
}

impl Threshold {
    /// Decides by the fixed rule: buy at or below the buy level, else
    /// sell at or above the sell level, else nothing. Pure in the
    /// current price and the static levels; no state is touched.
    pub fn trade(&mut self, ctx: &TradeContext) -> (r: Option<Trade>)
        ensures
            r == threshold_decision(*old(self), ctx.price_lossy),
            *final(self) == *old(self),
    {
        if let Some(buy) = &self.buy {
            if ctx.price_lossy.at_most(&buy.at) {
                return Some(Trade::Buy { amount: buy.amount.to_fraction() });
            }
        }
        if let Some(sell) = &self.sell {
            if ctx.price_lossy.at_least(&sell.at) {
                return Some(Trade::Sell { amount: sell.amount.to_fraction() });
            }
        }
        None
    }
}

impl ExponentialMovingAverage {
    /// Smooths the observed price, records it unconditionally — the
    /// average reflects every observation, whatever the inner strategy
    /// answers — and delegates the decision to the inner strategy at the
    /// smoothed price.
    pub fn trade(&mut self, ctx: &TradeContext) -> (r: Option<Trade>)
        ensures
            r == output_of(Strategy::Ema(*old(self)), ctx.price_lossy),
            steps_to(
                Strategy::Ema(*old(self)),
                ctx.price_lossy,
                Strategy::Ema(*final(self)),
            ),
        decreases *old(self),
    {
        let price = match &self.last {
            Some(l) => smooth_step(l, &self.carry, &ctx.price_lossy),
            None => ctx.price_lossy,
        };
        self.last = Some(price);
        self.inner.trade(&TradeContext { price_lossy: price })
    }
}

impl Strategy {
    /// One evaluation cycle: emits the strategy's decision for the
    /// observed price and advances the smoothing state along the
    /// delegation path. Total — no input can make it fail.
    pub fn trade(&mut self, ctx: &TradeContext) -> (r: Option<Trade>)
        ensures
            r == output_of(*old(self), ctx.price_lossy),
            steps_to(*old(self), ctx.price_lossy, *final(self)),
        decreases *old(self),
    {
        match self {
            Strategy::Empty(s) => s.trade(ctx),
            Strategy::AlwaysBuy(s) => s.trade(ctx),
            Strategy::AlwaysSell(s) => s.trade(ctx),
            Strategy::Threshold(s) => s.trade(ctx),
            Strategy::Ema(e) => e.trade(ctx),
        }
    }
}

/// Declarative description of a strategy, mirroring the strategy
/// variants; the composite variant nests another configuration, so a
/// configuration is a finite tree built by the external loader.
#[derive(Debug)]
pub enum Config {
    Empty(()),
    AlwaysBuy(AlwaysBuy),
    AlwaysSell(AlwaysSell),
    Threshold(Threshold),
    Ema { carry: Rational, inner: Box<Config> },
}

/// `s` is the strategy a configuration describes: the matching variant
/// with the same configured data, every moving average starting cold
/// (no smoothing memory).
pub open spec fn builds(c: Config, s: Strategy) -> bool
    decreases c,
{
    match c {
        Config::Empty(_) => s == Strategy::Empty(Empty),
        Config::AlwaysBuy(v) => s == Strategy::AlwaysBuy(v),
        Config::AlwaysSell(v) => s == Strategy::AlwaysSell(v),
        Config::Threshold(v) => s == Strategy::Threshold(v),
        Config::Ema { carry, inner } => {
            &&& s matches Strategy::Ema(e)
            &&& e.carry == carry
            &&& e.last is None
            &&& builds(*inner, *e.inner)
        },
    }
}

impl Config {
    /// Builds the strategy this configuration describes, by recursive
    /// descent; a nested configuration is built first and then wrapped.
    /// Construction is total: malformed documents are rejected by the
    /// external loader before a configuration value exists.
    pub fn into_dyn(self) -> (s: Strategy)
        ensures
            builds(self, s),
        decreases self,
    {
        match self {
            Config::Empty(()) => Strategy::Empty(Empty),
            Config::AlwaysBuy(v) => Strategy::AlwaysBuy(v),
            Config::AlwaysSell(v) => Strategy::AlwaysSell(v),
            Config::Threshold(v) => Strategy::Threshold(v),
            Config::Ema { carry, inner } => {
                let built = (*inner).into_dyn();
                Strategy::Ema(
                    ExponentialMovingAverage { inner: Box::new(built), carry, last: None },
                )
            },
        }
    }
}

} // verus!
