//! The engine's guarantees, stated once over all inputs.
//!
//! Each proof function here is a law of the decision pipeline, proved
//! from the contracts in [`crate::strategy`] and [`crate::rational`]:
//! what the fixed-amount policies emit, how a threshold partitions the
//! price line, and how the moving average treats its first and every
//! later observation.

use vstd::prelude::*;

use crate::rational::lemma_le_lt_trans;
use crate::rational::Rational;
use crate::strategy::builds;
use crate::strategy::ema_fits;
use crate::strategy::ema_smoothed;
use crate::strategy::fraction_of;
use crate::strategy::output_of;
use crate::strategy::smoothed_den;
use crate::strategy::smoothed_num;
use crate::strategy::smoothed_of;
use crate::strategy::steps_to;
use crate::strategy::threshold_decision;
use crate::strategy::AlwaysBuy;
use crate::strategy::AlwaysSell;
use crate::strategy::Config;
use crate::strategy::Empty;
use crate::strategy::ExponentialMovingAverage;
use crate::strategy::FractionInput;
use crate::strategy::Strategy;
use crate::strategy::Threshold;
use crate::strategy::ThresholdPoint;
use crate::strategy::Trade;

verus! {

/// An always-buy strategy emits a buy of its fixed amount for every
/// possible price: zero, negative or arbitrarily large.
pub proof fn always_buy_ignores_price(a: AlwaysBuy, price: Rational)
    ensures
        output_of(Strategy::AlwaysBuy(a), price) == Some(Trade::Buy { amount: fraction_of(a.0) }),
{
}

/// An always-sell strategy emits a sell of its fixed amount for every
/// possible price.
pub proof fn always_sell_ignores_price(a: AlwaysSell, price: Rational)
    ensures
        output_of(Strategy::AlwaysSell(a), price) == Some(
            Trade::Sell { amount: fraction_of(a.0) },
        ),
{
}

/// A threshold whose buy level lies strictly below its sell level
/// partitions the price line into three bands: at or below the buy
/// level it buys the buy amount, at or above the sell level it sells
/// the sell amount, and strictly between the two it does nothing.
pub proof fn threshold_band_partition(t: Threshold, b: ThresholdPoint, s: ThresholdPoint, price: Rational)
    requires
        t.buy == Some(b),
        t.sell == Some(s),
        b.at.wf(),
        s.at.wf(),
        price.wf(),
        b.at.is_lt(s.at),
    ensures
        price.is_le(b.at) ==> threshold_decision(t, price) == Some(
            Trade::Buy { amount: fraction_of(b.amount) },
        ),
        price.is_ge(s.at) ==> threshold_decision(t, price) == Some(
            Trade::Sell { amount: fraction_of(s.amount) },
        ),
        !price.is_le(b.at) && !price.is_ge(s.at) ==> threshold_decision(t, price) is None,
{
    if price.is_le(b.at) {
        lemma_le_lt_trans(price, b.at, s.at);
    }
}

/// Tie-break: whenever the buy condition holds, the decision is the
/// buy — never a sell — even if the sell condition holds for the same
/// price, because the buy side is checked strictly first.
pub proof fn threshold_buy_wins_ties(t: Threshold, b: ThresholdPoint, price: Rational)
    requires
        t.buy == Some(b),
        price.is_le(b.at),
    ensures
        threshold_decision(t, price) == Some(Trade::Buy { amount: fraction_of(b.amount) }),
{
}

/// Cold start: with no smoothing memory, a moving average hands the raw
/// observed price unmodified to its inner strategy.
pub proof fn ema_cold_start_passes_raw_price(e: ExponentialMovingAverage, price: Rational)
    requires
        e.last is None,
    ensures
        smoothed_of(e, price) == price,
        output_of(Strategy::Ema(e), price) == output_of(*e.inner, price),
{
}

/// The smoothing recurrence, exactly: whenever the exact value of
/// `last * carry + price * (1 - carry)` is representable, one step
/// stores precisely its numerator over its common denominator — no
/// rounding, no approximation.
pub proof fn ema_recurrence_exact(last: Rational, carry: Rational, price: Rational)
    requires
        ema_fits(last, carry, price),
    ensures
        ema_smoothed(last, carry, price).num == smoothed_num(last, carry, price),
        ema_smoothed(last, carry, price).den == smoothed_den(last, carry, price),
{
}

/// A carry of exactly zero keeps nothing of the past: the smoothed
/// value equals the latest raw price, as a rational, on every step —
/// representable or not.
pub proof fn ema_carry_zero_tracks_raw_price(last: Rational, carry: Rational, price: Rational)
    requires
        last.wf(),
        carry.wf(),
        price.wf(),
        carry.num == 0,
    ensures
        ema_smoothed(last, carry, price).same_value(price),
{
    if ema_fits(last, carry, price) {
        let sm = ema_smoothed(last, carry, price);
        assert(sm.num * price.den == price.num * sm.den) by (nonlinear_arith)
            requires
                sm.num == last.num * carry.num * price.den + price.num * (carry.den - carry.num)
                    * last.den,
                sm.den == last.den * carry.den * price.den,
                carry.num == 0,
        ;
    }
}

/// A carry of exactly one is frozen: as long as the exact step is
/// representable, the smoothed value equals the previous smoothed
/// value, as a rational — the raw price never enters.
pub proof fn ema_carry_one_freezes(last: Rational, carry: Rational, price: Rational)
    requires
        last.wf(),
        carry.wf(),
        price.wf(),
        carry.num == carry.den,
        ema_fits(last, carry, price),
    ensures
        ema_smoothed(last, carry, price).same_value(last),
{
    let sm = ema_smoothed(last, carry, price);
    assert(sm.num * last.den == last.num * sm.den) by (nonlinear_arith)
        requires
            sm.num == last.num * carry.num * price.den + price.num * (carry.den - carry.num)
                * last.den,
            sm.den == last.den * carry.den * price.den,
            carry.num == carry.den,
    ;
}

/// A moving average records a new smoothed price on every cycle,
/// whatever its inner strategy answers: after any step the memory holds
/// exactly the smoothed value of that observation.
pub proof fn ema_state_always_advances(e: ExponentialMovingAverage, price: Rational, post: Strategy)
    requires
        steps_to(Strategy::Ema(e), price, post),
    ensures
        post matches Strategy::Ema(e2) && e2.last == Some(smoothed_of(e, price)) && e2.carry
            == e.carry,
{
}

/// A configured amount given as a plain integer and one given as an
/// explicit pair over denominator one denote the same trade amount.
pub proof fn fraction_input_forms_agree(i: u64)
    ensures
        fraction_of(FractionInput::Int(i)) == fraction_of(
            FractionInput::Fraction { numerator: i, denominator: 1 },
        ),
{
}

/// A configuration describes exactly one strategy: two strategies built
/// from the same configuration are equal, so together with the exact
/// `trade` contract, a built strategy's behavior is fully determined by
/// the configuration it came from.
pub proof fn built_strategy_is_determined(c: Config, s1: Strategy, s2: Strategy)
    requires
        builds(c, s1),
        builds(c, s2),
    ensures
        s1 == s2,
    decreases c,
{
    match c {
        Config::Ema { inner, .. } => {
            match (s1, s2) {
                (Strategy::Ema(e1), Strategy::Ema(e2)) => {
                    built_strategy_is_determined(*inner, *e1.inner, *e2.inner);
                },
                _ => {},
            }
        },
        _ => {},
    }
}

/// One cycle leads to exactly one next state: the `trade` contract's
/// step relation is deterministic, so together with the emitted-trade
/// clause it pins both the answer and the whole post-state of a cycle.
pub proof fn trade_step_is_determined(pre: Strategy, price: Rational, post1: Strategy, post2: Strategy)
    requires
        steps_to(pre, price, post1),
        steps_to(pre, price, post2),
    ensures
        post1 == post2,
    decreases pre,
{
    match pre {
        Strategy::Ema(e) => {
            match (post1, post2) {
                (Strategy::Ema(e1), Strategy::Ema(e2)) => {
                    trade_step_is_determined(*e.inner, smoothed_of(e, price), *e1.inner, *e2.inner);
                },
                _ => {},
            }
        },
        _ => {},
    }
}

/// The empty strategy emits no trade for any price and any state, and a
/// cycle leaves it exactly as it was.
pub proof fn empty_never_trades(e: Empty, price: Rational, post: Strategy)
    requires
        steps_to(Strategy::Empty(e), price, post),
    ensures
        output_of(Strategy::Empty(e), price) is None,
        post == Strategy::Empty(e),
{
}

} // verus!
