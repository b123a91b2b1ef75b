use trade_engine::rational::Rational;
use trade_engine::strategy::AlwaysBuy;
use trade_engine::strategy::AlwaysSell;
use trade_engine::strategy::Config;
use trade_engine::strategy::ExponentialMovingAverage;
use trade_engine::strategy::Fraction;
use trade_engine::strategy::FractionInput;
use trade_engine::strategy::Strategy;
use trade_engine::strategy::Threshold;
use trade_engine::strategy::ThresholdPoint;
use trade_engine::strategy::Trade;
use trade_engine::strategy::TradeContext;

fn ctx(num: i64) -> TradeContext {
    TradeContext { price_lossy: Rational::from_int(num) }
}

#[test]
fn each_config_variant_builds_its_strategy() {
    assert!(matches!(Config::Empty(()).into_dyn(), Strategy::Empty(_)));
    let b = Config::AlwaysBuy(AlwaysBuy(FractionInput::Int(7))).into_dyn();
    assert!(matches!(b, Strategy::AlwaysBuy(AlwaysBuy(FractionInput::Int(7)))));
    let s = Config::AlwaysSell(AlwaysSell(FractionInput::Int(9))).into_dyn();
    assert!(matches!(s, Strategy::AlwaysSell(AlwaysSell(FractionInput::Int(9)))));
}

#[test]
fn ema_config_builds_cold_with_its_carry() {
    let c = Config::Ema {
        carry: Rational::new(9, 10),
        inner: Box::new(Config::Empty(())),
    };
    match c.into_dyn() {
        Strategy::Ema(e) => {
            assert_eq!(e.carry, Rational::new(9, 10));
            assert_eq!(e.last, None);
            assert!(matches!(*e.inner, Strategy::Empty(_)));
        }
        _ => panic!("expected a moving average"),
    }
}

#[test]
fn built_and_hand_made_strategies_behave_identically() {
    // ema { carry: 9/10, inner: threshold { buy: { at: 100, amount: 5 } } }
    let c = Config::Ema {
        carry: Rational::new(9, 10),
        inner: Box::new(Config::Threshold(Threshold {
            buy: Some(ThresholdPoint {
                at: Rational::from_int(100),
                amount: FractionInput::Int(5),
            }),
            sell: None,
        })),
    };
    let mut built = c.into_dyn();
    let mut manual = Strategy::Ema(ExponentialMovingAverage {
        inner: Box::new(Strategy::Threshold(Threshold {
            buy: Some(ThresholdPoint {
                at: Rational::from_int(100),
                amount: FractionInput::Int(5),
            }),
            sell: None,
        })),
        carry: Rational::new(9, 10),
        last: None,
    });
    for p in [120i64, 90, 100, 200, 10, 99, 10_000, -5] {
        assert_eq!(built.trade(&ctx(p)), manual.trade(&ctx(p)));
    }
}

#[test]
fn integer_and_pair_amounts_are_observationally_equal() {
    let mut from_int = Config::AlwaysBuy(AlwaysBuy(FractionInput::Int(5))).into_dyn();
    let mut from_pair = Config::AlwaysBuy(AlwaysBuy(FractionInput::Fraction {
        numerator: 5,
        denominator: 1,
    }))
    .into_dyn();
    for p in [0i64, 3, -9] {
        let a = from_int.trade(&ctx(p));
        let b = from_pair.trade(&ctx(p));
        assert_eq!(a, b);
        assert_eq!(a, Some(Trade::Buy { amount: Fraction::new(5, 1) }));
    }
}

#[test]
fn fraction_construction_keeps_the_pair() {
    let f = Fraction::new(5, 1);
    assert_eq!(f.numerator, 5);
    assert_eq!(f.denominator, 1);
    assert_eq!(FractionInput::Int(5).to_fraction(), f);
    assert_eq!(
        FractionInput::Fraction { numerator: 5, denominator: 1 }.to_fraction(),
        f
    );
}
