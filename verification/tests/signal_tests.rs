use nify::signal::{
    atr_window_start, is_bearish, is_bullish, momentum_windows, reasoning, SignalFactors,
    SignalType, TradingSignal, ATR_PERIOD,
};

fn none() -> SignalFactors {
    SignalFactors {
        bid_heavy: false,
        ask_heavy: false,
        buy_pressure: false,
        sell_pressure: false,
        upward_momentum: false,
        downward_momentum: false,
        short_liqs: false,
        long_liqs: false,
    }
}

fn signal(t: SignalType) -> TradingSignal<f64> {
    TradingSignal {
        signal_type: t,
        entry_price: 1.0,
        stop_loss: 1.0,
        take_profit_1: 1.0,
        take_profit_2: 1.0,
        take_profit_3: 1.0,
        risk_reward: 1.0,
        confidence: 5.0,
        reasoning: String::new(),
        timestamp: 0,
    }
}

#[test]
fn labels() {
    assert_eq!(SignalType::Long.label(), "LONG  ▲");
    assert_eq!(SignalType::Short.label(), "SHORT ▼");
    assert_eq!(SignalType::Neutral.label(), "NEUTRAL");
}

#[test]
fn direction_predicates() {
    assert!(is_bullish(&signal(SignalType::Long)));
    assert!(!is_bearish(&signal(SignalType::Long)));
    assert!(is_bearish(&signal(SignalType::Short)));
    assert!(!is_bullish(&signal(SignalType::Short)));
    assert!(!is_bullish(&signal(SignalType::Neutral)));
    assert!(!is_bearish(&signal(SignalType::Neutral)));
}

#[test]
fn reasoning_without_setup() {
    assert_eq!(reasoning(&none()), "Weak — wait for setup");
}

#[test]
fn reasoning_single() {
    let f = SignalFactors { sell_pressure: true, ..none() };
    assert_eq!(reasoning(&f), "Sell pressure");
}

#[test]
fn reasoning_joined_in_order() {
    let f = SignalFactors {
        long_liqs: true,
        bid_heavy: true,
        upward_momentum: true,
        buy_pressure: true,
        ..none()
    };
    assert_eq!(
        reasoning(&f),
        "Bid-heavy + Buy pressure + Upward momentum + Long liqs"
    );
}

#[test]
fn reasoning_all() {
    let f = SignalFactors {
        bid_heavy: true,
        ask_heavy: true,
        buy_pressure: true,
        sell_pressure: true,
        upward_momentum: true,
        downward_momentum: true,
        short_liqs: true,
        long_liqs: true,
    };
    assert_eq!(
        reasoning(&f),
        "Bid-heavy + Ask-heavy + Buy pressure + Sell pressure + Upward momentum + Downward momentum + Short liqs + Long liqs"
    );
}

#[test]
fn atr_window() {
    assert_eq!(atr_window_start(0, ATR_PERIOD), None);
    assert_eq!(atr_window_start(1, ATR_PERIOD), None);
    assert_eq!(atr_window_start(2, ATR_PERIOD), Some(0));
    assert_eq!(atr_window_start(15, ATR_PERIOD), Some(0));
    assert_eq!(atr_window_start(16, ATR_PERIOD), Some(1));
    assert_eq!(atr_window_start(300, ATR_PERIOD), Some(285));
    assert_eq!(atr_window_start(10, 0), None);
    assert_eq!(atr_window_start(10, 1), Some(8));
}

#[test]
fn momentum() {
    assert_eq!(momentum_windows(4), (None, None));
    assert_eq!(momentum_windows(5), (Some(0), None));
    assert_eq!(momentum_windows(9), (Some(4), None));
    assert_eq!(momentum_windows(10), (Some(5), Some(0)));
    assert_eq!(momentum_windows(20), (Some(15), Some(10)));
}
