use nify::session::{
    Session, LIQ_ALERT_TICKS, MAX_LIQS, MAX_PRICE_HIST, MAX_TRADES, MIN_SIGNAL_HISTORY,
    SIGNAL_EVERY,
};
use nify::signal::{SignalType, TradingSignal};

fn sample_signal() -> TradingSignal<f64> {
    TradingSignal {
        signal_type: SignalType::Long,
        entry_price: 100.0,
        stop_loss: 95.0,
        take_profit_1: 104.0,
        take_profit_2: 108.0,
        take_profit_3: 114.0,
        risk_reward: 0.8,
        confidence: 40.0,
        reasoning: "Bid-heavy".to_string(),
        timestamp: 7,
    }
}

#[test]
fn new_session_is_empty() {
    let s: Session<u32, u32, f64> = Session::new();
    assert_eq!(s.trades().len(), 0);
    assert_eq!(s.liquidations().len(), 0);
    assert_eq!(s.price_history().len(), 0);
    assert_eq!(s.whale_count(), 0);
    assert_eq!(s.liq_count_long(), 0);
    assert_eq!(s.liq_count_short(), 0);
    assert_eq!(s.signal_tick(), 0);
    assert_eq!(s.liq_alert_ticks(), 0);
    assert!(s.signal().is_none());
}

#[test]
fn trade_tape_is_newest_first_and_capped() {
    let mut s: Session<usize, u32, f64> = Session::new();
    for i in 0..250usize {
        s.add_trade(i, i as f64, false);
    }
    assert_eq!(s.trades().len(), MAX_TRADES);
    assert_eq!(s.trades()[0], 249);
    assert_eq!(s.trades()[MAX_TRADES - 1], 50);
    assert_eq!(s.signal_tick(), 250);
}

#[test]
fn price_history_keeps_latest_in_order() {
    let mut s: Session<u32, u32, usize> = Session::new();
    for i in 0..(MAX_PRICE_HIST + 5) {
        s.add_trade(0, i, false);
    }
    assert_eq!(s.price_history().len(), MAX_PRICE_HIST);
    assert_eq!(s.price_history()[0], 5);
    assert_eq!(s.price_history()[MAX_PRICE_HIST - 1], MAX_PRICE_HIST + 4);
}

#[test]
fn whales_are_counted() {
    let mut s: Session<u32, u32, f64> = Session::new();
    s.add_trade(1, 1.0, true);
    s.add_trade(2, 1.0, false);
    s.add_trade(3, 1.0, true);
    assert_eq!(s.whale_count(), 2);
    assert_eq!(s.signal_tick(), 3);
}

#[test]
fn signal_is_due_every_thirtieth_trade() {
    let mut s: Session<u32, u32, f64> = Session::new();
    let mut due_at = Vec::new();
    for i in 1..=95u64 {
        if s.add_trade(0, 0.0, false) {
            due_at.push(i);
        }
    }
    assert_eq!(due_at, vec![SIGNAL_EVERY, 2 * SIGNAL_EVERY, 3 * SIGNAL_EVERY]);
}

#[test]
fn liquidation_sides_are_counted() {
    let mut s: Session<u32, &str, f64> = Session::new();
    s.add_liq("a", "SELL", false);
    s.add_liq("b", "BUY", false);
    s.add_liq("c", "sell", false);
    s.add_liq("d", "SELL", false);
    assert_eq!(s.liq_count_long(), 2);
    assert_eq!(s.liq_count_short(), 2);
    assert_eq!(s.liquidations()[0], "d");
    assert_eq!(s.liquidation_count(), 4);
}

#[test]
fn liquidation_feed_is_capped() {
    let mut s: Session<u32, usize, f64> = Session::new();
    for i in 0..(MAX_LIQS + 20) {
        s.add_liq(i, "BUY", false);
    }
    assert_eq!(s.liquidations().len(), MAX_LIQS);
    assert_eq!(s.liquidations()[0], MAX_LIQS + 19);
    assert_eq!(s.liquidations()[MAX_LIQS - 1], 20);
    assert_eq!(s.liq_count_short() as usize, MAX_LIQS + 20);
}

#[test]
fn large_liquidation_lights_alert_that_fades() {
    let mut s: Session<u32, u32, f64> = Session::new();
    s.add_liq(1, "SELL", true);
    assert_eq!(s.liq_alert_ticks(), LIQ_ALERT_TICKS);
    for _ in 0..59 {
        s.tick();
    }
    assert_eq!(s.liq_alert_ticks(), 1);
    s.tick();
    assert_eq!(s.liq_alert_ticks(), 0);
    s.tick();
    assert_eq!(s.liq_alert_ticks(), 0);
    s.add_liq(2, "SELL", false);
    assert_eq!(s.liq_alert_ticks(), 0);
}

#[test]
fn reset_clears_session_but_keeps_tape() {
    let mut s: Session<u32, u32, f64> = Session::new();
    s.add_trade(1, 10.0, true);
    s.add_trade(2, 11.0, false);
    s.add_liq(3, "SELL", true);
    s.set_signal(sample_signal());
    s.reset_session();
    assert_eq!(s.whale_count(), 0);
    assert_eq!(s.liq_count_long(), 0);
    assert_eq!(s.liq_count_short(), 0);
    assert_eq!(s.signal_tick(), 0);
    assert!(s.signal().is_none());
    assert_eq!(s.liquidations().len(), 0);
    assert_eq!(s.trades().len(), 2);
    assert_eq!(s.trades()[0], 2);
    assert_eq!(s.price_history().len(), 2);
    assert_eq!(s.liq_alert_ticks(), LIQ_ALERT_TICKS);
}

#[test]
fn signal_history_threshold() {
    let mut s: Session<u32, u32, f64> = Session::new();
    for _ in 0..(MIN_SIGNAL_HISTORY - 1) {
        s.add_trade(0, 1.0, false);
    }
    assert!(!s.has_signal_history());
    s.add_trade(0, 1.0, false);
    assert!(s.has_signal_history());
}

#[test]
fn stored_signal_is_returned() {
    let mut s: Session<u32, u32, f64> = Session::new();
    s.set_signal(sample_signal());
    let sig = s.signal().as_ref().unwrap();
    assert_eq!(sig.signal_type, SignalType::Long);
    assert_eq!(sig.reasoning, "Bid-heavy");
}
