use nify::feed::{
    is_trade_event, liq_identity, locate_order, parse_u64_text, pstr, pu64, Field, OrderAt,
    StreamHealth,
};

#[test]
fn parse_plain_and_signed() {
    assert_eq!(parse_u64_text("0"), Some(0));
    assert_eq!(parse_u64_text("1568014460893"), Some(1568014460893));
    assert_eq!(parse_u64_text("+42"), Some(42));
    assert_eq!(parse_u64_text("18446744073709551615"), Some(u64::MAX));
}

#[test]
fn parse_rejects() {
    assert_eq!(parse_u64_text(""), None);
    assert_eq!(parse_u64_text("+"), None);
    assert_eq!(parse_u64_text("-1"), None);
    assert_eq!(parse_u64_text("++1"), None);
    assert_eq!(parse_u64_text(" 1"), None);
    assert_eq!(parse_u64_text("1.5"), None);
    assert_eq!(parse_u64_text("12a"), None);
    assert_eq!(parse_u64_text("18446744073709551616"), None);
    assert_eq!(parse_u64_text("99999999999999999999x"), None);
}

#[test]
fn parse_matches_std() {
    for s in ["7", "+7", "-7", "", "007", "1e3", "٣", "42 "] {
        assert_eq!(parse_u64_text(s), s.parse::<u64>().ok());
    }
}

#[test]
fn pu64_cases() {
    assert_eq!(pu64(&Field::Number(Some(123))), 123);
    assert_eq!(pu64(&Field::Number(None)), 0);
    assert_eq!(pu64(&Field::Text("456".to_string())), 456);
    assert_eq!(pu64(&Field::Text("4.5".to_string())), 0);
    assert_eq!(pu64(&Field::Other), 0);
}

#[test]
fn pstr_cases() {
    let t = Field::Text("BTCUSDT".to_string());
    assert_eq!(pstr(&t, "UNKNOWN"), "BTCUSDT");
    assert_eq!(pstr(&Field::Number(Some(1)), "UNKNOWN"), "UNKNOWN");
    assert_eq!(pstr(&Field::Other, ""), "");
}

#[test]
fn trade_event_filter() {
    assert!(is_trade_event(""));
    assert!(is_trade_event("aggTrade"));
    assert!(!is_trade_event("trade"));
    assert!(!is_trade_event("aggTrades"));
}

#[test]
fn order_location() {
    assert_eq!(locate_order(true, true), Some(OrderAt::Nested));
    assert_eq!(locate_order(true, false), Some(OrderAt::Nested));
    assert_eq!(locate_order(false, true), Some(OrderAt::Root));
    assert_eq!(locate_order(false, false), None);
}

#[test]
fn liquidation_identity() {
    let sym = Field::Text("ETHUSDT".to_string());
    let side = Field::Text("SELL".to_string());
    assert_eq!(
        liq_identity(&sym, &side),
        Some(("ETHUSDT".to_string(), "SELL".to_string()))
    );
    assert_eq!(
        liq_identity(&Field::Other, &side),
        Some(("UNKNOWN".to_string(), "SELL".to_string()))
    );
    assert_eq!(liq_identity(&sym, &Field::Other), None);
    assert_eq!(liq_identity(&sym, &Field::Text("UNKNOWN".to_string())), None);
}

#[test]
fn stream_health() {
    let mut h = StreamHealth::new();
    assert!(!h.trade && !h.depth && !h.liq && !h.ticker);
    h.apply("depth", true);
    assert!(h.depth && !h.trade && !h.liq && !h.ticker);
    h.apply("ticker", true);
    h.apply("liq", true);
    h.apply("trade", true);
    assert!(h.trade && h.depth && h.liq && h.ticker);
    h.apply("other", false);
    assert!(h.trade && h.depth && h.liq && h.ticker);
    h.apply("liq", false);
    assert!(h.trade && h.depth && !h.liq && h.ticker);
}

#[test]
fn stream_health_summary() {
    let mut h = StreamHealth::new();
    assert_eq!(h.summary(), "T:○ B:○ L:○ K:○");
    h.apply("trade", true);
    h.apply("ticker", true);
    assert_eq!(h.summary(), "T:● B:○ L:○ K:●");
}
