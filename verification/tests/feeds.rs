//! The two feeds and their subscriptions.

use rust_quant_bot::book::{Level, PolyBook};
use rust_quant_bot::decimal::parse_decimal;
use rust_quant_bot::market_feed::{self, Market, PmShared, PriceChange, RawLevel, WsEvent};
use rust_quant_bot::session::{jittered_ms, next_backoff, step, Incoming, Step};
use rust_quant_bot::subscription::{market_subscription, user_subscription};
use rust_quant_bot::user_feed::{self, FillEvent, UserEvent};

fn q(x: f64) -> i64 {
    (x * 1e9).round() as i64
}

fn field(v: &serde_json::Value, name: &str) -> Option<String> {
    v.get(name).and_then(|x| x.as_str()).map(|x| x.to_string())
}

fn fills(txt: &str) -> Vec<FillEvent> {
    let parsed: serde_json::Value = serde_json::from_str(txt).unwrap();
    let events: Vec<UserEvent> = parsed
        .as_array()
        .unwrap()
        .iter()
        .map(|v| UserEvent {
            event_type: field(v, "type"),
            id: field(v, "id"),
            taker_order_id: field(v, "taker_order_id"),
            maker_order_id: field(v, "maker_order_id"),
            size: field(v, "size"),
            size_matched: field(v, "size_matched"),
            price: field(v, "price"),
            side: field(v, "side"),
            status: field(v, "status"),
        })
        .collect();
    user_feed::process_message(&events)
}

#[test]
fn trade_event_carries_both_ids() {
    let out = fills(
        r#"[{"type":"trade","taker_order_id":"order-abc","maker_order_id":"order-xyz","size":"10.5","price":"0.52","side":"BUY","status":"MATCHED"}]"#,
    );
    let fill = out.first().expect("the fill is handed on");
    assert!(fill.involves("order-abc"), "matched by the taker id");
    assert!(fill.involves("order-xyz"), "matched by the maker id");
    assert!(!fill.involves("autre"));
    assert_eq!(fill.filled_size, q(10.5));
    assert_eq!(fill.avg_price, q(0.52));
}

#[test]
fn maker_fill_is_matchable_by_our_maker_id() {
    let out = fills(
        r#"[{"type":"trade","taker_order_id":"contrepartie","maker_order_id":"le-notre","size":"5.0","price":"0.16","side":"SELL"}]"#,
    );
    let fill = &out[0];
    assert!(fill.involves("le-notre"), "our id, as maker, matches");
    assert!(fill.taker_side_is_sell, "the taker sold");
}

#[test]
fn order_update_does_not_produce_fill_event() {
    let out = fills(r#"[{"type":"order","id":"order-abc","size_matched":"3.0","price":"0.50"}]"#);
    assert!(out.is_empty(), "an update of an order is no fill");
}

#[test]
fn trade_with_zero_size_ignored() {
    let out = fills(r#"[{"type":"trade","taker_order_id":"order-abc","size":"0","price":"0.50"}]"#);
    assert!(out.is_empty());
}

#[test]
fn two_fills_same_batch_both_delivered() {
    let out = fills(
        r#"[{"type":"trade","taker_order_id":"g1","size":"6.0","price":"0.50","side":"BUY"},
            {"type":"trade","taker_order_id":"g1","size":"4.0","price":"0.52","side":"BUY"}]"#,
    );
    assert_eq!(out.len(), 2, "exactly two fills");
    assert_eq!(out[0].filled_size, q(6.0));
    assert_eq!(out[1].filled_size, q(4.0));
}

#[test]
fn trade_without_its_numbers_is_ignored() {
    assert!(fills(r#"[{"type":"trade","size":"5.0"}]"#).is_empty());
    assert!(fills(r#"[{"type":"trade","price":"0.5"}]"#).is_empty());
    assert!(fills(r#"[{"type":"trade","size":"x","price":"0.5"}]"#).is_empty());
    assert!(fills(r#"[{"type":"trade","size":"5","price":"-0.5"}]"#).is_empty());
    assert!(fills(r#"[{"size":"5","price":"0.5"}]"#).is_empty());
}

fn market() -> Market {
    Market {
        slug: "btc".to_string(),
        condition_id: "0xc".to_string(),
        up_token_id: "up".to_string(),
        down_token_id: "dn".to_string(),
        neg_risk: false,
        tick_size: q(0.01),
        min_order_size: q(5.0),
    }
}

fn shared(market: Option<Market>) -> PmShared {
    PmShared {
        market,
        real_up: q(0.5),
        up_best_bid: 0,
        up_best_ask: q(1.0),
        down_best_bid: 0,
        down_best_ask: q(1.0),
        up_book: PolyBook::new(),
        down_book: PolyBook::new(),
        remaining_s: 300,
        last_ws_ts_ms: 0,
    }
}

fn raw(levels: &[(&str, &str)]) -> Vec<RawLevel> {
    levels.iter().map(|(p, s)| RawLevel { price: p.to_string(), size: s.to_string() }).collect()
}

fn snapshot(asset: &str, bids: &[(&str, &str)], asks: &[(&str, &str)]) -> WsEvent {
    WsEvent {
        event_type: Some("book".to_string()),
        asset_id: Some(asset.to_string()),
        bids: raw(bids),
        asks: raw(asks),
        changes: Vec::new(),
    }
}

fn changes(asset: &str, list: &[(&str, &str, &str)]) -> WsEvent {
    WsEvent {
        event_type: Some("price_change".to_string()),
        asset_id: Some(asset.to_string()),
        bids: Vec::new(),
        asks: Vec::new(),
        changes: list
            .iter()
            .map(|(p, s, side)| PriceChange {
                price: p.to_string(),
                size: s.to_string(),
                side: Some(side.to_string()),
            })
            .collect(),
    }
}

#[test]
fn snapshot_sets_the_book_of_its_token() {
    let mut g = shared(Some(market()));
    let up = snapshot("up", &[("0.40", "10"), ("0.42", "3"), ("bad", "1")], &[("0.45", "7"), ("0.44", "1")]);
    let dn = snapshot("dn", &[("0.55", "2")], &[]);
    let stale = market_feed::process_message(&vec![up, dn], &mut g, 77);
    assert!(stale.is_empty());
    assert_eq!((g.real_up, g.up_best_bid, g.up_best_ask), (q(0.43), q(0.42), q(0.44)));
    assert_eq!((g.down_best_bid, g.down_best_ask), (q(0.55), q(1.0)));
    assert_eq!(g.up_book.bids.len(), 2, "a level that cannot be read is left out");
    assert_eq!(g.last_ws_ts_ms, 77);
}

#[test]
fn empty_snapshot_of_the_up_token_has_no_price() {
    let mut g = shared(Some(market()));
    market_feed::process_message(&vec![snapshot("up", &[("0.40", "1")], &[])], &mut g, 5);
    assert_eq!((g.real_up, g.up_best_bid, g.up_best_ask), (0, q(0.40), q(1.0)));
}

#[test]
fn snapshot_of_another_token_only_tells_the_time() {
    let mut g = shared(Some(market()));
    market_feed::process_message(&vec![snapshot("zz", &[("0.40", "1")], &[("0.5", "1")])], &mut g, 9);
    assert_eq!((g.real_up, g.up_best_bid, g.last_ws_ts_ms), (q(0.5), 0, 9));
    let mut none = shared(None);
    market_feed::process_message(&vec![snapshot("up", &[("0.40", "1")], &[])], &mut none, 9);
    assert_eq!(none.up_best_bid, 0);
}

#[test]
fn change_replaces_adds_and_clears() {
    let mut g = shared(Some(market()));
    let first = snapshot("up", &[("0.40", "10")], &[("0.50", "5")]);
    let second = changes("up", &[("0.40", "4", "BUY"), ("0.41", "2", "BUY"), ("0.50", "0", "SELL"), ("0.52", "1", "SELL"), ("x", "1", "BUY")]);
    market_feed::process_message(&vec![first, second], &mut g, 12);
    assert_eq!(g.up_book.bids, vec![Level { price: q(0.40), size: q(4.0) }, Level { price: q(0.41), size: q(2.0) }]);
    assert_eq!(g.up_book.asks, vec![Level { price: q(0.52), size: q(1.0) }]);
    assert_eq!((g.real_up, g.up_best_bid, g.up_best_ask), (q(0.465), q(0.41), q(0.52)));
}

#[test]
fn change_that_empties_a_side_keeps_the_price() {
    let mut g = shared(Some(market()));
    market_feed::process_message(&vec![snapshot("up", &[("0.40", "10")], &[("0.50", "5")])], &mut g, 1);
    let up = Some("up".to_string());
    let dn = Some("dn".to_string());
    market_feed::apply_price_change(&changes("up", &[("0.50", "0", "SELL")]), &up, &dn, &mut g, 2);
    assert_eq!((g.real_up, g.up_best_ask, g.last_ws_ts_ms), (q(0.45), q(1.0), 2));
    market_feed::apply_price_change(&changes("dn", &[("0.30", "2", "BUY")]), &up, &dn, &mut g, 3);
    assert_eq!((g.down_best_bid, g.last_ws_ts_ms), (q(0.30), 3));
    market_feed::apply_price_change(&changes("zz", &[("0.99", "2", "BUY")]), &up, &dn, &mut g, 4);
    assert_eq!((g.up_best_bid, g.last_ws_ts_ms), (q(0.40), 3), "other tokens are passed over");
}

#[test]
fn one_message_or_two_end_the_same() {
    let a = || snapshot("up", &[("0.40", "10")], &[("0.50", "5")]);
    let b = || changes("up", &[("0.43", "1", "BUY")]);
    let mut once = shared(Some(market()));
    market_feed::process_message(&vec![a(), b()], &mut once, 4);
    let mut twice = shared(Some(market()));
    market_feed::process_message(&vec![a()], &mut twice, 4);
    market_feed::process_message(&vec![b()], &mut twice, 4);
    assert_eq!(once.up_book.bids, twice.up_book.bids);
    assert_eq!((once.real_up, once.up_best_bid), (twice.real_up, twice.up_best_bid));
}

#[test]
fn tick_size_changes_are_told() {
    let mut g = shared(Some(market()));
    let ev = WsEvent {
        event_type: Some("tick_size_change".to_string()),
        asset_id: Some("up".to_string()),
        bids: Vec::new(),
        asks: Vec::new(),
        changes: Vec::new(),
    };
    assert_eq!(market_feed::process_message(&vec![ev], &mut g, 4), vec!["up".to_string()]);
    assert_eq!(g.last_ws_ts_ms, 0);
}

#[test]
fn book_has_its_best_prices_and_its_middle() {
    let book = market_feed::build_book(&snapshot("up", &[("0.40", "1"), ("0.41", "1")], &[("0.46", "1"), ("0.44", "1")]));
    assert_eq!((book.best_bid(), book.best_ask(), book.mid()), (Some(q(0.41)), Some(q(0.44)), Some(q(0.425))));
    let empty = PolyBook::new();
    assert_eq!((empty.best_bid(), empty.best_ask(), empty.mid()), (None, None, None));
}

#[test]
fn decimals_are_read_to_the_billionth() {
    assert_eq!(parse_decimal("0.52"), Some(520_000_000));
    assert_eq!(parse_decimal("-1.5"), Some(-1_500_000_000));
    assert_eq!(parse_decimal("+.5"), Some(500_000_000));
    assert_eq!(parse_decimal("5."), Some(5_000_000_000));
    assert_eq!(parse_decimal("1e-3"), Some(1_000_000));
    assert_eq!(parse_decimal("1.5E2"), Some(150_000_000_000));
    assert_eq!(parse_decimal("0.0000000005"), Some(1));
    assert_eq!(parse_decimal("0.0000000014"), Some(1));
    assert_eq!(parse_decimal("0.0000000004"), Some(1), "what is not zero is not read as zero");
    assert_eq!(parse_decimal("-1e-99"), Some(-1));
    assert_eq!(parse_decimal("-0.000"), Some(0));
    assert_eq!(parse_decimal("0e-99"), Some(0));
    assert_eq!(parse_decimal("1e30"), Some(i64::MAX));
    assert_eq!(parse_decimal("-inf"), Some(i64::MIN));
    assert_eq!(parse_decimal("Infinity"), Some(i64::MAX));
    for bad in ["", ".", "+", "e5", "1e", "1e+", "0x1", " 1", "1 ", "1_0", "nan", "--1"] {
        assert_eq!(parse_decimal(bad), None, "{bad:?}");
    }
}

#[test]
fn market_subscription_is_the_message_of_the_exchange() {
    let tokens = vec!["up-1".to_string(), "down\"2\\\n".to_string()];
    let text = market_subscription(&tokens);
    let v: serde_json::Value = serde_json::from_str(&text).unwrap();
    assert_eq!(v["type"].as_str(), Some("market"));
    assert_eq!(v["custom_feature_enabled"].as_bool(), Some(true));
    assert_eq!(v["assets_ids"][0].as_str(), Some("up-1"));
    assert_eq!(v["assets_ids"][1].as_str(), Some("down\"2\\\n"));
    assert_eq!(v["assets_ids"].as_array().map(|a| a.len()), Some(2));
    assert_eq!(v.to_string(), text);
    let plain = market_subscription(&vec!["a".to_string(), "b".to_string()]);
    assert_eq!(plain, r#"{"assets_ids":["a","b"],"custom_feature_enabled":true,"type":"market"}"#);
    assert_eq!(market_subscription(&Vec::new()), r#"{"assets_ids":[],"custom_feature_enabled":true,"type":"market"}"#);
}

#[test]
fn strings_are_escaped_as_json_asks() {
    let mut all = String::new();
    for code in 0u8..0x80 {
        all.push(code as char);
    }
    all.push_str("é\u{2028}😀");
    let text = market_subscription(&vec![all.clone()]);
    let v: serde_json::Value = serde_json::from_str(&text).unwrap();
    assert_eq!(v["assets_ids"][0].as_str(), Some(all.as_str()));
    let one = |s: &str| market_subscription(&vec![s.to_string()]);
    let tail = r#"],"custom_feature_enabled":true,"type":"market"}"#;
    let literal = |inner: &str| format!("{{\"assets_ids\":[\"{inner}\"{tail}");
    assert_eq!(one("\u{0}\u{1f}\u{b}"), literal(r"\u0000\u001f\u000b"));
    assert_eq!(one("\u{8}\t\n\u{c}\r\"\\/"), literal(r#"\b\t\n\f\r\"\\/"#));
    assert_eq!(one("\u{7f}é😀"), literal("\u{7f}é😀"));
}

#[test]
fn user_subscription_is_the_message_of_the_exchange() {
    let text = user_subscription("key", "se\"cret", "pass\u{7}", "0xc");
    let v: serde_json::Value = serde_json::from_str(&text).unwrap();
    assert_eq!(v["auth"]["apiKey"].as_str(), Some("key"));
    assert_eq!(v["auth"]["secret"].as_str(), Some("se\"cret"));
    assert_eq!(v["auth"]["passphrase"].as_str(), Some("pass\u{7}"));
    assert_eq!(v["markets"][0].as_str(), Some("0xc"));
    assert_eq!(v["type"].as_str(), Some("user"));
    assert_eq!(v.to_string(), text);
}

#[test]
fn pauses_double_up_to_a_minute() {
    let mut pause = 1;
    let mut seen = Vec::new();
    for _ in 0..8 {
        seen.push(pause);
        pause = next_backoff(pause);
    }
    assert_eq!(seen, vec![1, 2, 4, 8, 16, 32, 60, 60]);
    assert_eq!(next_backoff(u64::MAX), 60);
    assert_eq!(jittered_ms(2, 0), 2000);
    assert_eq!(jittered_ms(60, 123_456), 60_456);
}

#[test]
fn session_does_what_each_message_asks() {
    assert!(matches!(step(Incoming::Ended), Step::Stop));
    assert!(matches!(step(Incoming::Closed), Step::Stop));
    assert!(matches!(step(Incoming::Failed), Step::Fail));
    assert!(matches!(step(Incoming::Text), Step::Read));
    assert!(matches!(step(Incoming::Other), Step::Wait));
    assert!(matches!(step(Incoming::PingDue), Step::Ping));
    assert!(matches!(step(Incoming::MarketChanged(None)), Step::Wait));
    assert!(matches!(step(Incoming::MarketChanged(Some("c2".to_string()))), Step::Subscribe(id) if id == "c2"));
}
