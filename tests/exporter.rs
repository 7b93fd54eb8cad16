use std::sync::Mutex;

use price_exporter::decimal::{mid_price, published_value, Price, MAX_MANTISSA, MAX_SCALE};
use price_exporter::feed::{Disposition, EventProcessor, FeedEvent, SymbolFilter};
use price_exporter::store::{MetricStore, Sample};
use price_exporter::supervisor::{Command, Input, Phase, Supervisor, BACKOFF_SECS};
use rust_decimal::prelude::ToPrimitive;
use rust_decimal::Decimal;

fn price(mantissa: i128, scale: u32) -> Price {
    Price::new(mantissa, scale).unwrap()
}

fn as_decimal(p: Price) -> Decimal {
    Decimal::from_i128_with_scale(p.mantissa, p.scale)
}

fn as_float(p: Price) -> f64 {
    as_decimal(p).to_f64().unwrap_or(0.0)
}

fn processor(symbols: &[&str]) -> EventProcessor {
    let filter = SymbolFilter::new(symbols.iter().map(|s| s.to_string()).collect());
    EventProcessor::new("Binance".to_string(), filter)
}

fn update(symbol: &str, bid: Price, ask: Price) -> FeedEvent {
    FeedEvent::PriceUpdate { symbol: symbol.to_string(), bid, ask }
}

fn lookup(store: &MetricStore, symbol: &str) -> Option<Price> {
    store.get(&"Binance".to_string(), &symbol.to_string())
}

#[test]
fn price_new_accepts_valid_decimals() {
    assert_eq!(Price::new(15, 1), Some(Price { mantissa: 15, scale: 1 }));
    assert!(Price::new(MAX_MANTISSA, MAX_SCALE).is_some());
    assert!(Price::new(-MAX_MANTISSA, 0).is_some());
}

#[test]
fn price_new_rejects_out_of_range() {
    assert_eq!(Price::new(1, MAX_SCALE + 1), None);
    assert_eq!(Price::new(MAX_MANTISSA + 1, 0), None);
    assert_eq!(Price::new(-MAX_MANTISSA - 1, 0), None);
}

#[test]
fn zero_is_zero() {
    assert_eq!(Price::zero(), Price { mantissa: 0, scale: 0 });
}

#[test]
fn mid_price_is_exact_mean() {
    let mid = mid_price(price(10000, 2), price(10100, 2)).unwrap();
    assert_eq!(as_decimal(mid), Decimal::new(1005, 1));
    let mid = mid_price(price(2, 0), price(4, 0)).unwrap();
    assert_eq!(as_decimal(mid), Decimal::new(3, 0));
}

#[test]
fn mid_price_mixed_scales() {
    let mid = mid_price(price(1, 0), price(25, 1)).unwrap();
    assert_eq!(as_decimal(mid), Decimal::new(175, 2));
}

#[test]
fn mid_price_overflow_is_none() {
    let top = price(MAX_MANTISSA, 0);
    assert_eq!(mid_price(top, top), None);
}

#[test]
fn published_value_falls_back_to_zero() {
    assert_eq!(published_value(None), Price::zero());
    assert_eq!(published_value(Some(price(7, 0))), price(7, 0));
}

#[test]
fn published_value_matches_float_mean() {
    let bid = price(4999900, 2);
    let ask = price(5000200, 2);
    let mut store = MetricStore::new();
    let p = processor(&["BTCUSDT"]);
    assert_eq!(p.process(&update("BTCUSDT", bid, ask), &mut store), Disposition::Published);
    let v = as_float(lookup(&store, "BTCUSDT").unwrap());
    let expected = (49999.0 + 50002.0) / 2.0;
    assert!((v - expected).abs() < 1e-9);
}

#[test]
fn filter_admits_listed_symbols_only() {
    let f = SymbolFilter::new(vec!["BTCUSDT".to_string(), "ETHUSDT".to_string()]);
    assert!(f.admits(&"ETHUSDT".to_string()));
    assert!(!f.admits(&"XRPUSDT".to_string()));
}

#[test]
fn empty_filter_admits_everything() {
    let f = SymbolFilter::new(Vec::new());
    assert!(f.admits(&"XRPUSDT".to_string()));
    assert!(f.admits(&String::new()));
}

#[test]
fn filtered_symbol_leaves_store_untouched() {
    let mut store = MetricStore::new();
    let p = processor(&["BTCUSDT"]);
    let d = p.process(&update("ETHUSDT", price(1, 0), price(3, 0)), &mut store);
    assert_eq!(d, Disposition::Filtered);
    assert_eq!(store.len(), 0);
    assert_eq!(lookup(&store, "ETHUSDT"), None);
}

#[test]
fn filtered_symbol_keeps_existing_entries() {
    let mut store = MetricStore::new();
    let p = processor(&["BTCUSDT"]);
    p.process(&update("BTCUSDT", price(1, 0), price(3, 0)), &mut store);
    p.process(&update("ETHUSDT", price(5, 0), price(7, 0)), &mut store);
    assert_eq!(store.len(), 1);
    assert_eq!(as_decimal(lookup(&store, "BTCUSDT").unwrap()), Decimal::new(2, 0));
}

#[test]
fn processing_twice_is_idempotent() {
    let p = processor(&["BTCUSDT"]);
    let e = update("BTCUSDT", price(101, 1), price(103, 1));
    let mut once = MetricStore::new();
    p.process(&e, &mut once);
    let mut twice = MetricStore::new();
    p.process(&e, &mut twice);
    p.process(&e, &mut twice);
    assert_eq!(twice.len(), once.len());
    assert_eq!(lookup(&twice, "BTCUSDT"), lookup(&once, "BTCUSDT"));
}

#[test]
fn later_update_overwrites() {
    let p = processor(&[]);
    let mut store = MetricStore::new();
    p.process(&update("BTCUSDT", price(1, 0), price(3, 0)), &mut store);
    p.process(&update("BTCUSDT", price(10, 0), price(30, 0)), &mut store);
    assert_eq!(store.len(), 1);
    assert_eq!(as_decimal(lookup(&store, "BTCUSDT").unwrap()), Decimal::new(20, 0));
}

#[test]
fn overflowing_quote_publishes_zero() {
    let p = processor(&["BTCUSDT"]);
    let mut store = MetricStore::new();
    let top = price(MAX_MANTISSA, 0);
    let d = p.process(&update("BTCUSDT", top, top), &mut store);
    assert_eq!(d, Disposition::Published);
    assert_eq!(lookup(&store, "BTCUSDT"), Some(Price::zero()));
    assert_eq!(as_float(lookup(&store, "BTCUSDT").unwrap()), 0.0);
}

#[test]
fn publish_mid_uses_given_mid() {
    let p = processor(&["BTCUSDT"]);
    let mut store = MetricStore::new();
    let sym = "BTCUSDT".to_string();
    assert_eq!(p.publish_mid(&sym, Some(price(42, 0)), &mut store), Disposition::Published);
    assert_eq!(lookup(&store, "BTCUSDT"), Some(price(42, 0)));
    assert_eq!(p.publish_mid(&sym, None, &mut store), Disposition::Published);
    assert_eq!(lookup(&store, "BTCUSDT"), Some(Price::zero()));
    let other = "ETHUSDT".to_string();
    assert_eq!(p.publish_mid(&other, Some(price(1, 0)), &mut store), Disposition::Filtered);
    assert_eq!(store.len(), 1);
}

#[test]
fn keepalive_and_unknown_events() {
    let p = processor(&[]);
    let mut store = MetricStore::new();
    assert_eq!(p.process(&FeedEvent::KeepaliveRequest, &mut store), Disposition::AcknowledgeKeepalive);
    let raw = FeedEvent::Unrecognized { raw: "{\"e\":\"aggTrade\"}".to_string() };
    assert_eq!(p.process(&raw, &mut store), Disposition::Discarded);
    assert_eq!(store.len(), 0);
}

#[test]
fn scrape_round_trip() {
    let mut store = MetricStore::new();
    store.set(&"Binance".to_string(), &"BTCUSDT".to_string(), price(500005, 1));
    let snap = store.snapshot();
    assert_eq!(snap.len(), 1);
    let entry = snap.iter().find(|s| s.symbol == "BTCUSDT").unwrap();
    assert_eq!(entry.source, "Binance");
    assert_eq!(as_float(entry.value), 50000.5);
}

#[test]
fn snapshot_lists_each_entry_once_in_first_seen_order() {
    let mut store = MetricStore::new();
    let src = "Binance".to_string();
    store.set(&src, &"BTCUSDT".to_string(), price(1, 0));
    store.set(&src, &"ETHUSDT".to_string(), price(2, 0));
    store.set(&src, &"BTCUSDT".to_string(), price(3, 0));
    let snap: Vec<Sample> = store.snapshot();
    let rows: Vec<(String, Price)> = snap.into_iter().map(|s| (s.symbol, s.value)).collect();
    assert_eq!(rows, vec![("BTCUSDT".to_string(), price(3, 0)), ("ETHUSDT".to_string(), price(2, 0))]);
}

#[test]
fn store_keys_include_source() {
    let mut store = MetricStore::new();
    store.set(&"Binance".to_string(), &"BTCUSDT".to_string(), price(1, 0));
    store.set(&"Other".to_string(), &"BTCUSDT".to_string(), price(2, 0));
    assert_eq!(store.len(), 2);
    assert_eq!(store.get(&"Other".to_string(), &"BTCUSDT".to_string()), Some(price(2, 0)));
    assert_eq!(store.get(&"Binance".to_string(), &"ETHUSDT".to_string()), None);
}

#[test]
fn supervisor_starts_by_opening() {
    let s = Supervisor::new(60);
    assert_eq!(s.phase, Phase::Connecting);
    assert_eq!(s.command(), Command::Open);
}

#[test]
fn stall_triggers_reconnect_after_backoff() {
    let p = processor(&[]);
    let mut store = MetricStore::new();
    let mut s = Supervisor::new(60);
    assert_eq!(s.handle(Input::Opened, &p, &mut store), Command::NextEvent { stall_timeout_secs: 60 });
    assert_eq!(s.handle(Input::TimedOut, &p, &mut store), Command::CloseAndWait { backoff_secs: BACKOFF_SECS });
    assert_eq!(s.phase, Phase::Recovering);
    assert_eq!(BACKOFF_SECS, 1);
    assert_eq!(s.handle(Input::BackoffElapsed, &p, &mut store), Command::Open);
    assert_eq!(s.phase, Phase::Connecting);
}

#[test]
fn connect_failure_recovers() {
    let p = processor(&[]);
    let mut store = MetricStore::new();
    let mut s = Supervisor::new(5);
    assert_eq!(s.handle(Input::OpenFailed, &p, &mut store), Command::CloseAndWait { backoff_secs: 1 });
    assert_eq!(s.handle(Input::BackoffElapsed, &p, &mut store), Command::Open);
}

#[test]
fn stream_end_and_transport_error_recover() {
    let p = processor(&[]);
    let mut store = MetricStore::new();
    for failure in [Input::Ended, Input::TransportFailed] {
        let mut s = Supervisor::new(5);
        s.handle(Input::Opened, &p, &mut store);
        assert_eq!(s.handle(failure, &p, &mut store), Command::CloseAndWait { backoff_secs: 1 });
    }
}

#[test]
fn keepalive_sends_one_reply_then_reads_on() {
    let p = processor(&[]);
    let mut store = MetricStore::new();
    let mut s = Supervisor::new(60);
    s.handle(Input::Opened, &p, &mut store);
    let c = s.handle(Input::Event(FeedEvent::KeepaliveRequest), &p, &mut store);
    assert_eq!(c, Command::SendKeepalive);
    assert_eq!(s.phase, Phase::Acknowledging);
    assert_eq!(s.handle(Input::Acknowledged, &p, &mut store), Command::NextEvent { stall_timeout_secs: 60 });
}

#[test]
fn failed_keepalive_reply_ends_session() {
    let p = processor(&[]);
    let mut store = MetricStore::new();
    let mut s = Supervisor::new(60);
    s.handle(Input::Opened, &p, &mut store);
    s.handle(Input::Event(FeedEvent::KeepaliveRequest), &p, &mut store);
    assert_eq!(s.handle(Input::TransportFailed, &p, &mut store), Command::CloseAndWait { backoff_secs: 1 });
}

#[test]
fn event_while_acknowledging_is_not_processed() {
    let p = processor(&[]);
    let mut store = MetricStore::new();
    let mut s = Supervisor::new(60);
    s.handle(Input::Opened, &p, &mut store);
    s.handle(Input::Event(FeedEvent::KeepaliveRequest), &p, &mut store);
    let c = s.handle(Input::Event(update("BTCUSDT", price(1, 0), price(3, 0))), &p, &mut store);
    assert_eq!(c, Command::CloseAndWait { backoff_secs: 1 });
    assert_eq!(store.len(), 0);
}

#[test]
fn streaming_event_is_published() {
    let p = processor(&["BTCUSDT"]);
    let mut store = MetricStore::new();
    let mut s = Supervisor::new(60);
    s.handle(Input::Opened, &p, &mut store);
    let c = s.handle(Input::Event(update("BTCUSDT", price(1, 0), price(3, 0))), &p, &mut store);
    assert_eq!(c, Command::NextEvent { stall_timeout_secs: 60 });
    assert_eq!(as_decimal(lookup(&store, "BTCUSDT").unwrap()), Decimal::new(2, 0));
}

#[test]
fn interleaved_scrapes_see_consistent_snapshots() {
    let store = Mutex::new(MetricStore::new());
    let symbols = ["BTCUSDT", "ETHUSDT", "XRPUSDT"];
    let p = processor(&[]);
    for n in 0..300i128 {
        let v = price(n, 0);
        let sym = symbols[(n as usize) % symbols.len()];
        p.process(&update(sym, v, v), &mut store.lock().unwrap());
        let snap = store.lock().unwrap().snapshot();
        let mut seen: Vec<&str> = Vec::new();
        for s in &snap {
            assert_eq!(s.source, "Binance");
            assert!(!seen.contains(&s.symbol.as_str()));
            seen.push(s.symbol.as_str());
            let d = as_decimal(s.value);
            assert!(d >= Decimal::ZERO && d <= Decimal::new(n as i64, 0));
        }
        assert_eq!(snap.len(), std::cmp::min(n as usize + 1, 3));
    }
}
