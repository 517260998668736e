use barter_data::exchange::binance::channel::BinanceChannel;
use barter_data::exchange::binance::futures::{BinanceFuturesUsd, BinanceServerFuturesUsd};
use barter_data::exchange::binance::subscription::{BinanceError, BinanceSubResponse};
use barter_data::exchange::subscription::ExchangeSub;
use barter_data::exchange::{Connector, ExchangeId, ServerSelector};
use barter_data::subscriber::mapper::map_subscriptions;
use barter_data::subscriber::subscription::{
    AckEffect, AckOutcome, ProtocolViolation, SubscriptionMap, SubscriptionState,
};
use barter_data::subscriber::validator::HandshakeError;
use barter_data::subscription::{ConfigError, DataKind, MarketSegment, Subscription};
use barter_data::wire::{join, number_text};
use barter_integration::model::instrument::kind::InstrumentKind;
use barter_integration::model::instrument::Instrument;
use barter_integration::model::SubscriptionId;
use barter_integration::protocol::websocket::WsMessage;
use std::time::Duration;

fn wanted(exchange: ExchangeId, market: &str, kind: DataKind) -> Subscription {
    Subscription::new(
        exchange,
        Instrument::from((&market[..3], &market[3..], InstrumentKind::Perpetual)),
        "@klines".to_string(),
        market.to_string(),
        MarketSegment::Futures,
        kind,
    )
}

#[test]
fn binance_futures_is_where_it_should_be() {
    assert_eq!(<BinanceFuturesUsd as Connector>::ID, ExchangeId::BinanceFuturesUsd);
    assert_eq!(<BinanceServerFuturesUsd as ServerSelector>::ID, ExchangeId::BinanceFuturesUsd);
    assert_eq!(BinanceFuturesUsd::base_url(), "wss://fstream.binance.com/ws");
    assert_eq!(BinanceServerFuturesUsd::base_url(), "wss://fstream.binance.com/ws");
    assert!(<BinanceFuturesUsd as Connector>::ID.supports_futures());
    assert_eq!(BinanceChannel::candles().as_str(), "@klines");
}

#[test]
fn defaults_are_ten_seconds_no_ping_and_one_answer_each() {
    assert_eq!(BinanceFuturesUsd::subscription_timeout(), Duration::from_secs(10));
    assert!(BinanceFuturesUsd::ping_interval().is_none());
    let mut map = SubscriptionMap::new();
    assert_eq!(BinanceFuturesUsd::expected_responses(&map), 0);
    for market in ["BTCUSDT", "ETHUSDT", "XRPUSDT"] {
        let subscription = wanted(ExchangeId::BinanceFuturesUsd, market, DataKind::Candles);
        map.insert(subscription.id(), subscription);
    }
    assert_eq!(BinanceFuturesUsd::expected_responses(&map), 3);
}

#[test]
fn no_subscription_makes_no_request() {
    assert_eq!(BinanceFuturesUsd::requests(vec![]), vec![]);
}

fn subscribe(id: u64, stream: &str) -> WsMessage {
    WsMessage::Text(format!(
        "{{\"id\":{},\"method\":\"SUBSCRIBE\",\"params\":[\"{}\"]}}",
        id, stream
    ))
}

#[test]
fn binance_asks_for_each_stream_in_a_numbered_request() {
    let requests = BinanceFuturesUsd::requests(vec![
        ExchangeSub::new("@klines", "BTCUSDT"),
        ExchangeSub::new("@klines", "ETHUSDT"),
    ]);
    assert_eq!(
        requests,
        vec![
            WsMessage::Text(
                "{\"id\":1,\"method\":\"SUBSCRIBE\",\"params\":[\"btcusdt@klines\"]}".to_string()
            ),
            WsMessage::Text(
                "{\"id\":2,\"method\":\"SUBSCRIBE\",\"params\":[\"ethusdt@klines\"]}".to_string()
            ),
        ]
    );
    let WsMessage::Text(text) = &requests[1] else { panic!("no text message") };
    let parsed: serde_json::Value = serde_json::from_str(text).unwrap();
    assert_eq!(parsed["method"], "SUBSCRIBE");
    assert_eq!(parsed["id"], 2);
    assert_eq!(parsed["params"][0], "ethusdt@klines");
}

#[test]
fn request_numbers_run_past_nine() {
    let subs = (0..12).map(|i| ExchangeSub::new("@klines", &format!("M{}", i))).collect();
    let requests = BinanceFuturesUsd::requests(subs);
    assert_eq!(requests.len(), 12);
    assert_eq!(requests[8], subscribe(9, "m8@klines"));
    assert_eq!(requests[9], subscribe(10, "m9@klines"));
    assert_eq!(requests[11], subscribe(12, "m11@klines"));
}

#[test]
fn requests_depend_on_the_order_and_on_nothing_else() {
    let one = || vec![ExchangeSub::new("@klines", "BTCUSDT"), ExchangeSub::new("@t", "Eth\"x")];
    assert_eq!(BinanceFuturesUsd::requests(one()), BinanceFuturesUsd::requests(one()));
    let mut turned = one();
    turned.reverse();
    assert_ne!(BinanceFuturesUsd::requests(one()), BinanceFuturesUsd::requests(turned));
    assert_eq!(
        BinanceFuturesUsd::requests(one()),
        vec![subscribe(1, "btcusdt@klines"), subscribe(2, "eth\\\"x@t")]
    );
}

#[test]
fn mapping_puts_each_subscription_in_flight_and_asks_for_each_entry() {
    let meta = map_subscriptions::<BinanceFuturesUsd>(vec![
        wanted(ExchangeId::BinanceFuturesUsd, "BTCUSDT", DataKind::Candles),
        wanted(ExchangeId::BinanceFuturesUsd, "ETHUSDT", DataKind::Candles),
        wanted(ExchangeId::BinanceFuturesUsd, "BTCUSDT", DataKind::Liquidations),
    ])
    .unwrap();
    assert_eq!(meta.map.len(), 2);
    assert_eq!(meta.map.entries()[0].id, SubscriptionId::from("@klinesBTCUSDT"));
    assert_eq!(meta.map.entries()[0].subscription.kind, DataKind::Liquidations);
    assert_eq!(meta.map.entries()[1].id, SubscriptionId::from("@klinesETHUSDT"));
    assert!(meta.map.entries().iter().all(|entry| entry.state == SubscriptionState::Pending));
    assert_eq!(
        meta.requests,
        vec![subscribe(1, "btcusdt@klines"), subscribe(2, "ethusdt@klines")]
    );
    assert_eq!(BinanceFuturesUsd::expected_responses(&meta.map), meta.requests.len());
}

#[test]
fn answers_by_request_number_complete_the_handshake() {
    let mut meta = map_subscriptions::<BinanceFuturesUsd>(vec![
        wanted(ExchangeId::BinanceFuturesUsd, "BTCUSDT", DataKind::Candles),
        wanted(ExchangeId::BinanceFuturesUsd, "ETHUSDT", DataKind::Candles),
    ])
    .unwrap();
    let expected = BinanceFuturesUsd::expected_responses(&meta.map);
    let second = BinanceSubResponse { id: 2, result: None, error: None };
    assert_eq!(second.outcome(), AckOutcome::Accepted);
    assert_eq!(second.acknowledge(&mut meta.map), Ok(AckEffect::Resolved));
    assert_eq!(meta.map.entries()[0].state, SubscriptionState::Pending);
    assert_eq!(meta.map.entries()[1].state, SubscriptionState::Confirmed);
    assert_eq!(meta.map.handshake(expected, false), Ok(false));
    assert_eq!(second.acknowledge(&mut meta.map), Ok(AckEffect::Duplicate));
    let first = BinanceSubResponse { id: 1, result: None, error: None };
    assert_eq!(first.acknowledge(&mut meta.map), Ok(AckEffect::Resolved));
    assert_eq!(meta.map.handshake(expected, false), Ok(true));
}

#[test]
fn answer_with_an_error_fails_its_subscription() {
    let mut meta = map_subscriptions::<BinanceFuturesUsd>(vec![wanted(
        ExchangeId::BinanceFuturesUsd,
        "BTCUSDT",
        DataKind::Candles,
    )])
    .unwrap();
    let answer = BinanceSubResponse {
        id: 1,
        result: Some(vec!["ignored".to_string()]),
        error: Some(BinanceError { code: 2, msg: "Invalid request".to_string() }),
    };
    assert_eq!(answer.outcome(), AckOutcome::Rejected("Invalid request".to_string()));
    let listed = |items: &[&str]| BinanceSubResponse {
        id: 1,
        result: Some(items.iter().map(|item| item.to_string()).collect()),
        error: None,
    };
    assert_eq!(listed(&[]).outcome(), AckOutcome::Rejected(String::new()));
    assert_eq!(listed(&["a"]).outcome(), AckOutcome::Rejected("a".to_string()));
    assert_eq!(listed(&["a", "", "c"]).outcome(), AckOutcome::Rejected("a, , c".to_string()));
    assert_eq!(answer.acknowledge(&mut meta.map), Ok(AckEffect::Resolved));
    assert_eq!(
        meta.map.entries()[0].state,
        SubscriptionState::Failed("Invalid request".to_string())
    );
    assert_eq!(
        meta.map.handshake(1, false),
        Err(HandshakeError::Rejected(vec![SubscriptionId::from("@klinesBTCUSDT")]))
    );
}

#[test]
fn answer_to_a_request_never_sent_is_a_violation() {
    let mut meta = map_subscriptions::<BinanceFuturesUsd>(vec![wanted(
        ExchangeId::BinanceFuturesUsd,
        "BTCUSDT",
        DataKind::Candles,
    )])
    .unwrap();
    for id in [0, 2, u32::MAX] {
        let answer = BinanceSubResponse { id, result: None, error: None };
        assert_eq!(answer.acknowledge(&mut meta.map), Err(ProtocolViolation::UnknownRequest(id)));
        assert_eq!(meta.map.entries()[0].state, SubscriptionState::Pending);
    }
    assert_eq!(meta.map.id_at(0), Some(SubscriptionId::from("@klinesBTCUSDT")));
    assert_eq!(meta.map.id_at(1), None);
}

#[test]
fn join_puts_the_separator_between() {
    let items = |texts: &[&str]| texts.iter().map(|text| text.to_string()).collect::<Vec<_>>();
    assert_eq!(join(&items(&[]), ", "), "");
    assert_eq!(join(&items(&["a"]), ", "), "a");
    assert_eq!(join(&items(&["a", "b", "c"]), ", "), "a, b, c");
    assert_eq!(join(&items(&["a", "b"]), ""), "ab");
}

#[test]
fn numbers_are_written_in_decimal() {
    assert_eq!(number_text(0), "0");
    assert_eq!(number_text(7), "7");
    assert_eq!(number_text(10), "10");
    assert_eq!(number_text(1234567890), "1234567890");
    assert_eq!(number_text(u64::MAX), "18446744073709551615");
}

#[test]
fn mapping_nothing_gives_nothing() {
    let meta = map_subscriptions::<BinanceFuturesUsd>(vec![]).unwrap();
    assert_eq!(meta.map.len(), 0);
    assert!(meta.requests.is_empty());
}

#[test]
fn unsupported_liquidations_fail_before_any_request() {
    assert!(!ExchangeId::Kraken.supports_liquidations());
    let mut on_kraken = wanted(ExchangeId::Kraken, "XBTUSD", DataKind::Liquidations);
    on_kraken.segment = MarketSegment::Spot;
    let refused = map_subscriptions::<BinanceFuturesUsd>(vec![
        wanted(ExchangeId::BinanceFuturesUsd, "BTCUSDT", DataKind::Candles),
        on_kraken,
        wanted(ExchangeId::Coinbase, "BTCUSD", DataKind::Trades),
    ]);
    assert_eq!(
        refused.unwrap_err(),
        ConfigError::UnsupportedKind(ExchangeId::Kraken, DataKind::Liquidations)
    );
}

#[test]
fn first_unsupported_subscription_decides_the_error() {
    let refused = map_subscriptions::<BinanceFuturesUsd>(vec![
        wanted(ExchangeId::Coinbase, "BTCUSD", DataKind::Trades),
        wanted(ExchangeId::BinanceFuturesUsd, "BTCUSDT", DataKind::Candles),
        wanted(ExchangeId::Kraken, "XBTUSD", DataKind::Liquidations),
    ]);
    assert_eq!(
        refused.unwrap_err(),
        ConfigError::UnsupportedSegment(ExchangeId::Coinbase, MarketSegment::Futures)
    );
}
