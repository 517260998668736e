use barter_data::number::Number;
use barter_data::event::{DataError, Field, MarketEvent, MarketIter, NormalizationError};
use barter_data::exchange::binance::futures::candle::{
    de_kline_subscription_id, BinanceCandle, BinanceKline, WireCandle, WireKline,
};
use barter_data::exchange::ExchangeId;
use barter_data::subscriber::subscription::{ProtocolViolation, SubscriptionMap};
use barter_data::subscription::candle::Candle;
use barter_data::subscription::{DataKind, MarketSegment, Subscription};
use barter_data::transformer::transform_candle;
use barter_data::time::Timestamp;
use barter_data::Identifier;
use barter_integration::model::instrument::kind::InstrumentKind;
use barter_integration::model::instrument::Instrument;
use barter_integration::model::{Exchange, SubscriptionId};

fn as_float(number: &Number) -> f64 {
    number.as_str().parse().unwrap()
}

fn number(text: &str) -> Number {
    Number::parse(text).unwrap()
}

fn kline_message() -> WireCandle {
    WireCandle {
        symbol: "BTCUSDT".to_string(),
        kline: WireKline {
            start_time: 1638747660000,
            close_time: 1638747719999,
            symbol: "BTCUSDT".to_string(),
            interval: "1m".to_string(),
            first_trade_id: 100,
            last_trade_id: 200,
            open: "0.0010".to_string(),
            high: "0.0025".to_string(),
            low: "0.0015".to_string(),
            close: "0.0020".to_string(),
            volume: "1000".to_string(),
            num_trades: 100,
            is_closed: false,
            quote_asset_volume: "1.0000".to_string(),
            taker_base_asset_volume: "500".to_string(),
            taker_quote_asset_volume: "0.500".to_string(),
        },
    }
}

fn btc_usdt_perpetual() -> Instrument {
    Instrument::from(("btc", "usdt", InstrumentKind::Perpetual))
}

#[test]
fn open_kline_yields_one_candle_at_the_start_time() {
    let candle = BinanceCandle::decode(kline_message()).unwrap();
    let before = chrono::Utc::now();
    let events =
        MarketIter::<Candle>::from((ExchangeId::BinanceFuturesUsd, btc_usdt_perpetual(), candle));
    let after = chrono::Utc::now();

    assert_eq!(events.0.len(), 1);
    let event = events.0.into_iter().next().unwrap().unwrap();
    assert_eq!(event.exchange_time, Timestamp { secs: 1638747660, nanos: 0 });
    assert_ne!(event.exchange_time, Timestamp { secs: 1638747719, nanos: 999_000_000 });
    assert_eq!(event.exchange, Exchange::from("binance_futures_usd"));
    assert_eq!(event.instrument, btc_usdt_perpetual());
    assert_eq!(as_float(&event.kind.open), 0.0010);
    assert_eq!(as_float(&event.kind.close), 0.0020);
    assert_eq!(as_float(&event.kind.high), 0.0025);
    assert_eq!(as_float(&event.kind.low), 0.0015);
    assert_eq!(as_float(&event.kind.volume), 1000.0);
    assert_eq!(event.kind.trade_count, 100);
    assert!(!event.kind.is_closed);
    assert_eq!(event.kind.close_time, Timestamp::default());
    assert!(before.timestamp() <= event.received_time.secs);
    assert!(event.received_time.secs <= after.timestamp());
}

#[test]
fn kline_identifier_is_channel_then_symbol() {
    assert_eq!(de_kline_subscription_id("BTCUSDT"), SubscriptionId::from("@klinesBTCUSDT"));
    let candle = BinanceCandle::decode(kline_message()).unwrap();
    assert_eq!(candle.subscription_id, SubscriptionId::from("@klinesBTCUSDT"));
    assert_eq!(candle.id(), Some(SubscriptionId::from("@klinesBTCUSDT")));
}

#[test]
fn first_unreadable_field_decides_the_error() {
    let mut message = kline_message();
    message.kline.close = "1e".to_string();
    message.kline.volume = "".to_string();
    assert_eq!(
        BinanceCandle::decode(message).unwrap_err(),
        NormalizationError::NumberFormat(Field::Close)
    );

    let mut message = kline_message();
    message.kline.close_time = 8_210_266_876_800_000;
    message.kline.open = "x".to_string();
    assert_eq!(
        BinanceCandle::decode(message).unwrap_err(),
        NormalizationError::Malformed(Field::CloseTime)
    );
}

fn map_with_btc() -> SubscriptionMap {
    let mut map = SubscriptionMap::new();
    let wanted = Subscription::new(
        ExchangeId::BinanceFuturesUsd,
        btc_usdt_perpetual(),
        "@klines".to_string(),
        "BTCUSDT".to_string(),
        MarketSegment::Futures,
        DataKind::Candles,
    );
    map.insert(wanted.id(), wanted);
    map
}

#[test]
fn kline_of_a_subscription_in_flight_becomes_its_candle_event() {
    let received = Timestamp { secs: 1638747661, nanos: 5 };
    let events = transform_candle(&map_with_btc(), kline_message(), received);
    assert_eq!(
        events,
        MarketIter(vec![Ok(MarketEvent {
            exchange_time: Timestamp { secs: 1638747660, nanos: 0 },
            received_time: received,
            exchange: Exchange::from("binance_futures_usd"),
            instrument: btc_usdt_perpetual(),
            kind: Candle {
                close_time: Timestamp { secs: 0, nanos: 0 },
                open: number("0.0010"),
                high: number("0.0025"),
                low: number("0.0015"),
                close: number("0.0020"),
                volume: number("1000"),
                trade_count: 100,
                is_closed: false,
            },
        })])
    );
}

#[test]
fn closed_kline_is_a_candle_too() {
    let mut message = kline_message();
    message.kline.is_closed = true;
    let events = transform_candle(&map_with_btc(), message, Timestamp::default());
    assert_eq!(events.0.len(), 1);
    assert!(events.0[0].as_ref().unwrap().kind.is_closed);
}

#[test]
fn same_message_twice_differs_in_receipt_only() {
    let map = map_with_btc();
    let first = transform_candle(&map, kline_message(), Timestamp { secs: 1, nanos: 2 });
    let second = transform_candle(&map, kline_message(), Timestamp { secs: 3, nanos: 4 });
    let (first, second) = (first.0[0].as_ref().unwrap(), second.0[0].as_ref().unwrap());
    assert_eq!(first.exchange_time, second.exchange_time);
    assert_eq!(first.exchange, second.exchange);
    assert_eq!(first.instrument, second.instrument);
    assert_eq!(first.kind, second.kind);
    assert_eq!(first.received_time, Timestamp { secs: 1, nanos: 2 });
    assert_eq!(second.received_time, Timestamp { secs: 3, nanos: 4 });

    let again = transform_candle(&map, kline_message(), Timestamp { secs: 1, nanos: 2 });
    assert_eq!(again.0[0].as_ref().unwrap(), first);
}

#[test]
fn kline_of_no_subscription_is_a_violation() {
    let mut message = kline_message();
    message.symbol = "ETHUSDT".to_string();
    let events = transform_candle(&map_with_btc(), message, Timestamp::default());
    assert_eq!(
        events,
        MarketIter(vec![Err(DataError::Protocol(ProtocolViolation::UnknownData(
            SubscriptionId::from("@klinesETHUSDT")
        )))])
    );
    let events = transform_candle(&SubscriptionMap::new(), kline_message(), Timestamp::default());
    assert_eq!(
        events,
        MarketIter(vec![Err(DataError::Protocol(ProtocolViolation::UnknownData(
            SubscriptionId::from("@klinesBTCUSDT")
        )))])
    );
}

#[test]
fn unreadable_kline_is_an_error_in_the_stream() {
    let mut message = kline_message();
    message.symbol = "ETHUSDT".to_string();
    message.kline.start_time = u64::MAX;
    let events = transform_candle(&map_with_btc(), message, Timestamp::default());
    assert_eq!(
        events,
        MarketIter(vec![Err(DataError::Normalization(NormalizationError::Malformed(
            Field::StartTime
        )))])
    );
}

#[test]
fn each_number_field_is_read_in_its_turn() {
    let fields = [
        Field::Open,
        Field::High,
        Field::Low,
        Field::Close,
        Field::Volume,
        Field::QuoteAssetVolume,
        Field::TakerBaseAssetVolume,
        Field::TakerQuoteAssetVolume,
    ];
    for (broken, field) in fields.iter().enumerate() {
        let mut message = kline_message();
        let texts = [
            &mut message.kline.open,
            &mut message.kline.high,
            &mut message.kline.low,
            &mut message.kline.close,
            &mut message.kline.volume,
            &mut message.kline.quote_asset_volume,
            &mut message.kline.taker_base_asset_volume,
            &mut message.kline.taker_quote_asset_volume,
        ];
        for (place, text) in texts.into_iter().enumerate() {
            if place >= broken {
                *text = "-".to_string();
            }
        }
        assert_eq!(
            BinanceKline::decode(message.kline).unwrap_err(),
            NormalizationError::NumberFormat(*field)
        );
    }
}

#[test]
fn prices_with_sign_or_exponent_are_numbers_too() {
    let mut message = kline_message();
    message.kline.open = "1e-3".to_string();
    message.kline.low = "-.5".to_string();
    message.kline.volume = "+1E3".to_string();
    let kline = BinanceKline::decode(message.kline).unwrap();
    assert_eq!(as_float(&kline.open), 0.001);
    assert_eq!(as_float(&kline.low), -0.5);
    assert_eq!(as_float(&kline.volume), 1000.0);
}

#[test]
fn decode_keeps_what_needs_no_reading() {
    let kline = BinanceKline::decode(kline_message().kline).unwrap();
    assert_eq!(kline.start_time, Timestamp { secs: 1638747660, nanos: 0 });
    assert_eq!(kline.close_time, Timestamp { secs: 1638747719, nanos: 999_000_000 });
    assert_eq!(kline.symbol, "BTCUSDT");
    assert_eq!(kline.interval, "1m");
    assert_eq!(kline.first_trade_id, 100);
    assert_eq!(kline.last_trade_id, 200);
    assert_eq!(kline.num_trades, 100);
    assert!(!kline.is_closed);
    assert_eq!(kline.quote_asset_volume, number("1.0000"));
    assert_eq!(kline.taker_base_asset_volume, number("500"));
    assert_eq!(kline.taker_quote_asset_volume, number("0.500"));
}
