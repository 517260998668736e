use barter_data::exchange::subscription::ExchangeSub;
use barter_data::exchange::ExchangeId;
use barter_data::subscription::{ConfigError, DataKind, MarketSegment, Subscription};
use barter_integration::model::instrument::kind::InstrumentKind;
use barter_integration::model::instrument::Instrument;
use barter_integration::model::SubscriptionId;

fn subscription(exchange: ExchangeId, segment: MarketSegment, kind: DataKind) -> Subscription {
    let instrument_kind = match segment {
        MarketSegment::Spot => InstrumentKind::Spot,
        MarketSegment::Futures => InstrumentKind::Perpetual,
    };
    Subscription::new(
        exchange,
        Instrument::from(("btc", "usdt", instrument_kind)),
        "@klines".to_string(),
        "BTCUSDT".to_string(),
        segment,
        kind,
    )
}

#[test]
fn new_keeps_every_part() {
    let made = subscription(ExchangeId::Okx, MarketSegment::Futures, DataKind::Trades);
    assert_eq!(made.exchange, ExchangeId::Okx);
    assert_eq!(made.instrument, Instrument::from(("btc", "usdt", InstrumentKind::Perpetual)));
    assert_eq!(made.channel, "@klines");
    assert_eq!(made.market, "BTCUSDT");
    assert_eq!(made.segment, MarketSegment::Futures);
    assert_eq!(made.kind, DataKind::Trades);
}

#[test]
fn liquidations_are_refused_where_the_matrix_has_none() {
    let wanted = subscription(ExchangeId::Kraken, MarketSegment::Spot, DataKind::Liquidations);
    assert!(!ExchangeId::Kraken.supports_liquidations());
    assert_eq!(
        wanted.validate(),
        Err(ConfigError::UnsupportedKind(ExchangeId::Kraken, DataKind::Liquidations))
    );
}

#[test]
fn futures_are_refused_where_the_matrix_has_none() {
    let wanted = subscription(ExchangeId::Coinbase, MarketSegment::Futures, DataKind::Trades);
    assert_eq!(
        wanted.validate(),
        Err(ConfigError::UnsupportedSegment(ExchangeId::Coinbase, MarketSegment::Futures))
    );
}

#[test]
fn spot_is_refused_on_binance_futures() {
    let wanted = subscription(ExchangeId::BinanceFuturesUsd, MarketSegment::Spot, DataKind::Trades);
    assert_eq!(
        wanted.validate(),
        Err(ConfigError::UnsupportedSegment(ExchangeId::BinanceFuturesUsd, MarketSegment::Spot))
    );
}

#[test]
fn segment_is_looked_at_before_kind() {
    let wanted = subscription(ExchangeId::Kraken, MarketSegment::Futures, DataKind::Liquidations);
    assert_eq!(
        wanted.validate(),
        Err(ConfigError::UnsupportedSegment(ExchangeId::Kraken, MarketSegment::Futures))
    );
}

#[test]
fn what_the_matrix_allows_is_accepted() {
    for kind in [DataKind::Trades, DataKind::Candles, DataKind::Liquidations] {
        let wanted = subscription(ExchangeId::BinanceFuturesUsd, MarketSegment::Futures, kind);
        assert_eq!(wanted.validate(), Ok(()));
    }
    for kind in [DataKind::Trades, DataKind::Candles] {
        assert_eq!(subscription(ExchangeId::Okx, MarketSegment::Futures, kind).validate(), Ok(()));
        assert_eq!(subscription(ExchangeId::Okx, MarketSegment::Spot, kind).validate(), Ok(()));
        assert_eq!(subscription(ExchangeId::Kraken, MarketSegment::Spot, kind).validate(), Ok(()));
    }
}

#[test]
fn identifier_is_channel_then_market() {
    let sub = ExchangeSub::new("@klines", "BTCUSDT");
    assert_eq!(sub.channel, "@klines");
    assert_eq!(sub.market, "BTCUSDT");
    assert_eq!(sub.id(), SubscriptionId::from("@klinesBTCUSDT"));
    assert_eq!(ExchangeSub::new("", "").id(), SubscriptionId::from(""));
    assert_eq!(ExchangeSub::new("a", "").id(), SubscriptionId::from("a"));
    assert_ne!(ExchangeSub::new("@klines", "ETHUSDT").id(), sub.id());
}

#[test]
fn same_channel_and_market_give_the_same_identifier() {
    let first = subscription(ExchangeId::BinanceFuturesUsd, MarketSegment::Futures, DataKind::Candles);
    let second = subscription(ExchangeId::BinanceFuturesUsd, MarketSegment::Futures, DataKind::Trades);
    assert_eq!(first.id(), second.id());
    assert_eq!(first.id(), SubscriptionId::from("@klinesBTCUSDT"));
    assert_eq!(first.exchange_sub(), ExchangeSub::new("@klines", "BTCUSDT"));
}
