//! From an inbound data message to market events: the message is read,
//! its subscription is looked up, and it is normalised for the instrument of
//! that subscription.

use crate::event::DataError;
use crate::event::MarketEvent;
use crate::event::MarketIter;
use crate::exchange::binance::futures::candle::first_fault;
use crate::exchange::binance::futures::candle::kline_identity;
use crate::exchange::binance::futures::candle::wire_candle;
use crate::exchange::binance::futures::candle::BinanceCandle;
use crate::exchange::binance::futures::candle::WireCandle;
use crate::exchange::okx::trade::okx_subscription_id;
use crate::exchange::okx::trade::trade_fault;
use crate::exchange::okx::trade::wire_trade;
use crate::exchange::okx::trade::wire_trade_time;
use crate::exchange::okx::trade::OkxTrade;
use crate::exchange::okx::trade::WireTrade;
use crate::exchange::okx::trade::WireTrades;
use crate::exchange::subscription::identity_text;
use crate::integration::exchange_text;
use crate::integration::subscription_id_text;
use crate::subscriber::subscription::entry_under;
use crate::subscriber::subscription::ProtocolViolation;
use crate::subscriber::subscription::SubscriptionMap;
use crate::subscription::candle::Candle;
use crate::subscription::trade::PublicTrade;
use crate::subscription::SubscriptionView;
use crate::time::Timestamp;
use barter_integration::model::Exchange;
use vstd::prelude::*;

verus! {

/// Whether `event` is what the kline message `wire` is normalised into for
/// `subscription`, when it is taken in at `received_time`: it is tagged with
/// the exchange and the instrument of the subscription, and the time that
/// the exchange reports is the start of the kline's interval.
pub open spec fn is_kline_event(
    event: MarketEvent<Candle>,
    subscription: SubscriptionView,
    wire: WireCandle,
    received_time: Timestamp,
) -> bool {
    &&& event.exchange_time == Timestamp::at_epoch_ms(wire.kline.start_time)
    &&& event.received_time == received_time
    &&& exchange_text(event.exchange) == subscription.exchange.name()
    &&& event.instrument == subscription.instrument
    &&& event.kind@ == wire_candle(wire.kline)
}

/// Takes in one kline message on the connection of `map`, at
/// `received_time`. What comes out has exactly one element. It is the error
/// of the first field that cannot be read, where there is one. Failing that,
/// it is a protocol violation where no subscription in flight has the
/// identifier of the message. Failing that too, it is the candle event of the
/// message, for the subscription under that identifier.
pub fn transform_candle(map: &SubscriptionMap, wire: WireCandle, received_time: Timestamp) -> (events:
    MarketIter<Candle>)
    ensures
        events.0@.len() == 1,
        match first_fault(wire.kline) {
            Some(fault) => events.0@[0] == Err::<MarketEvent<Candle>, DataError>(
                DataError::Normalization(fault),
            ),
            None => match entry_under(map@, kline_identity(wire.symbol@)) {
                None => events.0@[0] matches Err(
                    DataError::Protocol(ProtocolViolation::UnknownData(unknown)),
                ) && subscription_id_text(unknown) == kline_identity(wire.symbol@),
                Some(entry) => events.0@[0] matches Ok(event) && is_kline_event(
                    event,
                    entry.subscription,
                    wire,
                    received_time,
                ),
            },
        },
{
    let candle = match BinanceCandle::decode(wire) {
        Ok(candle) => candle,
        Err(fault) => {
            let mut events: Vec<Result<MarketEvent<Candle>, DataError>> = Vec::new();
            events.push(Err(DataError::Normalization(fault)));
            return MarketIter(events);
        },
    };
    match map.find(&candle.subscription_id) {
        Ok(subscription) => {
            let exchange_id = subscription.exchange;
            let instrument = subscription.instrument.clone();
            MarketIter::received_at(exchange_id, instrument, candle, received_time)
        },
        Err(violation) => {
            let mut events: Vec<Result<MarketEvent<Candle>, DataError>> = Vec::new();
            events.push(Err(DataError::Protocol(violation)));
            MarketIter(events)
        },
    }
}

/// Taking in the same message twice, on the same connection, gives two
/// events that agree in everything but the time of receipt.
pub proof fn transforming_twice_agrees(
    first: MarketEvent<Candle>,
    second: MarketEvent<Candle>,
    subscription: SubscriptionView,
    wire: WireCandle,
    first_received: Timestamp,
    second_received: Timestamp,
)
    requires
        is_kline_event(first, subscription, wire, first_received),
        is_kline_event(second, subscription, wire, second_received),
    ensures
        first.exchange_time == second.exchange_time,
        exchange_text(first.exchange) == exchange_text(second.exchange),
        first.instrument == second.instrument,
        first.kind@ == second.kind@,
{
}

/// Whether `event` is what the trade `wire` is normalised into for
/// `subscription`, when it is taken in at `received_time`: it is tagged with
/// the exchange and the instrument of the subscription, and the time that
/// the exchange reports is the time of the trade.
pub open spec fn is_trade_event(
    event: MarketEvent<PublicTrade>,
    subscription: SubscriptionView,
    wire: WireTrade,
    received_time: Timestamp,
) -> bool {
    &&& event.exchange_time == wire_trade_time(wire)
    &&& event.received_time == received_time
    &&& exchange_text(event.exchange) == subscription.exchange.name()
    &&& event.instrument == subscription.instrument
    &&& event.kind@ == wire_trade(wire)
}

/// Whether `outcome` is what the trade `wire` gives for `subscription`: the
/// error of its first field that cannot be read, or else its event.
pub open spec fn is_trade_outcome(
    outcome: Result<MarketEvent<PublicTrade>, DataError>,
    subscription: SubscriptionView,
    wire: WireTrade,
    received_time: Timestamp,
) -> bool {
    match trade_fault(wire) {
        Some(fault) => outcome == Err::<MarketEvent<PublicTrade>, DataError>(
            DataError::Normalization(fault),
        ),
        None => outcome matches Ok(event) && is_trade_event(
            event,
            subscription,
            wire,
            received_time,
        ),
    }
}

/// Taking in the same trade twice, for the same subscription, gives two
/// events that agree in everything but the time of receipt.
pub proof fn transforming_a_trade_twice_agrees(
    first: MarketEvent<PublicTrade>,
    second: MarketEvent<PublicTrade>,
    subscription: SubscriptionView,
    wire: WireTrade,
    first_received: Timestamp,
    second_received: Timestamp,
)
    requires
        is_trade_event(first, subscription, wire, first_received),
        is_trade_event(second, subscription, wire, second_received),
    ensures
        first.exchange_time == second.exchange_time,
        exchange_text(first.exchange) == exchange_text(second.exchange),
        first.instrument == second.instrument,
        first.kind@ == second.kind@,
{
}

/// Takes in one trades message on the connection of `map`, at
/// `received_time`. Where no subscription in flight has the identifier of
/// the message, what comes out is one protocol violation. Otherwise there
/// is one element for each trade of the message, in their order, none for
/// a message without trades: the event of the trade, for the subscription
/// under that identifier, or the error of the first field of the trade that
/// cannot be read. A trade that cannot be read does not keep the others from
/// being read.
pub fn transform_trades(map: &SubscriptionMap, wire: &WireTrades, received_time: Timestamp) -> (events:
    MarketIter<PublicTrade>)
    ensures
        match entry_under(map@, identity_text(wire.channel@, wire.inst_id@)) {
            None => events.0@.len() == 1 && (events.0@[0] matches Err(
                DataError::Protocol(ProtocolViolation::UnknownData(unknown)),
            ) && subscription_id_text(unknown) == identity_text(wire.channel@, wire.inst_id@)),
            Some(entry) => events.0@.len() == wire.data@.len() && forall|i: int|
                0 <= i < wire.data@.len() ==> is_trade_outcome(
                    #[trigger] events.0@[i],
                    entry.subscription,
                    wire.data@[i],
                    received_time,
                ),
        },
{
    let mut events: Vec<Result<MarketEvent<PublicTrade>, DataError>> = Vec::new();
    let id = okx_subscription_id(wire.channel.as_str(), wire.inst_id.as_str());
    let subscription = match map.find(&id) {
        Ok(subscription) => subscription,
        Err(violation) => {
            events.push(Err(DataError::Protocol(violation)));
            return MarketIter(events);
        },
    };
    let mut i: usize = 0;
    while i < wire.data.len()
        invariant
            i <= wire.data@.len(),
            events@.len() == i,
            forall|k: int|
                0 <= k < i ==> is_trade_outcome(
                    #[trigger] events@[k],
                    subscription@,
                    wire.data@[k],
                    received_time,
                ),
        decreases wire.data@.len() - i,
    {
        let ghost before = events@;
        match OkxTrade::decode(&wire.data[i]) {
            Ok(trade) => {
                events.push(
                    Ok(
                        MarketEvent {
                            exchange_time: trade.time,
                            received_time,
                            exchange: Exchange::from(subscription.exchange),
                            instrument: subscription.instrument.clone(),
                            kind: PublicTrade {
                                id: trade.id,
                                price: trade.price,
                                amount: trade.amount,
                                side: trade.side,
                            },
                        },
                    ),
                );
            },
            Err(fault) => {
                events.push(Err(DataError::Normalization(fault)));
            },
        }
        assert(forall|k: int| 0 <= k < i ==> events@[k] == before[k]);
        i += 1;
    }
    MarketIter(events)
}

} // verus!
