//! Klines of Binance futures, and the candles they are normalised into.

use crate::number::is_float_text;
use crate::number::Number;
use crate::event::DataError;
use crate::event::Field;
use crate::event::MarketEvent;
use crate::event::MarketIter;
use crate::event::NormalizationError;
use crate::exchange::binance::channel::BinanceChannel;
use crate::exchange::subscription::identity_text;
use crate::exchange::subscription::ExchangeSub;
use crate::exchange::ExchangeId;
use crate::integration::exchange_text;
use crate::integration::subscription_id_text;
use crate::subscription::candle::Candle;
use crate::subscription::candle::CandleView;
use crate::time::utc_now;
use crate::time::Timestamp;
use crate::time::MAX_EPOCH_MS;
use crate::Identifier;
use barter_integration::model::instrument::Instrument;
use barter_integration::model::Exchange;
use barter_integration::model::SubscriptionId;
use vstd::prelude::*;
use vstd::std_specs::convert::FromSpecImpl;

verus! {

/// A kline as it stands in a message, each field under its key there: times
/// in milliseconds since the Unix epoch, prices and volumes as strings.
#[derive(Clone, PartialEq, Debug)]
pub struct WireKline {
    /// `t`: when the interval starts.
    pub start_time: u64,
    /// `T`: when the interval ends.
    pub close_time: u64,
    /// `s`: the symbol.
    pub symbol: String,
    /// `i`: the interval.
    pub interval: String,
    /// `f`: the first trade of the interval.
    pub first_trade_id: u64,
    /// `L`: the last trade of the interval.
    pub last_trade_id: u64,
    /// `o`: the opening price.
    pub open: String,
    /// `h`: the highest price.
    pub high: String,
    /// `l`: the lowest price.
    pub low: String,
    /// `c`: the closing price, or the latest one while the interval runs.
    pub close: String,
    /// `v`: the volume in the base asset.
    pub volume: String,
    /// `n`: the number of trades.
    pub num_trades: u64,
    /// `x`: whether the interval is over.
    pub is_closed: bool,
    /// `q`: the volume in the quote asset.
    pub quote_asset_volume: String,
    /// `V`: the volume that takers bought, in the base asset.
    pub taker_base_asset_volume: String,
    /// `Q`: the volume that takers bought, in the quote asset.
    pub taker_quote_asset_volume: String,
}

/// A kline message as it comes in: the symbol under `s`, the kline under `k`.
#[derive(Clone, PartialEq, Debug)]
pub struct WireCandle {
    pub symbol: String,
    pub kline: WireKline,
}

/// A kline with its times and numbers read.
#[derive(Clone, PartialEq, Debug)]
pub struct BinanceKline {
    pub start_time: Timestamp,
    pub close_time: Timestamp,
    pub symbol: String,
    pub interval: String,
    pub first_trade_id: u64,
    pub last_trade_id: u64,
    pub open: Number,
    pub high: Number,
    pub low: Number,
    pub close: Number,
    pub volume: Number,
    pub num_trades: u64,
    pub is_closed: bool,
    pub quote_asset_volume: Number,
    pub taker_base_asset_volume: Number,
    pub taker_quote_asset_volume: Number,
}

/// A kline message of Binance futures, under the identifier of the
/// subscription that it answers.
#[derive(Clone, PartialEq, Debug)]
pub struct BinanceCandle {
    pub subscription_id: SubscriptionId,
    pub kline: BinanceKline,
}

/// The identifier of the candle subscription for the market `market`: the
/// candle channel, followed by the market as the message spells it.
pub open spec fn kline_identity(market: Seq<char>) -> Seq<char> {
    identity_text(BinanceChannel::candles_text(), market)
}

/// The identifier of the subscription that a kline message with the symbol
/// `market` belongs to. For `"BTCUSDT"` that is `"@klinesBTCUSDT"`.
pub fn de_kline_subscription_id(market: &str) -> (id: SubscriptionId)
    ensures
        subscription_id_text(id) == kline_identity(market@),
{
    ExchangeSub::new(BinanceChannel::candles().as_str(), market).id()
}

impl Identifier<Option<SubscriptionId>> for BinanceCandle {
    /// The identifier of the subscription that this message answers; there
    /// always is one.
    fn id(&self) -> (id: Option<SubscriptionId>)
        ensures
            id is Some,
            subscription_id_text(id.unwrap()) == subscription_id_text(self.subscription_id),
    {
        Some(self.subscription_id.clone())
    }
}

/// The first field of `wire`, in the order of [`WireKline`], that cannot be
/// read, and how it fails: a time beyond [`MAX_EPOCH_MS`] is malformed, a
/// price or volume that writes no floating-point number has the wrong
/// number format. `None` where every field can be read.
pub open spec fn first_fault(wire: WireKline) -> Option<NormalizationError> {
    if wire.start_time > MAX_EPOCH_MS {
        Some(NormalizationError::Malformed(Field::StartTime))
    } else if wire.close_time > MAX_EPOCH_MS {
        Some(NormalizationError::Malformed(Field::CloseTime))
    } else if !is_float_text(wire.open@) {
        Some(NormalizationError::NumberFormat(Field::Open))
    } else if !is_float_text(wire.high@) {
        Some(NormalizationError::NumberFormat(Field::High))
    } else if !is_float_text(wire.low@) {
        Some(NormalizationError::NumberFormat(Field::Low))
    } else if !is_float_text(wire.close@) {
        Some(NormalizationError::NumberFormat(Field::Close))
    } else if !is_float_text(wire.volume@) {
        Some(NormalizationError::NumberFormat(Field::Volume))
    } else if !is_float_text(wire.quote_asset_volume@) {
        Some(NormalizationError::NumberFormat(Field::QuoteAssetVolume))
    } else if !is_float_text(wire.taker_base_asset_volume@) {
        Some(NormalizationError::NumberFormat(Field::TakerBaseAssetVolume))
    } else if !is_float_text(wire.taker_quote_asset_volume@) {
        Some(NormalizationError::NumberFormat(Field::TakerQuoteAssetVolume))
    } else {
        None
    }
}

/// Whether `kline` holds, field by field, what `wire` says.
pub open spec fn reads_as(wire: WireKline, kline: BinanceKline) -> bool {
    &&& kline.start_time == Timestamp::at_epoch_ms(wire.start_time)
    &&& kline.close_time == Timestamp::at_epoch_ms(wire.close_time)
    &&& kline.symbol@ == wire.symbol@
    &&& kline.interval@ == wire.interval@
    &&& kline.first_trade_id == wire.first_trade_id
    &&& kline.last_trade_id == wire.last_trade_id
    &&& kline.open@ == wire.open@
    &&& kline.high@ == wire.high@
    &&& kline.low@ == wire.low@
    &&& kline.close@ == wire.close@
    &&& kline.volume@ == wire.volume@
    &&& kline.num_trades == wire.num_trades
    &&& kline.is_closed == wire.is_closed
    &&& kline.quote_asset_volume@ == wire.quote_asset_volume@
    &&& kline.taker_base_asset_volume@ == wire.taker_base_asset_volume@
    &&& kline.taker_quote_asset_volume@ == wire.taker_quote_asset_volume@
}

/// Reads a time of a message, in milliseconds since the Unix epoch.
fn read_time(ms: u64, field: Field) -> (time: Result<Timestamp, NormalizationError>)
    ensures
        time == if ms <= MAX_EPOCH_MS {
            Ok::<Timestamp, NormalizationError>(Timestamp::at_epoch_ms(ms))
        } else {
            Err::<Timestamp, NormalizationError>(NormalizationError::Malformed(field))
        },
{
    match Timestamp::from_epoch_ms(ms) {
        Some(time) => Ok(time),
        None => Err(NormalizationError::Malformed(field)),
    }
}

/// Reads a number that a message holds as a string.
fn read_number(text: &str, field: Field) -> (number: Result<Number, NormalizationError>)
    ensures
        match number {
            Ok(number) => is_float_text(text@) && number@ == text@,
            Err(fault) => !is_float_text(text@) && fault == NormalizationError::NumberFormat(field),
        },
{
    match Number::parse(text) {
        Some(number) => Ok(number),
        None => Err(NormalizationError::NumberFormat(field)),
    }
}

impl BinanceKline {
    /// Reads the times and the numbers of a kline. Where a field cannot be
    /// read, the first such field decides the error.
    pub fn decode(wire: WireKline) -> (kline: Result<BinanceKline, NormalizationError>)
        ensures
            match kline {
                Ok(kline) => first_fault(wire) is None && reads_as(wire, kline),
                Err(fault) => first_fault(wire) == Some(fault),
            },
    {
        let start_time = read_time(wire.start_time, Field::StartTime)?;
        let close_time = read_time(wire.close_time, Field::CloseTime)?;
        let open = read_number(wire.open.as_str(), Field::Open)?;
        let high = read_number(wire.high.as_str(), Field::High)?;
        let low = read_number(wire.low.as_str(), Field::Low)?;
        let close = read_number(wire.close.as_str(), Field::Close)?;
        let volume = read_number(wire.volume.as_str(), Field::Volume)?;
        let quote_asset_volume = read_number(
            wire.quote_asset_volume.as_str(),
            Field::QuoteAssetVolume,
        )?;
        let taker_base_asset_volume = read_number(
            wire.taker_base_asset_volume.as_str(),
            Field::TakerBaseAssetVolume,
        )?;
        let taker_quote_asset_volume = read_number(
            wire.taker_quote_asset_volume.as_str(),
            Field::TakerQuoteAssetVolume,
        )?;
        Ok(
            BinanceKline {
                start_time,
                close_time,
                symbol: wire.symbol,
                interval: wire.interval,
                first_trade_id: wire.first_trade_id,
                last_trade_id: wire.last_trade_id,
                open,
                high,
                low,
                close,
                volume,
                num_trades: wire.num_trades,
                is_closed: wire.is_closed,
                quote_asset_volume,
                taker_base_asset_volume,
                taker_quote_asset_volume,
            },
        )
    }
}

impl BinanceCandle {
    /// Reads a kline message: the kline, and from the symbol of the message
    /// the identifier of the subscription that it answers.
    pub fn decode(wire: WireCandle) -> (candle: Result<BinanceCandle, NormalizationError>)
        ensures
            match candle {
                Ok(candle) => {
                    &&& first_fault(wire.kline) is None
                    &&& subscription_id_text(candle.subscription_id) == kline_identity(
                        wire.symbol@,
                    )
                    &&& reads_as(wire.kline, candle.kline)
                },
                Err(fault) => first_fault(wire.kline) == Some(fault),
            },
    {
        let subscription_id = de_kline_subscription_id(wire.symbol.as_str());
        match BinanceKline::decode(wire.kline) {
            Ok(kline) => Ok(BinanceCandle { subscription_id, kline }),
            Err(fault) => Err(fault),
        }
    }
}

/// The candle that a kline is normalised into. Its own close time is not
/// taken from the kline: it stays at the Unix epoch.
pub open spec fn candle_of(kline: BinanceKline) -> CandleView {
    CandleView {
        close_time: Timestamp { secs: 0, nanos: 0 },
        open: kline.open@,
        high: kline.high@,
        low: kline.low@,
        close: kline.close@,
        volume: kline.volume@,
        trade_count: kline.num_trades,
        is_closed: kline.is_closed,
    }
}

/// The candle that the kline `wire` is normalised into, where every field
/// of it can be read.
pub open spec fn wire_candle(wire: WireKline) -> CandleView {
    CandleView {
        close_time: Timestamp { secs: 0, nanos: 0 },
        open: wire.open@,
        high: wire.high@,
        low: wire.low@,
        close: wire.close@,
        volume: wire.volume@,
        trade_count: wire.num_trades,
        is_closed: wire.is_closed,
    }
}

/// A kline that was read from `wire` is normalised into the candle of `wire`.
pub proof fn read_kline_gives_wire_candle(wire: WireKline, kline: BinanceKline)
    requires
        reads_as(wire, kline),
    ensures
        candle_of(kline) == wire_candle(wire),
{
}

/// Whether `event` is what the kline message `candle` of `exchange_id`, for
/// `instrument`, is normalised into when it is taken in at `received_time`.
/// The time that the exchange reports is the start of the kline's interval.
pub open spec fn is_candle_event(
    event: MarketEvent<Candle>,
    exchange_id: ExchangeId,
    instrument: Instrument,
    candle: BinanceCandle,
    received_time: Timestamp,
) -> bool {
    &&& event.exchange_time == candle.kline.start_time
    &&& event.received_time == received_time
    &&& exchange_text(event.exchange) == exchange_id.name()
    &&& event.instrument == instrument
    &&& event.kind@ == candle_of(candle.kline)
}

impl MarketIter<Candle> {
    /// Normalises a kline message that was taken in at `received_time`: into
    /// exactly one candle event, whether the kline is closed or not.
    pub fn received_at(
        exchange_id: ExchangeId,
        instrument: Instrument,
        candle: BinanceCandle,
        received_time: Timestamp,
    ) -> (events: MarketIter<Candle>)
        ensures
            events.0@.len() == 1,
            events.0@[0] matches Ok(event) && is_candle_event(
                event,
                exchange_id,
                instrument,
                candle,
                received_time,
            ),
    {
        let mut events: Vec<Result<MarketEvent<Candle>, DataError>> = Vec::new();
        events.push(
            Ok(
                MarketEvent {
                    exchange_time: candle.kline.start_time,
                    received_time,
                    exchange: Exchange::from(exchange_id),
                    instrument,
                    kind: Candle {
                        close_time: Timestamp::default(),
                        open: candle.kline.open,
                        high: candle.kline.high,
                        low: candle.kline.low,
                        close: candle.kline.close,
                        volume: candle.kline.volume,
                        trade_count: candle.kline.num_trades,
                        is_closed: candle.kline.is_closed,
                    },
                },
            ),
        );
        MarketIter(events)
    }
}

impl From<(ExchangeId, Instrument, BinanceCandle)> for MarketIter<Candle> {
    /// Normalises a kline message that is taken in now: into exactly one
    /// candle event, received when the clock was read.
    fn from(message: (ExchangeId, Instrument, BinanceCandle)) -> (events: MarketIter<Candle>)
        ensures
            events.0@.len() == 1,
            events.0@[0] matches Ok(event) && is_candle_event(
                event,
                message.0,
                message.1,
                message.2,
                event.received_time,
            ),
    {
        let (exchange_id, instrument, candle) = message;
        MarketIter::received_at(exchange_id, instrument, candle, utc_now())
    }
}

impl FromSpecImpl<(ExchangeId, Instrument, BinanceCandle)> for MarketIter<Candle> {
    /// No: what comes out depends on when the clock is read.
    open spec fn obeys_from_spec() -> bool {
        false
    }

    open spec fn from_spec(message: (ExchangeId, Instrument, BinanceCandle)) -> MarketIter<Candle> {
        arbitrary()
    }
}

/// Normalising is repeatable: two events that the same kline message of the
/// same exchange and instrument was normalised into, whenever each was taken
/// in, agree in everything but the time of receipt.
pub proof fn normalising_twice_agrees(
    first: MarketEvent<Candle>,
    second: MarketEvent<Candle>,
    exchange_id: ExchangeId,
    instrument: Instrument,
    candle: BinanceCandle,
    first_received: Timestamp,
    second_received: Timestamp,
)
    requires
        is_candle_event(first, exchange_id, instrument, candle, first_received),
        is_candle_event(second, exchange_id, instrument, candle, second_received),
    ensures
        first.exchange_time == second.exchange_time,
        exchange_text(first.exchange) == exchange_text(second.exchange),
        first.instrument == second.instrument,
        first.kind@ == second.kind@,
{
}

} // verus!
