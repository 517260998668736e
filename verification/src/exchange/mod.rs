use crate::exchange::binance::channel::BinanceChannel;
use crate::exchange::okx::channel::OkxChannel;
use crate::exchange::subscription::exchange_sub_views;
use crate::exchange::subscription::ExchangeSub;
use crate::exchange::subscription::ExchangeSubView;
use crate::integration::duration_nanos;
use crate::integration::ws_text;
use crate::subscriber::subscription::SubscriptionMap;
use barter_integration::protocol::websocket::WsMessage;
use std::time::Duration;
use vstd::prelude::*;

pub mod binance;
pub mod okx;
pub mod subscription;

verus! {

/// The texts of a list of WebSocket messages, each `None` where the message
/// is no text message.
pub open spec fn ws_texts(messages: Seq<WsMessage>) -> Seq<Option<Seq<char>>> {
    messages.map_values(|message: WsMessage| ws_text(message))
}

/// What is particular to one exchange server: where it is, how it is asked
/// for subscriptions, and how its answers are awaited.
pub trait Connector: Sized + Clone + core::fmt::Debug {
    /// The exchange that this connector is for.
    const ID: ExchangeId;

    /// The address of the exchange's WebSocket server.
    spec fn endpoint() -> Seq<char>;

    /// The requests that `exchange_subs` are asked for with, as texts.
    spec fn request_texts(exchange_subs: Seq<ExchangeSubView>) -> Seq<Seq<char>>;

    /// Whether the exchange answers every subscription with a message of
    /// its own. It is taken to, unless a connector says otherwise.
    open spec fn answers_each() -> bool {
        true
    }

    /// Whether the exchange wants to be pinged by the application. It is
    /// taken not to, unless a connector says otherwise.
    open spec fn pings() -> bool {
        false
    }

    /// Whether answers are waited for as long as for most exchanges: ten
    /// seconds. They are, unless a connector says otherwise.
    open spec fn waits_ten_seconds() -> bool {
        true
    }

    /// The address of the exchange's WebSocket server.
    fn base_url() -> (url: &'static str)
        ensures
            url@ == Self::endpoint(),
    ;

    /// How often, and with what, the exchange wants to be pinged by the
    /// application; `None` where the pings of the protocol are enough.
    fn ping_interval() -> (ping: Option<PingInterval>)
        ensures
            !Self::pings() ==> ping is None,
    {
        None
    }

    /// The requests to send for `exchange_subs`, in the order to send them
    /// in. They depend on nothing but `exchange_subs`, and there is none
    /// where nothing is asked for.
    fn requests(exchange_subs: Vec<ExchangeSub>) -> (requests: Vec<WsMessage>)
        ensures
            ws_texts(requests@) == Self::request_texts(
                exchange_sub_views(exchange_subs@),
            ).map_values(|text: Seq<char>| Some(text)),
            exchange_subs@.len() == 0 ==> requests@.len() == 0,
    ;

    /// How many answers to await before the handshake is complete: one for
    /// each subscription in flight, where the exchange answers each.
    fn expected_responses(map: &SubscriptionMap) -> (count: usize)
        ensures
            Self::answers_each() ==> count == map@.len(),
    {
        map.len()
    }

    /// How long to wait for the answers.
    fn subscription_timeout() -> (timeout: Duration)
        ensures
            Self::waits_ten_seconds() ==> duration_nanos(timeout) == 10_000_000_000nat,
    {
        Duration::from_secs(10)
    }
}

/// Where one server of an exchange is.
pub trait ServerSelector: Clone {
    /// The exchange that this server belongs to.
    const ID: ExchangeId;

    /// The address of the WebSocket server.
    spec fn endpoint() -> Seq<char>;

    /// The address of the WebSocket server.
    fn base_url() -> (url: &'static str)
        ensures
            url@ == Self::endpoint(),
    ;
}

/// How often an exchange wants an application-level ping, and the message
/// to send each time.
#[derive(PartialEq, Debug)]
pub struct PingInterval {
    pub interval: Duration,
    pub ping: WsMessage,
}

/// The exchanges that market data is taken from, with one variant for each
/// market segment of an exchange that has a server of its own.
#[derive(Copy, Clone, Eq, PartialEq, Ord, PartialOrd, Hash, Debug, Structural)]
pub enum ExchangeId {
    BinanceFuturesUsd,
    BinanceSpot,
    Bitfinex,
    Coinbase,
    GateioFuturesBtc,
    GateioFuturesUsd,
    GateioSpot,
    Kraken,
    Okx,
}

/// The texts of a list of channel names.
pub open spec fn channel_texts(channels: Seq<&'static str>) -> Seq<Seq<char>> {
    channels.map_values(|channel: &'static str| channel@)
}

impl ExchangeId {
    /// The channels of futures data that there is a connector and a
    /// normaliser for: the klines of Binance futures, and the trades of
    /// Okx, which carry those of its perpetual swaps.
    pub open spec fn futures_feeds(self) -> Seq<Seq<char>> {
        match self {
            ExchangeId::BinanceFuturesUsd => seq![BinanceChannel::candles_text()],
            ExchangeId::Okx => seq![OkxChannel::trades_text()],
            _ => Seq::empty(),
        }
    }

    /// The stable lowercase tag of this exchange, as it is written on the wire.
    pub open spec fn name(self) -> Seq<char> {
        match self {
            ExchangeId::BinanceSpot => "binance_spot"@,
            ExchangeId::BinanceFuturesUsd => "binance_futures_usd"@,
            ExchangeId::Bitfinex => "bitfinex"@,
            ExchangeId::Coinbase => "coinbase"@,
            ExchangeId::GateioSpot => "gateio_spot"@,
            ExchangeId::GateioFuturesUsd => "gateio_futures_usd"@,
            ExchangeId::GateioFuturesBtc => "gateio_futures_btc"@,
            ExchangeId::Kraken => "kraken"@,
            ExchangeId::Okx => "okx"@,
        }
    }

    /// Whether spot market data can be had from this exchange.
    pub open spec fn spot(self) -> bool {
        self != ExchangeId::BinanceFuturesUsd
    }

    /// Whether futures market data can be had from this exchange.
    pub open spec fn futures(self) -> bool {
        self == ExchangeId::BinanceFuturesUsd || self == ExchangeId::Okx
    }

    /// Whether liquidation orders can be had from this exchange.
    pub open spec fn liquidations(self) -> bool {
        self == ExchangeId::BinanceFuturesUsd
    }

    /// Return the &str representation of this [`ExchangeId`].
    pub fn as_str(&self) -> (tag: &'static str)
        ensures
            tag@ == self.name(),
    {
        match self {
            ExchangeId::BinanceSpot => "binance_spot",
            ExchangeId::BinanceFuturesUsd => "binance_futures_usd",
            ExchangeId::Bitfinex => "bitfinex",
            ExchangeId::Coinbase => "coinbase",
            ExchangeId::GateioSpot => "gateio_spot",
            ExchangeId::GateioFuturesUsd => "gateio_futures_usd",
            ExchangeId::GateioFuturesBtc => "gateio_futures_btc",
            ExchangeId::Kraken => "kraken",
            ExchangeId::Okx => "okx",
        }
    }

    /// Determines whether this [`ExchangeId`] supports the ingestion of spot market data.
    pub fn supports_spot(&self) -> (supported: bool)
        ensures
            supported == self.spot(),
    {
        match self {
            ExchangeId::BinanceFuturesUsd => false,
            _ => true,
        }
    }

    /// Determines whether this [`ExchangeId`] supports the collection of futures market data.
    pub fn supports_futures(&self) -> (supported: bool)
        ensures
            supported == self.futures(),
    {
        match self {
            ExchangeId::BinanceFuturesUsd => true,
            ExchangeId::Okx => true,
            _ => false,
        }
    }

    /// The channels of futures data of this exchange that can be subscribed
    /// to and normalised.
    pub fn futures_channels(&self) -> (channels: Vec<&'static str>)
        ensures
            channel_texts(channels@) == self.futures_feeds(),
    {
        let mut channels: Vec<&'static str> = Vec::new();
        match self {
            ExchangeId::BinanceFuturesUsd => {
                channels.push(BinanceChannel::candles().as_str());
                assert(channel_texts(channels@) =~= self.futures_feeds());
            },
            ExchangeId::Okx => {
                channels.push(OkxChannel::trades().as_str());
                assert(channel_texts(channels@) =~= self.futures_feeds());
            },
            _ => {
                assert(channel_texts(channels@) =~= self.futures_feeds());
            },
        }
        channels
    }

    /// Determines whether this [`ExchangeId`] supports the collection of public trades.
    pub fn supports_trades(&self) -> (supported: bool)
        ensures
            supported,
    {
        true
    }

    /// Determines whether this [`ExchangeId`] supports the collection of liquidation orders.
    pub fn supports_liquidations(&self) -> (supported: bool)
        ensures
            supported == self.liquidations(),
    {
        match self {
            ExchangeId::BinanceFuturesUsd => true,
            _ => false,
        }
    }
}

/// No futures data is offered for an exchange that the capability matrix
/// denies futures to.
pub proof fn futures_feeds_need_the_capability(exchange: ExchangeId)
    requires
        exchange.futures_feeds().len() > 0,
    ensures
        exchange.futures(),
{
}

/// An exchange that the capability matrix grants futures to has a channel
/// of futures data that can be subscribed to and normalised.
pub proof fn futures_capability_is_backed(exchange: ExchangeId)
    requires
        exchange.futures(),
    ensures
        exchange.futures_feeds().len() > 0,
{
}

/// Every exchange serves spot or futures, and liquidations are served only
/// where futures are.
pub proof fn capabilities_hang_together(exchange: ExchangeId)
    ensures
        exchange.spot() || exchange.futures(),
        exchange.liquidations() ==> exchange.futures(),
{
}

} // verus!
