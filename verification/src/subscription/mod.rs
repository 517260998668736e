//! Logical subscriptions, as a caller asks for them before anything is sent.

use crate::exchange::subscription::identity_text;
use crate::exchange::subscription::ExchangeSub;
use crate::exchange::subscription::ExchangeSubView;
use crate::exchange::ExchangeId;
use crate::integration::subscription_id_text;
use barter_integration::model::instrument::Instrument;
use barter_integration::model::SubscriptionId;
use vstd::prelude::*;

pub mod candle;
pub mod trade;

verus! {

/// The market segment that an instrument trades in.
#[derive(Copy, Clone, Eq, PartialEq, Hash, Debug, Structural)]
pub enum MarketSegment {
    Spot,
    Futures,
}

/// The kind of market data that a subscription asks for.
#[derive(Copy, Clone, Eq, PartialEq, Hash, Debug, Structural)]
pub enum DataKind {
    Trades,
    Candles,
    Liquidations,
}

/// Why a subscription was turned down before anything was sent.
#[derive(Copy, Clone, Eq, PartialEq, Debug, Structural)]
pub enum ConfigError {
    /// The exchange does not serve the market segment asked for.
    UnsupportedSegment(ExchangeId, MarketSegment),
    /// The exchange does not serve the kind of data asked for.
    UnsupportedKind(ExchangeId, DataKind),
}

/// One stream of market data that a caller wants from one exchange: for the
/// instrument `instrument`, which the exchange calls `market`, on `channel`.
#[derive(Clone, PartialEq, Debug)]
pub struct Subscription {
    pub exchange: ExchangeId,
    pub instrument: Instrument,
    pub channel: String,
    pub market: String,
    pub segment: MarketSegment,
    pub kind: DataKind,
}

/// What a [`Subscription`] is, with its strings as sequences of characters.
pub struct SubscriptionView {
    pub exchange: ExchangeId,
    pub instrument: Instrument,
    pub channel: Seq<char>,
    pub market: Seq<char>,
    pub segment: MarketSegment,
    pub kind: DataKind,
}

impl View for Subscription {
    type V = SubscriptionView;

    open spec fn view(&self) -> SubscriptionView {
        SubscriptionView {
            exchange: self.exchange,
            instrument: self.instrument,
            channel: self.channel@,
            market: self.market@,
            segment: self.segment,
            kind: self.kind,
        }
    }
}

/// Whether the capability matrix lets `exchange` serve the market `segment`.
pub open spec fn serves_segment(exchange: ExchangeId, segment: MarketSegment) -> bool {
    match segment {
        MarketSegment::Spot => exchange.spot(),
        MarketSegment::Futures => exchange.futures(),
    }
}

/// Whether the capability matrix lets `exchange` serve data of this `kind`.
/// Candles have no entry of their own in the matrix, so it never rules them out.
pub open spec fn serves_kind(exchange: ExchangeId, kind: DataKind) -> bool {
    match kind {
        DataKind::Trades => true,
        DataKind::Candles => true,
        DataKind::Liquidations => exchange.liquidations(),
    }
}

/// The views of a list of subscriptions, in their order.
pub open spec fn subscription_views(subscriptions: Seq<Subscription>) -> Seq<SubscriptionView> {
    subscriptions.map_values(|subscription: Subscription| subscription@)
}

impl SubscriptionView {
    /// The channel and the market, as the exchange is asked for them.
    pub open spec fn exchange_sub(self) -> ExchangeSubView {
        ExchangeSubView { channel: self.channel, market: self.market }
    }

    /// The identifier under which the exchange answers this subscription.
    pub open spec fn identity(self) -> Seq<char> {
        identity_text(self.channel, self.market)
    }

    /// Whether the capability matrix allows this subscription.
    pub open spec fn supported(self) -> bool {
        serves_segment(self.exchange, self.segment) && serves_kind(self.exchange, self.kind)
    }

    /// The error that an unsupported subscription is turned down with: the
    /// segment is looked at first, the kind of data second.
    pub open spec fn refusal(self) -> ConfigError {
        if !serves_segment(self.exchange, self.segment) {
            ConfigError::UnsupportedSegment(self.exchange, self.segment)
        } else {
            ConfigError::UnsupportedKind(self.exchange, self.kind)
        }
    }
}

impl Subscription {
    /// Puts a subscription together from its parts.
    pub fn new(
        exchange: ExchangeId,
        instrument: Instrument,
        channel: String,
        market: String,
        segment: MarketSegment,
        kind: DataKind,
    ) -> (subscription: Subscription)
        ensures
            subscription@ == (SubscriptionView {
                exchange,
                instrument,
                channel: channel@,
                market: market@,
                segment,
                kind,
            }),
    {
        Subscription { exchange, instrument, channel, market, segment, kind }
    }

    /// The channel and the market to ask the exchange for.
    pub fn exchange_sub(&self) -> (sub: ExchangeSub)
        ensures
            sub@ == self@.exchange_sub(),
    {
        ExchangeSub::new(self.channel.as_str(), self.market.as_str())
    }

    /// The identifier under which the exchange answers this subscription.
    pub fn id(&self) -> (id: SubscriptionId)
        ensures
            subscription_id_text(id) == self@.identity(),
    {
        self.exchange_sub().id()
    }

    /// Holds the subscription against the capability matrix of its exchange.
    /// Nothing is sent or built on the way.
    pub fn validate(&self) -> (checked: Result<(), ConfigError>)
        ensures
            checked.is_ok() <==> self@.supported(),
            checked.is_err() ==> checked == Err::<(), ConfigError>(self@.refusal()),
    {
        let segment_served = match self.segment {
            MarketSegment::Spot => self.exchange.supports_spot(),
            MarketSegment::Futures => self.exchange.supports_futures(),
        };
        if !segment_served {
            return Err(ConfigError::UnsupportedSegment(self.exchange, self.segment));
        }
        let kind_served = match self.kind {
            DataKind::Trades => self.exchange.supports_trades(),
            DataKind::Candles => true,
            DataKind::Liquidations => self.exchange.supports_liquidations(),
        };
        if !kind_served {
            return Err(ConfigError::UnsupportedKind(self.exchange, self.kind));
        }
        Ok(())
    }
}

} // verus!
