//! Binance USD-margined futures.

use crate::exchange::binance::Binance;
use crate::exchange::Connector;
use crate::exchange::ExchangeId;
use crate::exchange::ServerSelector;
use vstd::prelude::*;

pub mod candle;

verus! {

/// The connector of Binance USD-margined futures.
pub type BinanceFuturesUsd = Binance<BinanceServerFuturesUsd>;

/// The server of Binance USD-margined futures.
#[derive(Copy, Clone, Debug)]
pub struct BinanceServerFuturesUsd;

impl ServerSelector for BinanceServerFuturesUsd {
    const ID: ExchangeId = ExchangeId::BinanceFuturesUsd;

    open spec fn endpoint() -> Seq<char> {
        "wss://fstream.binance.com/ws"@
    }

    fn base_url() -> (url: &'static str) {
        "wss://fstream.binance.com/ws"
    }
}

/// The connector of Binance futures is the connector of the exchange that
/// the capability matrix grants futures and liquidations to, and it offers
/// a channel of futures data.
pub proof fn connector_backs_the_capability()
    ensures
        <BinanceFuturesUsd as Connector>::ID == ExchangeId::BinanceFuturesUsd,
        <BinanceFuturesUsd as Connector>::ID.futures(),
        <BinanceFuturesUsd as Connector>::ID.liquidations(),
        <BinanceFuturesUsd as Connector>::ID.futures_feeds().len() > 0,
{
}

} // verus!
