//! The channels of Binance that this library subscribes to.

use vstd::prelude::*;

verus! {

/// The name of a Binance channel, as it stands in a stream name.
#[derive(Copy, Clone, Debug)]
pub struct BinanceChannel(pub &'static str);

impl BinanceChannel {
    /// The name of the channel of klines, that is of candles.
    pub open spec fn candles_text() -> Seq<char> {
        "@klines"@
    }

    /// The channel of klines, that is of candles.
    pub fn candles() -> (channel: BinanceChannel)
        ensures
            channel.0@ == Self::candles_text(),
    {
        BinanceChannel("@klines")
    }

    /// The channel's name.
    pub fn as_str(&self) -> (name: &'static str)
        ensures
            name@ == self.0@,
    {
        self.0
    }
}

} // verus!
