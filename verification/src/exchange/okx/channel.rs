//! The channels of Okx that this library subscribes to.

use vstd::prelude::*;

verus! {

/// The name of an Okx channel, as it stands in a subscription.
#[derive(Copy, Clone, Debug)]
pub struct OkxChannel(pub &'static str);

impl OkxChannel {
    /// The name of the channel of trades, of spot markets and of swaps alike.
    pub open spec fn trades_text() -> Seq<char> {
        "trades"@
    }

    /// The channel of trades.
    pub fn trades() -> (channel: OkxChannel)
        ensures
            channel.0@ == Self::trades_text(),
    {
        OkxChannel("trades")
    }

    /// The channel's name.
    pub fn as_str(&self) -> (name: &'static str)
        ensures
            name@ == self.0@,
    {
        self.0
    }
}

} // verus!
