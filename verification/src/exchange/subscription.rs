//! A subscription as one exchange names it, and the identifier under which
//! its acknowledgement and its data come back.

use crate::integration::subscription_id_from;
use crate::integration::subscription_id_text;
use barter_integration::model::SubscriptionId;
use vstd::prelude::*;
use vstd::string::StringExecFns;

verus! {

/// The identifier of the stream that `channel` and `market` name: the channel,
/// directly followed by the market.
pub open spec fn identity_text(channel: Seq<char>, market: Seq<char>) -> Seq<char> {
    channel + market
}

/// A channel and a market, each in the spelling of the exchange.
#[derive(Clone, Eq, PartialEq, Debug)]
pub struct ExchangeSub {
    pub channel: String,
    pub market: String,
}

/// What an [`ExchangeSub`] is, with its strings as sequences of characters.
pub struct ExchangeSubView {
    pub channel: Seq<char>,
    pub market: Seq<char>,
}

impl View for ExchangeSub {
    type V = ExchangeSubView;

    open spec fn view(&self) -> ExchangeSubView {
        ExchangeSubView { channel: self.channel@, market: self.market@ }
    }
}

/// The views of a list of exchange subscriptions, in their order.
pub open spec fn exchange_sub_views(exchange_subs: Seq<ExchangeSub>) -> Seq<ExchangeSubView> {
    exchange_subs.map_values(|sub: ExchangeSub| sub@)
}

impl ExchangeSub {
    /// Pairs a channel with a market.
    pub fn new(channel: &str, market: &str) -> (sub: ExchangeSub)
        ensures
            sub@ == (ExchangeSubView { channel: channel@, market: market@ }),
    {
        ExchangeSub { channel: String::from_str(channel), market: String::from_str(market) }
    }

    /// The identifier that messages of this stream are recognised by.
    pub fn id(&self) -> (id: SubscriptionId)
        ensures
            subscription_id_text(id) == identity_text(self.channel@, self.market@),
    {
        let mut text = String::from_str(self.channel.as_str());
        text.append(self.market.as_str());
        subscription_id_from(text)
    }
}

/// Two streams with the same channel and the same market have the same
/// identifier, and the identifier begins with the channel.
pub proof fn identity_is_determined(a: ExchangeSub, b: ExchangeSub)
    requires
        a.channel@ == b.channel@,
        a.market@ == b.market@,
    ensures
        identity_text(a.channel@, a.market@) == identity_text(b.channel@, b.market@),
        a.channel@.is_prefix_of(identity_text(a.channel@, a.market@)),
{
}

/// Under one channel, different markets never share an identifier.
pub proof fn identity_tells_markets_apart(channel: Seq<char>, first: Seq<char>, second: Seq<char>)
    requires
        identity_text(channel, first) == identity_text(channel, second),
    ensures
        first == second,
{
    let a = identity_text(channel, first);
    let b = identity_text(channel, second);
    assert(a.len() == channel.len() + first.len());
    assert(b.len() == channel.len() + second.len());
    assert forall|i: int| 0 <= i < first.len() implies first[i] == second[i] by {
        assert(a[channel.len() + i] == first[i]);
        assert(b[channel.len() + i] == second[i]);
    }
    assert(first =~= second);
}

} // verus!
