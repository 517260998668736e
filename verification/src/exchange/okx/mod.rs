//! Okx: one server for spot markets and for swaps.

use crate::exchange::subscription::exchange_sub_views;
use crate::exchange::subscription::ExchangeSub;
use crate::exchange::subscription::ExchangeSubView;
use crate::exchange::ws_texts;
use crate::exchange::Connector;
use crate::exchange::ExchangeId;
use crate::exchange::PingInterval;
use crate::integration::duration_nanos;
use crate::integration::ws_text;
use crate::integration::ws_text_message;
use crate::wire::json_string;
use crate::wire::json_string_text;
use barter_integration::protocol::websocket::WsMessage;
use std::time::Duration;
use vstd::prelude::*;
use vstd::string::StringExecFns;

pub mod channel;
pub mod subscription;
pub mod trade;

verus! {

/// The connector of Okx.
#[derive(Copy, Clone, Debug)]
pub struct Okx;

/// One stream in a subscription request: its channel and its instrument.
pub open spec fn arg_text(sub: ExchangeSubView) -> Seq<char> {
    "{\"channel\":"@ + json_string_text(sub.channel) + ",\"instId\":"@ + json_string_text(
        sub.market,
    ) + "}"@
}

/// The streams of a subscription request, with a comma between each two.
pub open spec fn args_text(exchange_subs: Seq<ExchangeSubView>) -> Seq<char>
    decreases exchange_subs.len(),
{
    if exchange_subs.len() == 0 {
        Seq::empty()
    } else if exchange_subs.len() == 1 {
        arg_text(exchange_subs[0])
    } else {
        args_text(exchange_subs.drop_last()) + ","@ + arg_text(exchange_subs.last())
    }
}

/// The one request that subscribes to all of `exchange_subs`.
pub open spec fn subscribe_text(exchange_subs: Seq<ExchangeSubView>) -> Seq<char> {
    "{\"op\":\"subscribe\",\"args\":["@ + args_text(exchange_subs) + "]}"@
}

impl Connector for Okx {
    const ID: ExchangeId = ExchangeId::Okx;

    open spec fn endpoint() -> Seq<char> {
        "wss://wsaws.okx.com:8443/ws/v5/public"@
    }

    /// Okx takes every stream in one request, and answers each stream in a
    /// message of its own. There is no request where there is no stream.
    open spec fn request_texts(exchange_subs: Seq<ExchangeSubView>) -> Seq<Seq<char>> {
        if exchange_subs.len() == 0 {
            Seq::empty()
        } else {
            seq![subscribe_text(exchange_subs)]
        }
    }

    /// Okx closes a connection that is silent for thirty seconds.
    open spec fn pings() -> bool {
        true
    }

    fn base_url() -> (url: &'static str) {
        "wss://wsaws.okx.com:8443/ws/v5/public"
    }

    /// The text `ping`, every 29 seconds.
    fn ping_interval() -> (ping: Option<PingInterval>)
        ensures
            ping matches Some(recipe) && duration_nanos(recipe.interval) == 29_000_000_000nat
                && ws_text(recipe.ping) == Some("ping"@),
    {
        Some(
            PingInterval {
                interval: Duration::from_secs(29),
                ping: ws_text_message(String::from_str("ping")),
            },
        )
    }

    fn requests(exchange_subs: Vec<ExchangeSub>) -> (requests: Vec<WsMessage>) {
        let ghost asked = exchange_sub_views(exchange_subs@);
        let mut requests: Vec<WsMessage> = Vec::new();
        if exchange_subs.len() == 0 {
            assert(ws_texts(requests@) =~= Self::request_texts(asked).map_values(
                |text: Seq<char>| Some(text),
            ));
            return requests;
        }
        let mut payload = String::from_str("{\"op\":\"subscribe\",\"args\":[");
        let mut i: usize = 0;
        while i < exchange_subs.len()
            invariant
                i <= exchange_subs.len(),
                asked == exchange_sub_views(exchange_subs@),
                payload@ == "{\"op\":\"subscribe\",\"args\":["@ + args_text(asked.take(i as int)),
            decreases exchange_subs.len() - i,
        {
            let ghost before = payload@;
            if i > 0 {
                payload.append(",");
            }
            payload.append("{\"channel\":");
            payload.append(json_string(exchange_subs[i].channel.clone()).as_str());
            payload.append(",\"instId\":");
            payload.append(json_string(exchange_subs[i].market.clone()).as_str());
            payload.append("}");
            proof {
                let earlier = asked.take(i as int);
                let now = asked.take(i + 1);
                assert(now.drop_last() =~= earlier);
                assert(now.last() == asked[i as int]);
                assert(asked[i as int] == exchange_subs@[i as int]@);
                reveal_strlit(",");
                if i == 0 {
                    assert(args_text(earlier) =~= Seq::<char>::empty());
                    assert(now[0] == asked[0]);
                }
                assert(payload@ =~= "{\"op\":\"subscribe\",\"args\":["@ + args_text(now));
            }
            i += 1;
        }
        assert(asked.take(i as int) =~= asked);
        payload.append("]}");
        requests.push(ws_text_message(payload));
        assert(ws_texts(requests@) =~= Self::request_texts(asked).map_values(
            |text: Seq<char>| Some(text),
        ));
        requests
    }
}

/// The connector of Okx is the connector of an exchange that the capability
/// matrix grants futures to, and it offers a channel of futures data.
pub proof fn connector_backs_the_capability()
    ensures
        <Okx as Connector>::ID == ExchangeId::Okx,
        <Okx as Connector>::ID.futures(),
        <Okx as Connector>::ID.futures_feeds().len() > 0,
{
}

} // verus!
