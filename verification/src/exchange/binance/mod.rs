//! Binance: what its spot and futures servers have in common.

use crate::exchange::subscription::exchange_sub_views;
use crate::exchange::subscription::ExchangeSub;
use crate::exchange::subscription::ExchangeSubView;
use crate::exchange::Connector;
use crate::exchange::ExchangeId;
use crate::exchange::ServerSelector;
use crate::exchange::ws_texts;
use crate::integration::ws_text;
use crate::integration::ws_text_message;
use crate::wire::json_string;
use crate::wire::json_string_text;
use crate::wire::lowercase;
use crate::wire::decimal_text;
use crate::wire::lowercased;
use crate::wire::number_text;
use barter_integration::protocol::websocket::WsMessage;
use std::marker::PhantomData;
use vstd::prelude::*;
use vstd::string::StringExecFns;

pub mod channel;
pub mod futures;
pub mod subscription;

verus! {

/// The connector of one Binance server.
#[derive(Debug)]
pub struct Binance<Server> {
    pub server: PhantomData<Server>,
}

impl<Server> Clone for Binance<Server> {
    fn clone(&self) -> (copy: Self)
        ensures
            copy == *self,
    {
        Binance { server: PhantomData }
    }
}

/// The name of the stream of `sub`: the market in lower case, then the
/// channel.
pub open spec fn stream_name(sub: ExchangeSubView) -> Seq<char> {
    lowercased(sub.market) + sub.channel
}

/// The request that subscribes to the stream `name`, as the request with
/// the number `request_id`.
pub open spec fn subscribe_text(request_id: nat, name: Seq<char>) -> Seq<char> {
    "{\"id\":"@ + decimal_text(request_id) + ",\"method\":\"SUBSCRIBE\",\"params\":["@
        + json_string_text(name) + "]}"@
}

impl<Server: ServerSelector + core::fmt::Debug> Connector for Binance<Server> {
    const ID: ExchangeId = Server::ID;

    /// Binance is asked for each stream in a request of its own, so that
    /// its answers, which repeat the number of the request and nothing else,
    /// can be told apart. The requests are numbered from one, in the order
    /// of the streams.
    open spec fn request_texts(exchange_subs: Seq<ExchangeSubView>) -> Seq<Seq<char>> {
        Seq::new(
            exchange_subs.len(),
            |i: int| subscribe_text((i + 1) as nat, stream_name(exchange_subs[i])),
        )
    }

    open spec fn endpoint() -> Seq<char> {
        Server::endpoint()
    }

    fn base_url() -> (url: &'static str) {
        Server::base_url()
    }

    fn requests(exchange_subs: Vec<ExchangeSub>) -> (requests: Vec<WsMessage>) {
        let ghost asked = exchange_sub_views(exchange_subs@);
        let mut requests: Vec<WsMessage> = Vec::new();
        let mut i: usize = 0;
        while i < exchange_subs.len()
            invariant
                i <= exchange_subs.len(),
                asked == exchange_sub_views(exchange_subs@),
                requests@.len() == i,
                forall|k: int|
                    0 <= k < i ==> ws_text(#[trigger] requests@[k]) == Some(
                        subscribe_text((k + 1) as nat, stream_name(asked[k])),
                    ),
            decreases exchange_subs.len() - i,
        {
            let mut name = lowercase(exchange_subs[i].market.as_str());
            name.append(exchange_subs[i].channel.as_str());
            assert(name@ == stream_name(asked[i as int]));
            let mut payload = String::from_str("{\"id\":");
            payload.append(number_text((i + 1) as u64).as_str());
            payload.append(",\"method\":\"SUBSCRIBE\",\"params\":[");
            payload.append(json_string(name).as_str());
            payload.append("]}");
            requests.push(ws_text_message(payload));
            i += 1;
        }
        assert(ws_texts(requests@) =~= Self::request_texts(asked).map_values(
            |text: Seq<char>| Some(text),
        ));
        requests
    }
}

} // verus!
