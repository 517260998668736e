//! From the subscriptions that a caller wants to what is sent for them and
//! what is then awaited.

use crate::exchange::subscription::exchange_sub_views;
use crate::exchange::subscription::ExchangeSub;
use crate::exchange::subscription::ExchangeSubView;
use crate::exchange::ws_texts;
use crate::exchange::Connector;
use crate::subscriber::subscription::distinct_ids;
use crate::subscriber::subscription::entry_views;
use crate::subscriber::subscription::holds_id;
use crate::subscriber::subscription::with_entry;
use crate::subscriber::subscription::EntryView;
use crate::subscriber::subscription::StateView;
use crate::subscriber::subscription::SubscriptionMap;
use crate::subscriber::validator::accepted_in_turn;
use crate::subscriber::validator::accepting_every_entry_subscribes;
use crate::subscriber::validator::all_confirmed;
use crate::subscriber::validator::all_pending;
use crate::subscriber::validator::ids_of;
use crate::subscriber::validator::subscribed;
use crate::subscription::subscription_views;
use crate::subscription::ConfigError;
use crate::subscription::Subscription;
use crate::subscription::SubscriptionView;
use barter_integration::protocol::websocket::WsMessage;
use vstd::prelude::*;

verus! {

/// What a handshake starts from: the subscriptions in flight, and the
/// requests to send for them.
#[derive(Debug)]
pub struct SubscriptionMeta {
    pub map: SubscriptionMap,
    pub requests: Vec<WsMessage>,
}

/// The entry that a subscription is put in flight with.
pub open spec fn entry_for(subscription: SubscriptionView) -> EntryView {
    EntryView { id: subscription.identity(), subscription, state: StateView::Pending }
}

/// The entries in flight once `subscriptions` were put in, one after the
/// other: where two have the same identifier, the later one stands in the
/// place of the earlier.
pub open spec fn mapped(subscriptions: Seq<SubscriptionView>) -> Seq<EntryView>
    decreases subscriptions.len(),
{
    if subscriptions.len() == 0 {
        Seq::empty()
    } else {
        with_entry(mapped(subscriptions.drop_last()), entry_for(subscriptions.last()))
    }
}

/// What the exchange is asked for: the channel and the market of each
/// entry in flight, in the order of the map.
pub open spec fn asked_for(entries: Seq<EntryView>) -> Seq<ExchangeSubView> {
    entries.map_values(|entry: EntryView| entry.subscription.exchange_sub())
}

/// Whether the capability matrix allows each of `subscriptions`.
pub open spec fn all_supported(subscriptions: Seq<SubscriptionView>) -> bool {
    forall|i: int| 0 <= i < subscriptions.len() ==> (#[trigger] subscriptions[i]).supported()
}

/// Whether `place` is where the first of `subscriptions` stands that the
/// capability matrix does not allow.
pub open spec fn first_refused(subscriptions: Seq<SubscriptionView>, place: int) -> bool {
    &&& 0 <= place < subscriptions.len()
    &&& !subscriptions[place].supported()
    &&& forall|i: int| 0 <= i < place ==> (#[trigger] subscriptions[i]).supported()
}

/// Whatever is put in flight, every entry is pending, no identifier stands
/// twice, and every subscription is found under its identifier.
pub proof fn mapped_is_fresh(subscriptions: Seq<SubscriptionView>)
    ensures
        all_pending(mapped(subscriptions)),
        distinct_ids(mapped(subscriptions)),
        mapped(subscriptions).len() <= subscriptions.len(),
        forall|i: int|
            0 <= i < subscriptions.len() ==> holds_id(
                mapped(subscriptions),
                (#[trigger] subscriptions[i]).identity(),
            ),
    decreases subscriptions.len(),
{
    if subscriptions.len() > 0 {
        let earlier = subscriptions.drop_last();
        let entry = entry_for(subscriptions.last());
        let before = mapped(earlier);
        let after = mapped(subscriptions);
        mapped_is_fresh(earlier);
        if holds_id(before, entry.id) {
            let at = choose|k: int| 0 <= k < before.len() && #[trigger] before[k].id == entry.id;
            assert(after[at].id == entry.id);
            assert forall|i: int| 0 <= i < earlier.len() implies holds_id(
                after,
                (#[trigger] subscriptions[i]).identity(),
            ) by {
                let id = earlier[i].identity();
                let k = choose|k: int| 0 <= k < before.len() && #[trigger] before[k].id == id;
                assert(after[k].id == id);
            }
        } else {
            assert(after[before.len() as int].id == entry.id);
            assert forall|i: int| 0 <= i < earlier.len() implies holds_id(
                after,
                (#[trigger] subscriptions[i]).identity(),
            ) by {
                let id = earlier[i].identity();
                let k = choose|k: int| 0 <= k < before.len() && #[trigger] before[k].id == id;
                assert(after[k].id == id);
            }
        }
    }
}

/// Whatever subscriptions are put in flight: when the exchange accepts them
/// in the order of the map, and one answer is awaited for each entry, the
/// connection counts as subscribed after the last answer, with every entry
/// confirmed, and after no answer before it.
pub proof fn accepted_subscriptions_subscribe(subscriptions: Seq<SubscriptionView>, answers: int)
    requires
        0 <= answers <= mapped(subscriptions).len(),
    ensures
        subscribed(
            accepted_in_turn(mapped(subscriptions), ids_of(mapped(subscriptions)).take(answers)),
            mapped(subscriptions).len(),
        ) <==> answers == mapped(subscriptions).len(),
        answers == mapped(subscriptions).len() ==> all_confirmed(
            accepted_in_turn(mapped(subscriptions), ids_of(mapped(subscriptions)).take(answers)),
        ),
{
    mapped_is_fresh(subscriptions);
    accepting_every_entry_subscribes(mapped(subscriptions), answers);
}

/// Makes ready what the connector `C` sends for `subscriptions`. Each
/// subscription is first held against the capability matrix: where one is
/// not allowed, the first such one decides the error, and nothing is put in
/// flight and no request is made. Where all are allowed, each is put in
/// flight under its identifier, not answered yet, and the requests are those
/// of the connector for what is then in flight, in the order of the map: a
/// stream that is wanted twice is asked for once.
pub fn map_subscriptions<C: Connector>(subscriptions: Vec<Subscription>) -> (meta: Result<
    SubscriptionMeta,
    ConfigError,
>)
    ensures
        match meta {
            Ok(meta) => {
                &&& all_supported(subscription_views(subscriptions@))
                &&& meta.map@ == mapped(subscription_views(subscriptions@))
                &&& ws_texts(meta.requests@) == C::request_texts(
                    asked_for(mapped(subscription_views(subscriptions@))),
                ).map_values(|text: Seq<char>| Some(text))
            },
            Err(refusal) => exists|place: int|
                first_refused(subscription_views(subscriptions@), place) && refusal
                    == subscription_views(subscriptions@)[place].refusal(),
        },
{
    let ghost wanted = subscription_views(subscriptions@);
    let mut i: usize = 0;
    while i < subscriptions.len()
        invariant
            i <= subscriptions.len(),
            wanted == subscription_views(subscriptions@),
            forall|k: int| 0 <= k < i ==> (#[trigger] wanted[k]).supported(),
        decreases subscriptions.len() - i,
    {
        match subscriptions[i].validate() {
            Ok(()) => {},
            Err(refusal) => {
                assert(first_refused(wanted, i as int));
                return Err(refusal);
            },
        }
        i += 1;
    }
    let mut subscriptions = subscriptions;
    let mut map = SubscriptionMap::new();
    let mut done: usize = 0;
    let count = subscriptions.len();
    assert(wanted.take(0) =~= Seq::<SubscriptionView>::empty());
    while subscriptions.len() > 0
        invariant
            done + subscriptions.len() == count,
            count == wanted.len(),
            subscription_views(subscriptions@) =~= wanted.skip(done as int),
            map@ == mapped(wanted.take(done as int)),
        decreases subscriptions.len(),
    {
        let ghost rest = subscriptions@;
        let subscription = subscriptions.remove(0);
        assert(subscription@ == wanted[done as int]) by {
            assert(subscription_views(rest)[0] == rest[0]@);
        }
        assert(subscription_views(subscriptions@) =~= wanted.skip(done + 1)) by {
            assert forall|k: int| 0 <= k < subscriptions@.len() implies subscription_views(
                subscriptions@,
            )[k] == wanted.skip(done + 1)[k] by {
                assert(subscription_views(rest)[k + 1] == rest[k + 1]@);
            }
        }
        assert(wanted.take(done + 1).drop_last() =~= wanted.take(done as int));
        let id = subscription.id();
        map.insert(id, subscription);
        done += 1;
    }
    assert(wanted.take(done as int) =~= wanted);
    let entries = map.entries();
    let mut exchange_subs: Vec<ExchangeSub> = Vec::new();
    let mut k: usize = 0;
    while k < entries.len()
        invariant
            k <= entries.len(),
            entry_views(entries@) == map@,
            exchange_sub_views(exchange_subs@) =~= asked_for(map@.take(k as int)),
        decreases entries.len() - k,
    {
        let ghost asked = exchange_subs@;
        exchange_subs.push(entries[k].subscription.exchange_sub());
        assert(map@[k as int] == entries@[k as int]@);
        assert(exchange_sub_views(exchange_subs@) =~= exchange_sub_views(asked).push(
            map@[k as int].subscription.exchange_sub(),
        ));
        assert(map@.take(k + 1) =~= map@.take(k as int).push(map@[k as int]));
        k += 1;
    }
    assert(map@.take(k as int) =~= map@);
    let requests = C::requests(exchange_subs);
    Ok(SubscriptionMeta { map, requests })
}

} // verus!
