//! When a handshake is complete, and how it fails.

use crate::integration::subscription_id_text;
use crate::subscriber::subscription::acknowledged;
use crate::subscriber::subscription::distinct_ids;
use crate::subscriber::subscription::entry_views;
use crate::subscriber::subscription::EntryView;
use crate::subscriber::subscription::OutcomeView;
use crate::subscriber::subscription::StateView;
use crate::subscriber::subscription::SubscriptionMap;
use barter_integration::model::SubscriptionId;
use vstd::prelude::*;

verus! {

/// Why the handshake of a connection failed.
#[derive(Clone, PartialEq, Debug)]
pub enum HandshakeError {
    /// Time ran out. The identifiers are those of the subscriptions that the
    /// exchange had not answered by then, in the order of the map.
    Timeout(Vec<SubscriptionId>),
    /// Every subscription was answered, and the exchange turned down those
    /// under these identifiers, in the order of the map.
    Rejected(Vec<SubscriptionId>),
}

/// The texts of a list of identifiers.
pub open spec fn id_texts(ids: Seq<SubscriptionId>) -> Seq<Seq<char>> {
    ids.map_values(|id: SubscriptionId| subscription_id_text(id))
}

/// The entries that the exchange has not answered.
pub open spec fn pending_entries(entries: Seq<EntryView>) -> Seq<EntryView> {
    entries.filter(|entry: EntryView| entry.state is Pending)
}

/// The entries that the exchange has turned down.
pub open spec fn failed_entries(entries: Seq<EntryView>) -> Seq<EntryView> {
    entries.filter(|entry: EntryView| entry.state is Failed)
}

/// The identifiers of `entries`, in their order.
pub open spec fn ids_of(entries: Seq<EntryView>) -> Seq<Seq<char>> {
    entries.map_values(|entry: EntryView| entry.id)
}

/// How many entries the exchange has answered, one way or the other.
pub open spec fn resolved_count(entries: Seq<EntryView>) -> nat {
    (entries.len() - pending_entries(entries).len()) as nat
}

/// Whether the exchange has accepted every entry.
pub open spec fn all_confirmed(entries: Seq<EntryView>) -> bool {
    forall|i: int| 0 <= i < entries.len() ==> (#[trigger] entries[i]).state is Confirmed
}

/// Whether the connection counts as subscribed: as many entries are answered
/// as answers were expected, and each of them was accepted.
pub open spec fn subscribed(entries: Seq<EntryView>, expected: nat) -> bool {
    resolved_count(entries) == expected && all_confirmed(entries)
}

/// Where a handshake stands.
pub enum Verdict {
    /// Complete: the connection is subscribed.
    Subscribed,
    /// Neither complete nor failed: answers are still awaited.
    Waiting,
    /// Failed for want of answers; the identifiers are those never answered.
    TimedOut(Seq<Seq<char>>),
    /// Failed by the exchange; the identifiers are those turned down.
    Rejected(Seq<Seq<char>>),
}

/// Where the handshake over `entries` stands when `expected` answers are
/// awaited and the time allowed has run out or not.
///
/// It is complete once the connection counts as subscribed. It is rejected
/// once every entry is answered, no fewer answers than expected have come
/// in, and some entry was turned down. Failing both, it has timed out if the
/// time has run out, and is still under way if not.
pub open spec fn verdict(entries: Seq<EntryView>, expected: nat, timed_out: bool) -> Verdict {
    if subscribed(entries, expected) {
        Verdict::Subscribed
    } else if resolved_count(entries) >= expected && pending_entries(entries).len() == 0
        && failed_entries(entries).len() > 0 {
        Verdict::Rejected(ids_of(failed_entries(entries)))
    } else if timed_out {
        Verdict::TimedOut(ids_of(pending_entries(entries)))
    } else {
        Verdict::Waiting
    }
}

/// What one more entry adds to the pending and to the failed entries.
proof fn filters_step(entries: Seq<EntryView>, count: int)
    requires
        0 <= count < entries.len(),
    ensures
        pending_entries(entries.take(count + 1)) == if entries[count].state is Pending {
            pending_entries(entries.take(count)).push(entries[count])
        } else {
            pending_entries(entries.take(count))
        },
        failed_entries(entries.take(count + 1)) == if entries[count].state is Failed {
            failed_entries(entries.take(count)).push(entries[count])
        } else {
            failed_entries(entries.take(count))
        },
{
    assert(entries.take(count + 1) =~= entries.take(count).push(entries[count]));
    entries.take(count).lemma_filter_push(entries[count], |entry: EntryView| entry.state is Pending);
    entries.take(count).lemma_filter_push(entries[count], |entry: EntryView| entry.state is Failed);
}

/// Whether the exchange has answered none of the entries.
pub open spec fn all_pending(entries: Seq<EntryView>) -> bool {
    forall|i: int| 0 <= i < entries.len() ==> (#[trigger] entries[i]).state is Pending
}

/// The entries after the exchange accepted the subscriptions under `ids`, one
/// acknowledgement after the other.
pub open spec fn accepted_in_turn(entries: Seq<EntryView>, ids: Seq<Seq<char>>) -> Seq<EntryView>
    decreases ids.len(),
{
    if ids.len() == 0 {
        entries
    } else {
        acknowledged(accepted_in_turn(entries, ids.drop_last()), ids.last(), OutcomeView::Accepted)
    }
}

/// Where the first `answered` entries are answered and the others are not,
/// as many entries are pending as come after the first `answered`.
proof fn pending_behind_a_prefix(entries: Seq<EntryView>, answered: int)
    requires
        0 <= answered <= entries.len(),
        forall|i: int| 0 <= i < answered ==> !((#[trigger] entries[i]).state is Pending),
        forall|i: int| answered <= i < entries.len() ==> (#[trigger] entries[i]).state is Pending,
    ensures
        pending_entries(entries).len() == entries.len() - answered,
    decreases entries.len(),
{
    reveal(Seq::filter);
    if entries.len() > 0 {
        let rest = entries.drop_last();
        if answered == entries.len() {
            pending_behind_a_prefix(rest, answered - 1);
        } else {
            pending_behind_a_prefix(rest, answered);
        }
    }
}

/// A handshake that goes well ends subscribed, and not before its last
/// acknowledgement. Let every entry be pending, and let the exchange accept
/// the subscriptions in the order of the map. After the first `count`
/// acknowledgements exactly the first `count` entries are confirmed and the
/// others are as they were; so the connection counts as subscribed, with one
/// answer awaited for each entry, when all of them have come in, and at no
/// point before.
pub proof fn accepting_every_entry_subscribes(entries: Seq<EntryView>, count: int)
    requires
        distinct_ids(entries),
        all_pending(entries),
        0 <= count <= entries.len(),
    ensures
        accepted_in_turn(entries, ids_of(entries).take(count)).len() == entries.len(),
        forall|i: int|
            0 <= i < count ==> (#[trigger] accepted_in_turn(
                entries,
                ids_of(entries).take(count),
            )[i]) == (EntryView { state: StateView::Confirmed, ..entries[i] }),
        forall|i: int|
            count <= i < entries.len() ==> (#[trigger] accepted_in_turn(
                entries,
                ids_of(entries).take(count),
            )[i]) == entries[i],
        resolved_count(accepted_in_turn(entries, ids_of(entries).take(count))) == count,
        subscribed(
            accepted_in_turn(entries, ids_of(entries).take(count)),
            entries.len() as nat,
        ) <==> count == entries.len(),
    decreases count,
{
    let ids = ids_of(entries).take(count);
    let after = accepted_in_turn(entries, ids);
    if count > 0 {
        accepting_every_entry_subscribes(entries, count - 1);
        assert(ids.drop_last() =~= ids_of(entries).take(count - 1));
        assert(ids.last() == entries[count - 1].id);
    }
    pending_behind_a_prefix(after, count);
    if count < entries.len() {
        assert(after[count].state is Pending);
    }
}

/// A handshake is complete only with every entry confirmed: whatever number
/// of answers is awaited, and whether time has run out or not, no entry is
/// pending or failed when the connection counts as subscribed, and as many
/// entries are in flight as answers were awaited.
pub proof fn complete_means_all_confirmed(entries: Seq<EntryView>, expected: nat, timed_out: bool)
    requires
        verdict(entries, expected, timed_out) == Verdict::Subscribed,
    ensures
        all_confirmed(entries),
        pending_entries(entries).len() == 0,
        failed_entries(entries).len() == 0,
        entries.len() == expected,
{
    let pending = |entry: EntryView| entry.state is Pending;
    let failed = |entry: EntryView| entry.state is Failed;
    if pending_entries(entries).len() > 0 {
        let kept = pending_entries(entries);
        entries.lemma_filter_pred(pending, 0);
        assert(kept.contains(kept[0]));
        entries.lemma_filter_contains_rev(pending, kept[0]);
        let i = choose|i: int| 0 <= i < entries.len() && entries[i] == kept[0];
        assert(entries[i].state is Confirmed);
    }
    if failed_entries(entries).len() > 0 {
        let kept = failed_entries(entries);
        entries.lemma_filter_pred(failed, 0);
        assert(kept.contains(kept[0]));
        entries.lemma_filter_contains_rev(failed, kept[0]);
        let i = choose|i: int| 0 <= i < entries.len() && entries[i] == kept[0];
        assert(entries[i].state is Confirmed);
    }
}

/// When time runs out with fewer answers in than were expected, the
/// handshake fails, and the identifiers it fails with are exactly those of
/// the entries still pending: each of them, none else, in the order of the map.
pub proof fn timeout_names_the_pending(entries: Seq<EntryView>, expected: nat)
    requires
        resolved_count(entries) < expected,
    ensures
        verdict(entries, expected, true) == Verdict::TimedOut(ids_of(pending_entries(entries))),
        forall|id: Seq<char>|
            ids_of(pending_entries(entries)).contains(id) <==> exists|i: int|
                0 <= i < entries.len() && (#[trigger] entries[i]).id == id
                    && entries[i].state is Pending,
{
    let pending = |entry: EntryView| entry.state is Pending;
    let kept = pending_entries(entries);
    assert forall|id: Seq<char>| ids_of(kept).contains(id) implies exists|i: int|
        0 <= i < entries.len() && (#[trigger] entries[i]).id == id
            && entries[i].state is Pending by {
        let k = choose|k: int| 0 <= k < ids_of(kept).len() && ids_of(kept)[k] == id;
        entries.lemma_filter_pred(pending, k);
        assert(kept.contains(kept[k]));
        entries.lemma_filter_contains_rev(pending, kept[k]);
        let i = choose|i: int| 0 <= i < entries.len() && entries[i] == kept[k];
        assert(entries[i].id == id);
    }
    assert forall|id: Seq<char>|
        (exists|i: int|
            0 <= i < entries.len() && (#[trigger] entries[i]).id == id
                && entries[i].state is Pending) implies ids_of(kept).contains(id) by {
        let i = choose|i: int|
            0 <= i < entries.len() && (#[trigger] entries[i]).id == id
                && entries[i].state is Pending;
        entries.lemma_filter_contains(pending, i);
        let k = choose|k: int| 0 <= k < kept.len() && kept[k] == entries[i];
        assert(ids_of(kept)[k] == id);
    }
}

/// The entries that the exchange has turned down, or those that it has not
/// answered.
pub open spec fn entries_in(entries: Seq<EntryView>, failed: bool) -> Seq<EntryView> {
    if failed {
        failed_entries(entries)
    } else {
        pending_entries(entries)
    }
}

/// The identifiers of the entries of `map` that are failed, or of those
/// that are pending, in the order of the map.
fn ids_in(map: &SubscriptionMap, failed: bool) -> (ids: Vec<SubscriptionId>)
    ensures
        id_texts(ids@) == ids_of(entries_in(map@, failed)),
{
    let entries = map.entries();
    let mut ids: Vec<SubscriptionId> = Vec::new();
    let mut i: usize = 0;
    assert(entries_in(map@.take(0), failed) =~= Seq::<EntryView>::empty()) by {
        reveal(Seq::filter);
    }
    while i < entries.len()
        invariant
            i <= entries.len(),
            entry_views(entries@) == map@,
            id_texts(ids@) =~= ids_of(entries_in(map@.take(i as int), failed)),
        decreases entries.len() - i,
    {
        let ghost listed = ids@;
        let ghost earlier = entries_in(map@.take(i as int), failed);
        proof {
            filters_step(map@, i as int);
            assert(map@[i as int] == entries@[i as int]@);
        }
        let wanted = if failed {
            entries[i].state.is_failed()
        } else {
            entries[i].state.is_pending()
        };
        if wanted {
            ids.push(entries[i].id.clone());
            assert(id_texts(ids@) =~= id_texts(listed).push(map@[i as int].id));
            assert(ids_of(earlier.push(map@[i as int])) =~= ids_of(earlier).push(
                map@[i as int].id,
            ));
        }
        i += 1;
    }
    assert(map@.take(i as int) =~= map@);
    ids
}

impl SubscriptionMap {
    /// The identifiers of the subscriptions that the exchange has not
    /// answered, in the order of the map.
    pub fn pending_ids(&self) -> (ids: Vec<SubscriptionId>)
        ensures
            id_texts(ids@) == ids_of(pending_entries(self@)),
    {
        ids_in(self, false)
    }

    /// The identifiers of the subscriptions that the exchange has turned
    /// down, in the order of the map.
    pub fn failed_ids(&self) -> (ids: Vec<SubscriptionId>)
        ensures
            id_texts(ids@) == ids_of(failed_entries(self@)),
    {
        ids_in(self, true)
    }

    /// How many subscriptions the exchange has answered.
    pub fn resolved(&self) -> (count: usize)
        ensures
            count == resolved_count(self@),
    {
        let entries = self.entries();
        let mut count: usize = 0;
        let mut i: usize = 0;
        assert(pending_entries(self@.take(0)) =~= Seq::<EntryView>::empty()) by {
            reveal(Seq::filter);
        }
        while i < entries.len()
            invariant
                i <= entries.len(),
                entry_views(entries@) == self@,
                count == i - pending_entries(self@.take(i as int)).len(),
                pending_entries(self@.take(i as int)).len() <= i,
            decreases entries.len() - i,
        {
            proof {
                filters_step(self@, i as int);
                assert(self@[i as int] == entries@[i as int]@);
            }
            if !entries[i].state.is_pending() {
                count += 1;
            }
            i += 1;
        }
        assert(self@.take(i as int) =~= self@);
        count
    }

    /// Whether the exchange has accepted every subscription.
    pub fn is_confirmed(&self) -> (confirmed: bool)
        ensures
            confirmed == all_confirmed(self@),
    {
        let entries = self.entries();
        let mut i: usize = 0;
        while i < entries.len()
            invariant
                i <= entries.len(),
                entry_views(entries@) == self@,
                forall|k: int| 0 <= k < i ==> (#[trigger] self@[k]).state is Confirmed,
            decreases entries.len() - i,
        {
            if !entries[i].state.is_confirmed() {
                assert(self@[i as int] == entries@[i as int]@);
                return false;
            }
            assert(self@[i as int] == entries@[i as int]@);
            i += 1;
        }
        true
    }

    /// Whether the connection counts as subscribed when `expected` answers
    /// are awaited.
    pub fn is_subscribed(&self, expected: usize) -> (done: bool)
        ensures
            done == subscribed(self@, expected as nat),
    {
        self.resolved() == expected && self.is_confirmed()
    }

    /// Where the handshake stands when `expected` answers are awaited, and
    /// the time allowed for them has run out (`timed_out`) or not. `Ok(true)`
    /// says that the connection is subscribed, `Ok(false)` that answers are
    /// still awaited; an error says how the handshake failed, and for which
    /// identifiers.
    pub fn handshake(&self, expected: usize, timed_out: bool) -> (status: Result<
        bool,
        HandshakeError,
    >)
        ensures
            match status {
                Ok(true) => verdict(self@, expected as nat, timed_out) == Verdict::Subscribed,
                Ok(false) => verdict(self@, expected as nat, timed_out) == Verdict::Waiting,
                Err(HandshakeError::Timeout(ids)) => verdict(self@, expected as nat, timed_out)
                    == Verdict::TimedOut(id_texts(ids@)),
                Err(HandshakeError::Rejected(ids)) => verdict(self@, expected as nat, timed_out)
                    == Verdict::Rejected(id_texts(ids@)),
            },
    {
        if self.is_subscribed(expected) {
            return Ok(true);
        }
        let answered = self.resolved();
        let pending = self.pending_ids();
        let failed = self.failed_ids();
        assert(pending@.len() == id_texts(pending@).len());
        assert(failed@.len() == id_texts(failed@).len());
        if answered >= expected && pending.len() == 0 && failed.len() > 0 {
            Err(HandshakeError::Rejected(failed))
        } else if timed_out {
            Err(HandshakeError::Timeout(pending))
        } else {
            Ok(false)
        }
    }
}

} // verus!
