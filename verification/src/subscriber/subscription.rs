//! The subscriptions in flight on one connection, each under its identifier.

use crate::integration::subscription_id_eq;
use crate::integration::subscription_id_text;
use crate::subscription::Subscription;
use crate::subscription::SubscriptionView;
use barter_integration::model::SubscriptionId;
use vstd::prelude::*;

verus! {

/// How far the exchange has answered one subscription.
#[derive(Clone, PartialEq, Debug)]
pub enum SubscriptionState {
    /// Sent, and not answered yet.
    Pending,
    /// Accepted by the exchange.
    Confirmed,
    /// Turned down by the exchange, with the reason it gave.
    Failed(String),
}

/// A [`SubscriptionState`] with its reason as a sequence of characters.
pub enum StateView {
    Pending,
    Confirmed,
    Failed(Seq<char>),
}

impl View for SubscriptionState {
    type V = StateView;

    open spec fn view(&self) -> StateView {
        match self {
            SubscriptionState::Pending => StateView::Pending,
            SubscriptionState::Confirmed => StateView::Confirmed,
            SubscriptionState::Failed(reason) => StateView::Failed(reason@),
        }
    }
}

impl SubscriptionState {
    /// A copy of this state, the reason included.
    pub fn duplicate(&self) -> (copy: SubscriptionState)
        ensures
            copy@ == self@,
    {
        match self {
            SubscriptionState::Pending => SubscriptionState::Pending,
            SubscriptionState::Confirmed => SubscriptionState::Confirmed,
            SubscriptionState::Failed(reason) => SubscriptionState::Failed(reason.clone()),
        }
    }

    /// Whether the exchange has not answered yet.
    pub fn is_pending(&self) -> (pending: bool)
        ensures
            pending == (self@ is Pending),
    {
        match self {
            SubscriptionState::Pending => true,
            _ => false,
        }
    }

    /// Whether the exchange has accepted.
    pub fn is_confirmed(&self) -> (confirmed: bool)
        ensures
            confirmed == (self@ is Confirmed),
    {
        match self {
            SubscriptionState::Confirmed => true,
            _ => false,
        }
    }

    /// Whether the exchange has turned the subscription down.
    pub fn is_failed(&self) -> (failed: bool)
        ensures
            failed == (self@ is Failed),
    {
        match self {
            SubscriptionState::Failed(_) => true,
            _ => false,
        }
    }
}

/// One subscription in flight.
#[derive(Clone, PartialEq, Debug)]
pub struct SubscriptionEntry {
    pub id: SubscriptionId,
    pub subscription: Subscription,
    pub state: SubscriptionState,
}

/// What a [`SubscriptionEntry`] is: identifier, subscription and state as
/// mathematical values.
pub struct EntryView {
    pub id: Seq<char>,
    pub subscription: SubscriptionView,
    pub state: StateView,
}

impl View for SubscriptionEntry {
    type V = EntryView;

    open spec fn view(&self) -> EntryView {
        EntryView {
            id: subscription_id_text(self.id),
            subscription: self.subscription@,
            state: self.state@,
        }
    }
}

/// The views of a list of entries, in their order.
pub open spec fn entry_views(entries: Seq<SubscriptionEntry>) -> Seq<EntryView> {
    entries.map_values(|entry: SubscriptionEntry| entry@)
}

/// Whether some entry stands under `id`.
pub open spec fn holds_id(entries: Seq<EntryView>, id: Seq<char>) -> bool {
    exists|i: int| 0 <= i < entries.len() && #[trigger] entries[i].id == id
}

/// Whether no identifier stands twice.
pub open spec fn distinct_ids(entries: Seq<EntryView>) -> bool {
    forall|i: int, j: int|
        0 <= i < j < entries.len() ==> #[trigger] entries[i].id != #[trigger] entries[j].id
}

/// The entries after `entry` was put in: it takes the place of the one that
/// stood under its identifier, or comes last where none did.
pub open spec fn with_entry(entries: Seq<EntryView>, entry: EntryView) -> Seq<EntryView> {
    if holds_id(entries, entry.id) {
        Seq::new(
            entries.len(),
            |i: int|
                if entries[i].id == entry.id {
                    entry
                } else {
                    entries[i]
                },
        )
    } else {
        entries.push(entry)
    }
}

/// The entry under `id`, where there is one.
pub open spec fn entry_under(entries: Seq<EntryView>, id: Seq<char>) -> Option<EntryView> {
    if holds_id(entries, id) {
        Some(entries[choose|i: int| 0 <= i < entries.len() && #[trigger] entries[i].id == id])
    } else {
        None
    }
}

/// The state of the entry under `id`, where there is one.
pub open spec fn state_under(entries: Seq<EntryView>, id: Seq<char>) -> Option<StateView> {
    match entry_under(entries, id) {
        Some(entry) => Some(entry.state),
        None => None,
    }
}

/// What the exchange says of one subscription in an acknowledgement.
#[derive(Clone, PartialEq, Debug)]
pub enum AckOutcome {
    /// The subscription is active.
    Accepted,
    /// The subscription was turned down, for the reason given.
    Rejected(String),
}

/// An [`AckOutcome`] with its reason as a sequence of characters.
pub enum OutcomeView {
    Accepted,
    Rejected(Seq<char>),
}

impl View for AckOutcome {
    type V = OutcomeView;

    open spec fn view(&self) -> OutcomeView {
        match self {
            AckOutcome::Accepted => OutcomeView::Accepted,
            AckOutcome::Rejected(reason) => OutcomeView::Rejected(reason@),
        }
    }
}

impl OutcomeView {
    /// The state that a pending subscription takes on this answer.
    pub open spec fn resolution(self) -> StateView {
        match self {
            OutcomeView::Accepted => StateView::Confirmed,
            OutcomeView::Rejected(reason) => StateView::Failed(reason),
        }
    }
}

/// What an acknowledgement did to the map.
#[derive(Copy, Clone, Eq, PartialEq, Debug, Structural)]
pub enum AckEffect {
    /// A pending subscription was confirmed or failed by it.
    Resolved,
    /// Its subscription had been answered before: nothing changed.
    Duplicate,
}

/// An inbound message that fits nothing on this connection.
#[derive(Clone, PartialEq, Debug)]
pub enum ProtocolViolation {
    /// An acknowledgement for an identifier that no subscription in flight has.
    UnknownAck(SubscriptionId),
    /// Market data for an identifier that no subscription in flight has.
    UnknownData(SubscriptionId),
    /// An acknowledgement of a request, by its number, that was never sent.
    UnknownRequest(u32),
    /// An error of the exchange that names no subscription, with what the
    /// exchange said.
    Unattributed(String),
}

/// The entries after an acknowledgement for `id` came in: the pending entry
/// under `id` takes the state that the answer gives, and every other entry
/// stays as it was.
pub open spec fn acknowledged(entries: Seq<EntryView>, id: Seq<char>, outcome: OutcomeView) -> Seq<
    EntryView,
> {
    Seq::new(
        entries.len(),
        |i: int|
            if entries[i].id == id && entries[i].state is Pending {
                EntryView { state: outcome.resolution(), ..entries[i] }
            } else {
                entries[i]
            },
    )
}

/// An acknowledgement changes no identifier and no subscription, adds and
/// removes no entry, and touches no entry but a pending one under its own
/// identifier.
pub proof fn acknowledged_keeps_the_rest(entries: Seq<EntryView>, id: Seq<char>, outcome: OutcomeView)
    ensures
        acknowledged(entries, id, outcome).len() == entries.len(),
        forall|i: int|
            0 <= i < entries.len() ==> {
                &&& (#[trigger] acknowledged(entries, id, outcome)[i]).id == entries[i].id
                &&& acknowledged(entries, id, outcome)[i].subscription == entries[i].subscription
                &&& (entries[i].id != id || !(entries[i].state is Pending) ==> acknowledged(
                    entries,
                    id,
                    outcome,
                )[i] == entries[i])
                &&& (entries[i].id == id && entries[i].state is Pending ==> acknowledged(
                    entries,
                    id,
                    outcome,
                )[i].state == outcome.resolution())
            },
        distinct_ids(entries) ==> distinct_ids(acknowledged(entries, id, outcome)),
{
}

/// An acknowledgement for an identifier that no entry stands under leaves
/// every entry as it was.
pub proof fn unknown_ack_changes_nothing(entries: Seq<EntryView>, id: Seq<char>, outcome: OutcomeView)
    requires
        !holds_id(entries, id),
    ensures
        state_under(entries, id) is None,
        acknowledged(entries, id, outcome) == entries,
{
    assert(acknowledged(entries, id, outcome) =~= entries);
}

/// An entry is resolved at most once: after one acknowledgement for an
/// identifier, a second one for it changes nothing.
pub proof fn second_ack_changes_nothing(
    entries: Seq<EntryView>,
    id: Seq<char>,
    first: OutcomeView,
    second: OutcomeView,
)
    ensures
        acknowledged(acknowledged(entries, id, first), id, second) == acknowledged(
            entries,
            id,
            first,
        ),
{
    assert(acknowledged(acknowledged(entries, id, first), id, second) =~= acknowledged(
        entries,
        id,
        first,
    ));
}

/// The subscriptions in flight on one connection, in the order in which their
/// identifiers first came in. No identifier stands twice.
#[derive(PartialEq, Debug)]
pub struct SubscriptionMap {
    entries: Vec<SubscriptionEntry>,
}

impl View for SubscriptionMap {
    type V = Seq<EntryView>;

    closed spec fn view(&self) -> Seq<EntryView> {
        entry_views(self.entries@)
    }
}

impl SubscriptionMap {
    #[verifier::type_invariant]
    spec fn well_formed(self) -> bool {
        distinct_ids(self@)
    }

    /// A map with nothing in flight.
    pub fn new() -> (map: SubscriptionMap)
        ensures
            map@ == Seq::<EntryView>::empty(),
    {
        let map = SubscriptionMap { entries: Vec::new() };
        assert(map@ =~= Seq::<EntryView>::empty());
        map
    }

    /// The number of subscriptions in flight.
    pub fn len(&self) -> (count: usize)
        ensures
            count == self@.len(),
            distinct_ids(self@),
    {
        proof {
            use_type_invariant(self);
        }
        self.entries.len()
    }

    /// The entries, in the order of the map.
    pub fn entries(&self) -> (entries: &Vec<SubscriptionEntry>)
        ensures
            entry_views(entries@) == self@,
            distinct_ids(self@),
    {
        proof {
            use_type_invariant(self);
        }
        &self.entries
    }

    /// The identifier of the entry that stands at `place`, counted from
    /// zero, if there are that many entries.
    pub fn id_at(&self, place: usize) -> (id: Option<SubscriptionId>)
        ensures
            id is Some <==> place < self@.len(),
            id is Some ==> subscription_id_text(id.unwrap()) == self@[place as int].id,
    {
        if place < self.entries.len() {
            assert(self@[place as int] == self.entries@[place as int]@);
            Some(self.entries[place].id.clone())
        } else {
            None
        }
    }

    /// Where the entry under `id` stands, if there is one.
    pub fn position(&self, id: &SubscriptionId) -> (place: Option<usize>)
        ensures
            place is Some <==> holds_id(self@, subscription_id_text(*id)),
            place is Some ==> place.unwrap() < self@.len() && self@[place.unwrap() as int].id
                == subscription_id_text(*id),
    {
        let mut i: usize = 0;
        while i < self.entries.len()
            invariant
                i <= self.entries.len(),
                self@.len() == self.entries.len(),
                forall|k: int| 0 <= k < i ==> (#[trigger] self@[k]).id != subscription_id_text(*id),
            decreases self.entries.len() - i,
        {
            if subscription_id_eq(&self.entries[i].id, id) {
                assert(self@[i as int].id == subscription_id_text(*id));
                return Some(i);
            }
            i += 1;
        }
        None
    }

    /// Puts a subscription in flight under `id`, not answered yet. One that
    /// stood under the same identifier gives way to it.
    pub fn insert(&mut self, id: SubscriptionId, subscription: Subscription)
        ensures
            final(self)@ == with_entry(
                old(self)@,
                EntryView {
                    id: subscription_id_text(id),
                    subscription: subscription@,
                    state: StateView::Pending,
                },
            ),
            distinct_ids(final(self)@),
    {
        proof {
            use_type_invariant(&*self);
        }
        let ghost before = self@;
        let entry = SubscriptionEntry { id, subscription, state: SubscriptionState::Pending };
        let ghost fresh = entry@;
        let place = self.position(&entry.id);
        let mut entries = self.take_entries();
        match place {
            Some(place) => {
                entries.set(place, entry);
            },
            None => {
                entries.push(entry);
            },
        }
        assert(entry_views(entries@) =~= with_entry(before, fresh));
        *self = SubscriptionMap { entries };
    }

    /// Moves the entries out and leaves the map empty, for the caller to put
    /// them back changed.
    fn take_entries(&mut self) -> (entries: Vec<SubscriptionEntry>)
        ensures
            entry_views(entries@) == old(self)@,
            final(self)@ == Seq::<EntryView>::empty(),
    {
        let mut emptied = SubscriptionMap::new();
        std::mem::swap(self, &mut emptied);
        emptied.entries
    }

    /// The state of the subscription under `id`, if one is in flight.
    pub fn state_of(&self, id: &SubscriptionId) -> (state: Option<SubscriptionState>)
        ensures
            match state {
                Some(found) => state_under(self@, subscription_id_text(*id)) == Some(found@),
                None => state_under(self@, subscription_id_text(*id)) is None,
            },
    {
        proof {
            use_type_invariant(self);
        }
        match self.position(id) {
            Some(place) => {
                let copy = self.entries[place].state.duplicate();
                assert(self@[place as int].state == copy@);
                Some(copy)
            },
            None => None,
        }
    }

    /// The subscription that market data under `id` belongs to. Data under
    /// an identifier that is not in flight is a protocol violation.
    pub fn find(&self, id: &SubscriptionId) -> (found: Result<&Subscription, ProtocolViolation>)
        ensures
            match found {
                Ok(subscription) => entry_under(self@, subscription_id_text(*id)) is Some
                    && entry_under(self@, subscription_id_text(*id)).unwrap().subscription
                    == subscription@,
                Err(violation) => {
                    &&& entry_under(self@, subscription_id_text(*id)) is None
                    &&& violation matches ProtocolViolation::UnknownData(unknown)
                        && subscription_id_text(unknown) == subscription_id_text(*id)
                },
            },
    {
        proof {
            use_type_invariant(self);
        }
        match self.position(id) {
            Some(place) => {
                assert(self@[place as int].subscription == self.entries[place as int].subscription@);
                Ok(&self.entries[place].subscription)
            },
            None => Err(ProtocolViolation::UnknownData(id.clone())),
        }
    }

    /// Takes in the exchange's answer for the subscription under `id`. A
    /// pending subscription is resolved by it, once and for all; an answer
    /// for one resolved before changes nothing; an answer for an identifier
    /// that is not in flight is a protocol violation, and changes nothing.
    pub fn acknowledge(&mut self, id: &SubscriptionId, outcome: AckOutcome) -> (effect: Result<
        AckEffect,
        ProtocolViolation,
    >)
        ensures
            final(self)@ == acknowledged(old(self)@, subscription_id_text(*id), outcome@),
            distinct_ids(final(self)@),
            match effect {
                Ok(AckEffect::Resolved) => state_under(old(self)@, subscription_id_text(*id))
                    == Some(StateView::Pending),
                Ok(AckEffect::Duplicate) => state_under(old(self)@, subscription_id_text(*id))
                    is Some && state_under(old(self)@, subscription_id_text(*id)) != Some(
                    StateView::Pending,
                ),
                Err(violation) => {
                    &&& state_under(old(self)@, subscription_id_text(*id)) is None
                    &&& violation matches ProtocolViolation::UnknownAck(unknown)
                        && subscription_id_text(unknown) == subscription_id_text(*id)
                },
            },
    {
        proof {
            use_type_invariant(&*self);
        }
        let ghost before = self@;
        let ghost text = subscription_id_text(*id);
        match self.position(id) {
            None => {
                assert(self@ =~= acknowledged(before, text, outcome@));
                Err(ProtocolViolation::UnknownAck(id.clone()))
            },
            Some(place) => {
                if !self.entries[place].state.is_pending() {
                    assert(self@ =~= acknowledged(before, text, outcome@));
                    return Ok(AckEffect::Duplicate);
                }
                let resolved = match outcome {
                    AckOutcome::Accepted => SubscriptionState::Confirmed,
                    AckOutcome::Rejected(reason) => SubscriptionState::Failed(reason),
                };
                let mut entries = self.take_entries();
                let entry = entries.remove(place);
                entries.insert(
                    place,
                    SubscriptionEntry { id: entry.id, subscription: entry.subscription, state: resolved },
                );
                assert(entry_views(entries@) =~= acknowledged(
                    before,
                    text,
                    outcome@,
                ));
                *self = SubscriptionMap { entries };
                Ok(AckEffect::Resolved)
            },
        }
    }
}

} // verus!
