//! The answers of Binance to subscription requests.

use crate::subscriber::subscription::acknowledged;
use crate::subscriber::subscription::AckEffect;
use crate::subscriber::subscription::AckOutcome;
use crate::subscriber::subscription::OutcomeView;
use crate::subscriber::subscription::ProtocolViolation;
use crate::subscriber::subscription::SubscriptionMap;
use crate::wire::join;
use crate::wire::joined;
use crate::wire::texts_of;
use vstd::prelude::*;

verus! {

/// What Binance says against a request.
#[derive(Clone, Eq, PartialEq, Debug)]
pub struct BinanceError {
    pub code: i64,
    pub msg: String,
}

/// The answer of Binance to one request. It repeats the number of the
/// request. A subscription that went well is answered with no `result` and
/// no `error`.
#[derive(Clone, Eq, PartialEq, Debug)]
pub struct BinanceSubResponse {
    pub id: u32,
    pub result: Option<Vec<String>>,
    pub error: Option<BinanceError>,
}

/// Where the entry stands, counted from zero, that the request with the
/// number `id` asked for, among `count` entries: requests are numbered from
/// one, in the order of the map.
pub open spec fn answered_place(id: u32, count: nat) -> Option<int> {
    if 1 <= id <= count {
        Some(id - 1)
    } else {
        None
    }
}

impl BinanceSubResponse {
    /// What the answer says of its subscription. With an `error` it is
    /// rejected, for the reason that the error gives. With a `result` and no
    /// error it is rejected too, and the reason is what the result holds,
    /// with a comma and a blank between each two. With neither it is
    /// accepted.
    pub open spec fn outcome_view(self) -> OutcomeView {
        match self.error {
            Some(error) => OutcomeView::Rejected(error.msg@),
            None => match self.result {
                Some(result) => OutcomeView::Rejected(joined(texts_of(result@), ", "@)),
                None => OutcomeView::Accepted,
            },
        }
    }

    /// What the answer says of its subscription.
    pub fn outcome(&self) -> (outcome: AckOutcome)
        ensures
            outcome@ == self.outcome_view(),
    {
        match &self.error {
            Some(error) => AckOutcome::Rejected(error.msg.clone()),
            None => match &self.result {
                Some(result) => AckOutcome::Rejected(join(result, ", ")),
                None => AckOutcome::Accepted,
            },
        }
    }

    /// Takes the answer in: the subscription that its request asked for is
    /// acknowledged with what the answer says. An answer to a request that
    /// was never sent is a protocol violation, and changes nothing.
    pub fn acknowledge(&self, map: &mut SubscriptionMap) -> (effect: Result<
        AckEffect,
        ProtocolViolation,
    >)
        ensures
            match answered_place(self.id, old(map)@.len()) {
                None => effect == Err::<AckEffect, ProtocolViolation>(
                    ProtocolViolation::UnknownRequest(self.id),
                ) && final(map)@ == old(map)@,
                Some(place) => {
                    &&& final(map)@ == acknowledged(
                        old(map)@,
                        old(map)@[place].id,
                        self.outcome_view(),
                    )
                    &&& effect == Ok::<AckEffect, ProtocolViolation>(
                        if old(map)@[place].state is Pending {
                            AckEffect::Resolved
                        } else {
                            AckEffect::Duplicate
                        },
                    )
                },
            },
    {
        let count = map.len();
        if self.id == 0 || self.id as usize > count {
            return Err(ProtocolViolation::UnknownRequest(self.id));
        }
        let place: usize = (self.id - 1) as usize;
        let ghost entries = map@;
        match map.id_at(place) {
            Some(id) => {
                proof {
                    let found = choose|i: int|
                        0 <= i < entries.len() && #[trigger] entries[i].id == entries[place as int].id;
                    assert(found == place);
                }
                map.acknowledge(&id, self.outcome())
            },
            None => Err(ProtocolViolation::UnknownRequest(self.id)),
        }
    }
}

} // verus!
