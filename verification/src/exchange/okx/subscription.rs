//! The answers of Okx to subscription requests.

use crate::exchange::okx::trade::okx_subscription_id;
use crate::exchange::subscription::identity_text;
use crate::integration::subscription_id_text;
use crate::subscriber::subscription::acknowledged;
use crate::subscriber::subscription::state_under;
use crate::subscriber::subscription::AckEffect;
use crate::subscriber::subscription::AckOutcome;
use crate::subscriber::subscription::OutcomeView;
use crate::subscriber::subscription::ProtocolViolation;
use crate::subscriber::subscription::StateView;
use crate::subscriber::subscription::SubscriptionMap;
use vstd::prelude::*;

verus! {

/// The answer of Okx to a subscription request: one for each stream that
/// was subscribed to, or an error, which names no stream.
#[derive(Clone, Eq, PartialEq, Debug)]
pub enum OkxSubResponse {
    Subscribed { channel: String, inst_id: String },
    Error { code: String, msg: String },
}

impl OkxSubResponse {
    /// Takes the answer in. An answer for a stream confirms the subscription
    /// under the identifier of that stream, as any acknowledgement does. An
    /// error names no stream, so it fails no subscription: it is a protocol
    /// violation that carries what the exchange said, and changes nothing.
    pub fn acknowledge(&self, map: &mut SubscriptionMap) -> (effect: Result<
        AckEffect,
        ProtocolViolation,
    >)
        ensures
            match *self {
                OkxSubResponse::Subscribed { channel, inst_id } => {
                    &&& final(map)@ == acknowledged(
                        old(map)@,
                        identity_text(channel@, inst_id@),
                        OutcomeView::Accepted,
                    )
                    &&& match state_under(old(map)@, identity_text(channel@, inst_id@)) {
                        None => effect matches Err(ProtocolViolation::UnknownAck(unknown))
                            && subscription_id_text(unknown) == identity_text(
                            channel@,
                            inst_id@,
                        ),
                        Some(StateView::Pending) => effect == Ok::<AckEffect, ProtocolViolation>(
                            AckEffect::Resolved,
                        ),
                        Some(_) => effect == Ok::<AckEffect, ProtocolViolation>(
                            AckEffect::Duplicate,
                        ),
                    }
                },
                OkxSubResponse::Error { code, msg } => {
                    &&& final(map)@ == old(map)@
                    &&& effect matches Err(ProtocolViolation::Unattributed(reason)) && reason@
                        == msg@
                },
            },
    {
        match self {
            OkxSubResponse::Subscribed { channel, inst_id } => {
                let id = okx_subscription_id(channel.as_str(), inst_id.as_str());
                map.acknowledge(&id, AckOutcome::Accepted)
            },
            OkxSubResponse::Error { code, msg } => Err(
                ProtocolViolation::Unattributed(msg.clone()),
            ),
        }
    }
}

} // verus!
