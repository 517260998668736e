//! The types of `barter_integration` that market data is tagged with, and the
//! few calls into that crate that the library makes. Verus sees none of their
//! insides: each contract below is taken on trust from the crate's source.

use barter_integration::model::instrument::Instrument;
use barter_integration::model::Exchange;
use barter_integration::model::SubscriptionId;
use barter_integration::protocol::websocket::WsMessage;
use std::time::Duration;
use vstd::prelude::*;

verus! {

#[verifier::external_type_specification]
#[verifier::external_body]
pub struct ExExchange(Exchange);

#[verifier::external_type_specification]
#[verifier::external_body]
pub struct ExSubscriptionId(SubscriptionId);

#[verifier::external_type_specification]
#[verifier::external_body]
pub struct ExInstrument(Instrument);

#[verifier::external_type_specification]
#[verifier::external_body]
pub struct ExWsMessage(WsMessage);

/// The name that an [`Exchange`] holds.
pub uninterp spec fn exchange_text(exchange: Exchange) -> Seq<char>;

/// The identifier that a [`SubscriptionId`] holds.
pub uninterp spec fn subscription_id_text(id: SubscriptionId) -> Seq<char>;

/// The text of a WebSocket message, where it is a text message.
pub uninterp spec fn ws_text(message: WsMessage) -> Option<Seq<char>>;

/// The length of a [`Duration`] in nanoseconds.
pub uninterp spec fn duration_nanos(duration: Duration) -> nat;

/// Calls `Exchange::from` on a string slice. Trusted: the exchange that comes
/// back holds exactly the name handed in.
#[verifier::external_body]
pub(crate) fn exchange_from(name: &'static str) -> (exchange: Exchange)
    ensures
        exchange_text(exchange) == name@,
{
    Exchange::from(name)
}

/// Calls `SubscriptionId::from` on an owned string. Trusted: the identifier
/// that comes back holds exactly the text handed in.
#[verifier::external_body]
pub(crate) fn subscription_id_from(text: String) -> (id: SubscriptionId)
    ensures
        subscription_id_text(id) == text@,
{
    SubscriptionId::from(text)
}

/// `SubscriptionId::clone`. Trusted: the copy holds the same text.
pub assume_specification[ <SubscriptionId as Clone>::clone ](id: &SubscriptionId) -> (copy:
    SubscriptionId)
    ensures
        subscription_id_text(copy) == subscription_id_text(*id),
;

/// `Instrument::clone`. Trusted: the copy is the instrument itself once
/// more, field by field.
pub assume_specification[ <Instrument as Clone>::clone ](instrument: &Instrument) -> (copy:
    Instrument)
    ensures
        copy == *instrument,
;

/// Compares two identifiers with the `==` of `SubscriptionId`. Trusted: they
/// are equal exactly when they hold the same text.
#[verifier::external_body]
pub(crate) fn subscription_id_eq(left: &SubscriptionId, right: &SubscriptionId) -> (same: bool)
    ensures
        same == (subscription_id_text(*left) == subscription_id_text(*right)),
{
    left == right
}

/// Builds the `Text` variant of a WebSocket message. Trusted: the message is
/// a text message with exactly the payload handed in.
#[verifier::external_body]
pub(crate) fn ws_text_message(payload: String) -> (message: WsMessage)
    ensures
        ws_text(message) == Some(payload@),
{
    WsMessage::Text(payload)
}

/// `Duration::from_secs` makes a duration of that many whole seconds.
pub assume_specification[ Duration::from_secs ](secs: u64) -> (duration: Duration)
    ensures
        duration_nanos(duration) == secs * 1_000_000_000,
;

} // verus!
