//! Market events: what every exchange's messages are normalised into.

use crate::exchange::ExchangeId;
use crate::integration::exchange_from;
use crate::integration::exchange_text;
use crate::subscriber::subscription::ProtocolViolation;
use barter_integration::model::instrument::Instrument;
use barter_integration::model::Exchange;
use crate::time::Timestamp;
use vstd::prelude::*;
use vstd::std_specs::convert::FromSpecImpl;

verus! {

/// A field of an exchange message that a normaliser reads.
#[derive(Copy, Clone, Eq, PartialEq, Hash, Debug, Structural)]
pub enum Field {
    StartTime,
    CloseTime,
    Open,
    High,
    Low,
    Close,
    Volume,
    QuoteAssetVolume,
    TakerBaseAssetVolume,
    TakerQuoteAssetVolume,
    Price,
    Amount,
    Side,
    Time,
}

/// Why one exchange message gave no market event. The next message is
/// normalised all the same.
#[derive(Copy, Clone, Eq, PartialEq, Debug, Structural)]
pub enum NormalizationError {
    /// The field is missing, or holds what no message may hold there.
    Malformed(Field),
    /// The field is a string that is meant to write a number, and does not.
    NumberFormat(Field),
    /// The field is meant to hold one of a few words, and holds another.
    UnknownValue(Field),
}

/// Why there is an error in place of a market event.
#[derive(PartialEq, Debug)]
pub enum DataError {
    /// The message could not be normalised.
    Normalization(NormalizationError),
    /// The message fits nothing on its connection.
    Protocol(ProtocolViolation),
}

/// One market event of any exchange: when the exchange says it happened,
/// when it was taken in here, where it is from, and what it is.
#[derive(PartialEq, Debug)]
pub struct MarketEvent<T> {
    pub exchange_time: Timestamp,
    pub received_time: Timestamp,
    pub exchange: Exchange,
    pub instrument: Instrument,
    pub kind: T,
}

/// What one exchange message was normalised into: no event, one, or
/// several, each of them an event or the reason why there is none.
#[derive(PartialEq, Debug)]
pub struct MarketIter<T>(pub Vec<Result<MarketEvent<T>, DataError>>);

impl From<ExchangeId> for Exchange {
    /// The exchange tag of market events from `exchange_id`.
    fn from(exchange_id: ExchangeId) -> (exchange: Exchange)
        ensures
            exchange_text(exchange) == exchange_id.name(),
    {
        exchange_from(exchange_id.as_str())
    }
}

impl FromSpecImpl<ExchangeId> for Exchange {
    open spec fn obeys_from_spec() -> bool {
        false
    }

    open spec fn from_spec(exchange_id: ExchangeId) -> Exchange {
        arbitrary()
    }
}

} // verus!
