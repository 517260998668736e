//! Trades of Okx, and the public trades they are normalised into.

use crate::event::Field;
use crate::event::NormalizationError;
use crate::exchange::subscription::identity_text;
use crate::exchange::subscription::ExchangeSub;
use crate::integration::subscription_id_text;
use crate::number::is_float_text;
use crate::number::parse_integer;
use crate::number::written_integer;
use crate::number::Number;
use crate::subscription::trade::PublicTradeView;
use crate::subscription::trade::Side;
use crate::time::Timestamp;
use crate::time::MAX_EPOCH_MS;
use barter_integration::model::SubscriptionId;
use vstd::prelude::*;
use vstd::string::StrSliceExecFns;

verus! {

/// A trade as it stands in a message, each field under its key there, and
/// each of them a string.
#[derive(Clone, Eq, PartialEq, Debug)]
pub struct WireTrade {
    /// `instId`: the instrument.
    pub inst_id: String,
    /// `tradeId`: the number of the trade.
    pub trade_id: String,
    /// `px`: the price.
    pub px: String,
    /// `sz`: the amount.
    pub sz: String,
    /// `side`: `buy` or `sell`.
    pub side: String,
    /// `ts`: when the trade was made, in milliseconds since the Unix epoch.
    pub ts: String,
}

/// A trades message as it comes in: the channel and the instrument that it
/// is for, under `arg`, and the trades under `data`.
#[derive(Clone, Eq, PartialEq, Debug)]
pub struct WireTrades {
    pub channel: String,
    pub inst_id: String,
    pub data: Vec<WireTrade>,
}

/// A trade with its fields read.
#[derive(Clone, PartialEq, Debug)]
pub struct OkxTrade {
    pub id: String,
    pub price: Number,
    pub amount: Number,
    pub side: Side,
    pub time: Timestamp,
}

/// The side that `text` names, where it names one.
pub open spec fn side_of(text: Seq<char>) -> Option<Side> {
    if text == "buy"@ {
        Some(Side::Buy)
    } else if text == "sell"@ {
        Some(Side::Sell)
    } else {
        None
    }
}

/// The first field of `wire`, in the order price, amount, side, time, that
/// cannot be read, and how it fails. A price or an amount that writes no
/// floating-point number, and a time that writes no whole number, has the
/// wrong number format; a side that is neither `buy` nor `sell` is an
/// unknown value; a time beyond [`MAX_EPOCH_MS`] is malformed.
pub open spec fn trade_fault(wire: WireTrade) -> Option<NormalizationError> {
    if !is_float_text(wire.px@) {
        Some(NormalizationError::NumberFormat(Field::Price))
    } else if !is_float_text(wire.sz@) {
        Some(NormalizationError::NumberFormat(Field::Amount))
    } else if side_of(wire.side@) is None {
        Some(NormalizationError::UnknownValue(Field::Side))
    } else if written_integer(wire.ts@) is None {
        Some(NormalizationError::NumberFormat(Field::Time))
    } else if written_integer(wire.ts@).unwrap() > MAX_EPOCH_MS {
        Some(NormalizationError::Malformed(Field::Time))
    } else {
        None
    }
}

/// The public trade that `wire` is normalised into, where every field of
/// it can be read.
pub open spec fn wire_trade(wire: WireTrade) -> PublicTradeView {
    PublicTradeView {
        id: wire.trade_id@,
        price: wire.px@,
        amount: wire.sz@,
        side: side_of(wire.side@).unwrap(),
    }
}

/// When the trade `wire` was made, where its time can be read.
pub open spec fn wire_trade_time(wire: WireTrade) -> Timestamp {
    Timestamp::at_epoch_ms(written_integer(wire.ts@).unwrap())
}

/// Whether two strings hold the same text.
fn same_text(left: &str, right: &str) -> (same: bool)
    ensures
        same == (left@ == right@),
{
    let len = left.unicode_len();
    if len != right.unicode_len() {
        return false;
    }
    let mut i: usize = 0;
    while i < len
        invariant
            i <= len,
            len == left@.len(),
            len == right@.len(),
            forall|k: int| 0 <= k < i ==> left@[k] == right@[k],
        decreases len - i,
    {
        if left.get_char(i) != right.get_char(i) {
            return false;
        }
        i += 1;
    }
    assert(left@ =~= right@);
    true
}

/// The identifier of the subscription that a message for `channel` and
/// `inst_id` belongs to: the channel, followed by the instrument.
pub fn okx_subscription_id(channel: &str, inst_id: &str) -> (id: SubscriptionId)
    ensures
        subscription_id_text(id) == identity_text(channel@, inst_id@),
{
    ExchangeSub::new(channel, inst_id).id()
}

impl OkxTrade {
    /// Reads the fields of a trade. Where a field cannot be read, the first
    /// such field decides the error.
    pub fn decode(wire: &WireTrade) -> (trade: Result<OkxTrade, NormalizationError>)
        ensures
            match trade {
                Ok(trade) => {
                    &&& trade_fault(*wire) is None
                    &&& trade.id@ == wire.trade_id@
                    &&& trade.price@ == wire.px@
                    &&& trade.amount@ == wire.sz@
                    &&& Some(trade.side) == side_of(wire.side@)
                    &&& trade.time == wire_trade_time(*wire)
                },
                Err(fault) => trade_fault(*wire) == Some(fault),
            },
    {
        let price = match Number::parse(wire.px.as_str()) {
            Some(price) => price,
            None => {
                return Err(NormalizationError::NumberFormat(Field::Price));
            },
        };
        let amount = match Number::parse(wire.sz.as_str()) {
            Some(amount) => amount,
            None => {
                return Err(NormalizationError::NumberFormat(Field::Amount));
            },
        };
        proof {
            reveal_strlit("buy");
            reveal_strlit("sell");
            assert("buy"@.len() != "sell"@.len());
        }
        let side = if same_text(wire.side.as_str(), "buy") {
            Side::Buy
        } else if same_text(wire.side.as_str(), "sell") {
            Side::Sell
        } else {
            return Err(NormalizationError::UnknownValue(Field::Side));
        };
        let ms = match parse_integer(wire.ts.as_str()) {
            Some(ms) => ms,
            None => {
                return Err(NormalizationError::NumberFormat(Field::Time));
            },
        };
        let time = match Timestamp::from_epoch_ms(ms) {
            Some(time) => time,
            None => {
                return Err(NormalizationError::Malformed(Field::Time));
            },
        };
        Ok(OkxTrade { id: wire.trade_id.clone(), price, amount, side, time })
    }
}

} // verus!
