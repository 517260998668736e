//! Public trades: what was traded, for how much, and by which side.

use crate::number::Number;
use vstd::prelude::*;

verus! {

/// The kind of subscription that yields [`PublicTrade`]s.
#[derive(Copy, Clone, Eq, PartialEq, Hash, Debug, Structural)]
pub struct PublicTrades;

/// The side of the taker in a trade.
#[derive(Copy, Clone, Eq, PartialEq, Hash, Debug, Structural)]
pub enum Side {
    Buy,
    Sell,
}

/// One trade that an exchange has made public.
#[derive(Clone, PartialEq, Debug)]
pub struct PublicTrade {
    pub id: String,
    pub price: Number,
    pub amount: Number,
    pub side: Side,
}

/// What a [`PublicTrade`] is, with its strings as sequences of characters.
pub struct PublicTradeView {
    pub id: Seq<char>,
    pub price: Seq<char>,
    pub amount: Seq<char>,
    pub side: Side,
}

impl View for PublicTrade {
    type V = PublicTradeView;

    open spec fn view(&self) -> PublicTradeView {
        PublicTradeView { id: self.id@, price: self.price@, amount: self.amount@, side: self.side }
    }
}

} // verus!
