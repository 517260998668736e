//! Candles: the prices and the volume of one instrument over one interval.

use crate::number::Number;
use crate::time::Timestamp;
use vstd::prelude::*;

verus! {

/// The kind of subscription that yields [`Candle`]s.
#[derive(Copy, Clone, Eq, PartialEq, Hash, Debug, Structural)]
pub struct Candles;

/// One candle. A candle whose interval is still running is a candle too:
/// `is_closed` tells the two apart.
#[derive(Clone, PartialEq, Debug)]
pub struct Candle {
    pub close_time: Timestamp,
    pub open: Number,
    pub high: Number,
    pub low: Number,
    pub close: Number,
    pub volume: Number,
    pub trade_count: u64,
    pub is_closed: bool,
}

/// What a [`Candle`] is, with each number as the text that writes it.
pub struct CandleView {
    pub close_time: Timestamp,
    pub open: Seq<char>,
    pub high: Seq<char>,
    pub low: Seq<char>,
    pub close: Seq<char>,
    pub volume: Seq<char>,
    pub trade_count: u64,
    pub is_closed: bool,
}

impl View for Candle {
    type V = CandleView;

    open spec fn view(&self) -> CandleView {
        CandleView {
            close_time: self.close_time,
            open: self.open@,
            high: self.high@,
            low: self.low@,
            close: self.close@,
            volume: self.volume@,
            trade_count: self.trade_count,
            is_closed: self.is_closed,
        }
    }
}

} // verus!
