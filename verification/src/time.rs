//! Points in time, as seconds and nanoseconds since the Unix epoch.

use vstd::prelude::*;

verus! {

/// The last millisecond since the Unix epoch that a `chrono::DateTime<Utc>`
/// can hold: the end of the year 262142.
pub const MAX_EPOCH_MS: u64 = 8_210_266_876_799_999;

/// A point in time in UTC: whole seconds since the Unix epoch, and the
/// nanoseconds past them.
#[derive(Copy, Clone, Eq, PartialEq, Hash, Debug, Structural)]
pub struct Timestamp {
    pub secs: i64,
    pub nanos: u32,
}

impl Timestamp {
    /// The whole milliseconds from the Unix epoch to this point in time.
    pub open spec fn epoch_ms(self) -> int {
        self.secs * 1000 + self.nanos / 1_000_000
    }

    /// The point in time `ms` milliseconds after the Unix epoch.
    pub open spec fn at_epoch_ms(ms: u64) -> Timestamp {
        Timestamp { secs: (ms / 1000) as i64, nanos: ((ms % 1000) * 1_000_000) as u32 }
    }

    /// The point in time `ms` milliseconds after the Unix epoch, or `None`
    /// where that lies beyond [`MAX_EPOCH_MS`].
    pub fn from_epoch_ms(ms: u64) -> (time: Option<Timestamp>)
        ensures
            time == if ms <= MAX_EPOCH_MS {
                Some(Timestamp::at_epoch_ms(ms))
            } else {
                None
            },
            time is Some ==> time.unwrap().epoch_ms() == ms,
    {
        if ms > MAX_EPOCH_MS {
            return None;
        }
        let secs: u64 = ms / 1000;
        let millis: u64 = ms % 1000;
        Some(Timestamp { secs: secs as i64, nanos: (millis * 1_000_000) as u32 })
    }
}

impl Default for Timestamp {
    /// The Unix epoch itself.
    fn default() -> (time: Timestamp)
        ensures
            time == (Timestamp { secs: 0, nanos: 0 }),
    {
        Timestamp { secs: 0, nanos: 0 }
    }
}

/// Reads the clock with `chrono::Utc::now`. Nothing is promised of the
/// reading: it is whatever the system clock says.
#[verifier::external_body]
pub(crate) fn utc_now() -> (now: Timestamp) {
    let now = chrono::Utc::now();
    Timestamp { secs: now.timestamp(), nanos: now.timestamp_subsec_nanos() }
}

} // verus!
