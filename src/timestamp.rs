use vstd::prelude::*;

verus! {

/// A filesystem timestamp, field for field as FAT directory entries store it.
#[derive(Clone, Copy, Debug, PartialEq, Eq, Structural)]
pub struct Timestamp {
    /// Years since 1970.
    pub year_since_1970: u8,
    /// Calendar month minus one.
    pub zero_indexed_month: u8,
    /// Calendar day minus one.
    pub zero_indexed_day: u8,
    /// Hours past midnight.
    pub hours: u8,
    /// Minutes past the hour.
    pub minutes: u8,
    /// Seconds past the minute.
    pub seconds: u8,
}

impl Timestamp {
    /// The zero timestamp: every field is zero.
    pub open spec fn is_epoch(self) -> bool {
        &&& self.year_since_1970 == 0
        &&& self.zero_indexed_month == 0
        &&& self.zero_indexed_day == 0
        &&& self.hours == 0
        &&& self.minutes == 0
        &&& self.seconds == 0
    }
}

/// A time source for boards without a real-time clock: it always reports the
/// zero timestamp.
#[derive(Clone, Copy, Debug)]
pub struct TimeSink {}

impl TimeSink {
    pub fn new() -> (r: TimeSink)
        ensures
            r == (TimeSink {  }),
    {
        TimeSink {  }
    }

    /// The current time, which on this board is always the zero timestamp.
    pub fn get_timestamp(&self) -> (r: Timestamp)
        ensures
            r.is_epoch(),
    {
        Timestamp {
            year_since_1970: 0,
            zero_indexed_month: 0,
            zero_indexed_day: 0,
            hours: 0,
            minutes: 0,
            seconds: 0,
        }
    }
}

} // verus!
