//! Wall-clock times of day, stored as whole seconds since midnight.
//!
//! The scheduler works at time-of-day granularity with no date component:
//! arithmetic on a `ClockTime` wraps at midnight. The host reads the current
//! time from its own clock and hands it in as a plain seconds-of-day value.

use vstd::prelude::*;

verus! {

/// A time of day: a number of whole seconds since midnight, always below
/// 86400.
#[derive(Clone, Copy, Debug, PartialEq, Eq, Structural)]
pub struct ClockTime {
    pub secs: u32,
}

impl View for ClockTime {
    type V = int;

    open spec fn view(&self) -> int {
        self.secs as int
    }
}

impl ClockTime {
    /// A `ClockTime` is well formed when it lies within the day.
    pub open spec fn wf(self) -> bool {
        self.secs < 86400
    }

    pub fn from_seconds_of_day(secs: u32) -> (r: ClockTime)
        requires
            secs < 86400,
        ensures
            r.wf(),
            r@ == secs as int,
    {
        ClockTime { secs }
    }

    pub fn from_hms(hour: u32, minute: u32, second: u32) -> (r: ClockTime)
        requires
            hour < 24,
            minute < 60,
            second < 60,
        ensures
            r.wf(),
            r@ == hour * 3600 + minute * 60 + second,
    {
        ClockTime { secs: hour * 3600 + minute * 60 + second }
    }

    pub fn seconds_of_day(&self) -> (r: u32)
        ensures
            r as int == self@,
    {
        self.secs
    }

    pub fn hour(&self) -> (r: u32)
        ensures
            r as int == self@ / 3600,
    {
        self.secs / 3600
    }

    pub fn minute(&self) -> (r: u32)
        ensures
            r as int == (self@ % 3600) / 60,
    {
        (self.secs % 3600) / 60
    }

    pub fn second(&self) -> (r: u32)
        ensures
            r as int == self@ % 60,
    {
        self.secs % 60
    }

    /// This time plus `minutes` whole minutes, wrapped at midnight, with the
    /// seconds component forced to zero so the countdown is whole-minute
    /// aligned.
    pub fn plus_minutes_truncated(&self, minutes: u32) -> (r: ClockTime)
        requires
            self.wf(),
        ensures
            r.wf(),
            r@ == ((self@ / 60 + minutes as int) % 1440) * 60,
    {
        let total_min: u64 = self.secs as u64 / 60 + minutes as u64;
        let wrapped: u64 = total_min % 1440;
        assert(wrapped * 60 < 86400) by {
            assert(wrapped < 1440);
        }
        ClockTime { secs: (wrapped * 60) as u32 }
    }
}

} // verus!
