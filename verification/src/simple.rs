//! The single-action timer variant: the user enters hours and minutes, the
//! timer counts whole seconds down on each tick, and on reaching zero the
//! one-step pipeline (an OS suspend request) runs.

use vstd::prelude::*;

use crate::text::{parse_u32_input, u32_input_value, valid_u32_input};

verus! {

/// What `parse_total_seconds` returns: the total seconds of the entered
/// hours and minutes, or the message the rejected field is reported with.
/// The minutes field must stay below one hour, and the total must fit in
/// `u32`.
pub open spec fn spec_parse_total_seconds(hours: Seq<char>, minutes: Seq<char>) -> Result<
    int,
    Seq<char>,
> {
    if !valid_u32_input(hours) {
        Err("Hours must be a non-negative integer."@)
    } else if !valid_u32_input(minutes) {
        Err("Minutes must be a non-negative integer."@)
    } else if u32_input_value(minutes) >= 60 {
        Err("Minutes must be less than 60."@)
    } else if u32_input_value(hours) * 3600 + u32_input_value(minutes) * 60 > u32::MAX {
        Err("The timer duration is too large."@)
    } else {
        Ok(u32_input_value(hours) * 3600 + u32_input_value(minutes) * 60)
    }
}

/// Reads the hours and minutes fields and returns the duration they denote
/// in whole seconds. Each field is trimmed and must be a non-negative
/// integer; the minutes must be below 60; the total must fit in `u32`.
pub fn parse_total_seconds(hours: &str, minutes: &str) -> (r: Result<u32, String>)
    ensures
        match spec_parse_total_seconds(hours@, minutes@) {
            Ok(t) => r matches Ok(v) && v as int == t,
            Err(m) => r matches Err(s) && s@ == m,
        },
{
    let hours_value: u32 = match parse_u32_input(hours) {
        Some(v) => v,
        None => {
            return Err("Hours must be a non-negative integer.".to_owned());
        },
    };
    let minutes_value: u32 = match parse_u32_input(minutes) {
        Some(v) => v,
        None => {
            return Err("Minutes must be a non-negative integer.".to_owned());
        },
    };
    if minutes_value >= 60 {
        return Err("Minutes must be less than 60.".to_owned());
    }
    let total: u64 = hours_value as u64 * 3600 + minutes_value as u64 * 60;
    if total > 0xFFFF_FFFF {
        return Err("The timer duration is too large.".to_owned());
    }
    Ok(total as u32)
}

/// The single-action variant's state: the two input fields, the seconds
/// still to run while armed, whether the timer has finished, and the last
/// error message shown.
pub struct SimpleTimer {
    pub hours_input: String,
    pub minutes_input: String,
    pub remaining_seconds: Option<u32>,
    pub finished: bool,
    pub error: Option<String>,
}

impl SimpleTimer {
    /// The initial state: one minute entered, nothing running.
    pub fn new() -> (r: SimpleTimer)
        ensures
            r.hours_input@ == "0"@,
            r.minutes_input@ == "1"@,
            r.remaining_seconds is None,
            !r.finished,
            r.error is None,
    {
        SimpleTimer {
            hours_input: "0".to_owned(),
            minutes_input: "1".to_owned(),
            remaining_seconds: None,
            finished: false,
            error: None,
        }
    }

    /// Replaces the hours field and clears any error.
    pub fn set_hours(&mut self, value: String)
        ensures
            *final(self) == (SimpleTimer { hours_input: value, error: None, ..*old(self) }),
    {
        self.hours_input = value;
        self.error = None;
    }

    /// Replaces the minutes field and clears any error.
    pub fn set_minutes(&mut self, value: String)
        ensures
            *final(self) == (SimpleTimer { minutes_input: value, error: None, ..*old(self) }),
    {
        self.minutes_input = value;
        self.error = None;
    }

    /// Starts the countdown from the entered fields. A valid, non-zero
    /// duration arms the countdown; a zero duration or a rejected field only
    /// sets the error message.
    pub fn start_pressed(&mut self)
        ensures
            final(self).hours_input == old(self).hours_input,
            final(self).minutes_input == old(self).minutes_input,
            match spec_parse_total_seconds(old(self).hours_input@, old(self).minutes_input@) {
                Ok(t) => if t > 0 {
                    &&& (final(self).remaining_seconds matches Some(v) && v as int == t)
                    &&& !final(self).finished
                    &&& final(self).error is None
                } else {
                    &&& final(self).remaining_seconds == old(self).remaining_seconds
                    &&& final(self).finished == old(self).finished
                    &&& (final(self).error matches Some(m) && m@
                        == "Please enter a duration greater than zero."@)
                },
                Err(msg) => {
                    &&& final(self).remaining_seconds == old(self).remaining_seconds
                    &&& final(self).finished == old(self).finished
                    &&& (final(self).error matches Some(m) && m@ == msg)
                },
            },
    {
        match parse_total_seconds(self.hours_input.as_str(), self.minutes_input.as_str()) {
            Ok(total) => {
                if total > 0 {
                    self.remaining_seconds = Some(total);
                    self.finished = false;
                    self.error = None;
                } else {
                    self.error = Some("Please enter a duration greater than zero.".to_owned());
                }
            },
            Err(msg) => {
                self.error = Some(msg);
            },
        }
    }

    /// One tick of the external one-second clock. A running countdown loses
    /// one second; when it reaches zero the timer finishes and the result is
    /// `true`: the host must now run the suspend action and report back
    /// through `sleep_finished`. An idle timer is left untouched.
    pub fn tick(&mut self) -> (fire: bool)
        ensures
            final(self).hours_input == old(self).hours_input,
            final(self).minutes_input == old(self).minutes_input,
            final(self).error == old(self).error,
            match old(self).remaining_seconds {
                Some(r) => if r > 1 {
                    &&& !fire
                    &&& final(self).remaining_seconds == Some((r - 1) as u32)
                    &&& final(self).finished == old(self).finished
                } else {
                    &&& fire
                    &&& final(self).remaining_seconds is None
                    &&& final(self).finished
                },
                None => !fire && *final(self) == *old(self),
            },
    {
        match self.remaining_seconds {
            Some(remaining) => {
                if remaining > 1 {
                    self.remaining_seconds = Some(remaining - 1);
                    false
                } else {
                    self.remaining_seconds = None;
                    self.finished = true;
                    true
                }
            },
            None => false,
        }
    }

    /// Reports the suspend action's outcome after the timer fired: success
    /// clears the error message, failure records it verbatim.
    pub fn sleep_finished(&mut self, outcome: Result<(), String>)
        ensures
            match outcome {
                Ok(()) => *final(self) == (SimpleTimer { error: None, ..*old(self) }),
                Err(m) => *final(self) == (SimpleTimer { error: Some(m), ..*old(self) }),
            },
    {
        match outcome {
            Ok(()) => {
                self.error = None;
            },
            Err(m) => {
                self.error = Some(m);
            },
        }
    }

    /// Whether the host should keep delivering ticks: only a countdown that
    /// is running and not yet finished is waiting on the clock.
    pub fn wants_ticks(&self) -> (r: bool)
        ensures
            r == (self.remaining_seconds is Some && !self.finished),
    {
        self.remaining_seconds.is_some() && !self.finished
    }
}

} // verus!
