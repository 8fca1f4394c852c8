//! Target-time resolution: turns a scheduling mode, the user's raw input and
//! the current time into an absolute target time of day, or a validation
//! error.

use vstd::arithmetic::div_mod::{
    lemma_fundamental_div_mod, lemma_fundamental_div_mod_converse, lemma_mod_bound,
};
use vstd::prelude::*;

use crate::clock::ClockTime;
use crate::text::{
    all_digits, digit_char_value, digits_value, is_digit_char, parse_u32_input, u32_input_value,
    valid_u32_input,
};

verus! {

/// How the raw input text is interpreted when the timer is started.
#[derive(Clone, Copy, Debug, PartialEq, Eq, Structural)]
pub enum SchedulingMode {
    /// The input is a number of minutes from now.
    AfterDelay,
    /// The input is a time of day in `HH:MM` form.
    AtClockTime,
}

/// Why a raw input was rejected when the timer was started.
#[derive(Clone, Copy, Debug, PartialEq, Eq, Structural)]
pub enum ValidationError {
    /// The input did not read as a non-negative number of minutes.
    BadMinutes,
    /// The input did not read as a time of day in `HH:MM` form.
    BadTimeFormat,
}

impl ValidationError {
    /// The message shown to the user for this error.
    pub open spec fn spec_message(self) -> Seq<char> {
        match self {
            ValidationError::BadMinutes => "minutes must be a non-negative integer"@,
            ValidationError::BadTimeFormat => "time must be given as HH:MM"@,
        }
    }

    pub fn message(&self) -> (r: String)
        ensures
            r@ == self.spec_message(),
    {
        match self {
            ValidationError::BadMinutes => "minutes must be a non-negative integer".to_owned(),
            ValidationError::BadTimeFormat => "time must be given as HH:MM".to_owned(),
        }
    }
}

/// Index of the `:` separator a clock input is read with: after one digit if
/// the second character is a `:`, else after two.
pub open spec fn colon_pos(s: Seq<char>) -> int {
    if s.len() >= 2 && s[1] == ':' {
        1
    } else {
        2
    }
}

/// One or two ASCII decimal digits.
pub open spec fn one_or_two_digits(s: Seq<char>) -> bool {
    (s.len() == 1 || s.len() == 2) && all_digits(s)
}

/// Grammar of a clock input: one or two digits for the hour, a `:`, one or
/// two digits for the minute, nothing else; hour at most 23, minute at most
/// 59.
pub open spec fn valid_clock_input(s: Seq<char>) -> bool {
    let k = colon_pos(s);
    &&& k < s.len()
    &&& s[k] == ':'
    &&& one_or_two_digits(s.take(k))
    &&& one_or_two_digits(s.skip(k + 1))
    &&& digits_value(s.take(k)) <= 23
    &&& digits_value(s.skip(k + 1)) <= 59
}

/// Hour a valid clock input denotes.
pub open spec fn clock_hour(s: Seq<char>) -> int {
    digits_value(s.take(colon_pos(s)))
}

/// Minute a valid clock input denotes.
pub open spec fn clock_minute(s: Seq<char>) -> int {
    digits_value(s.skip(colon_pos(s) + 1))
}

/// What `resolve` returns, stated over the mathematical views of its inputs:
/// in delay mode, now plus the given minutes, wrapped at midnight and
/// truncated to the whole minute; in clock mode, the given time of day.
pub open spec fn spec_resolve(mode: SchedulingMode, input: Seq<char>, now: int) -> Result<
    int,
    ValidationError,
> {
    match mode {
        SchedulingMode::AfterDelay => if valid_u32_input(input) {
            Ok(((now / 60 + u32_input_value(input)) % 1440) * 60)
        } else {
            Err(ValidationError::BadMinutes)
        },
        SchedulingMode::AtClockTime => if valid_clock_input(input) {
            Ok(clock_hour(input) * 3600 + clock_minute(input) * 60)
        } else {
            Err(ValidationError::BadTimeFormat)
        },
    }
}

/// The delay-mode target is exactly "now plus the given minutes, wrapped at
/// midnight, with the seconds component set to zero": the minute-based
/// formula the resolver's contract uses agrees with that reading for every
/// time of day and every delay.
pub proof fn lemma_delay_target_is_truncated_sum(now: int, minutes: int)
    requires
        0 <= now < 86400,
        0 <= minutes,
    ensures
        ((now / 60 + minutes) % 1440) * 60 == (((now + minutes * 60) % 86400) / 60) * 60,
{
    let q = now / 60;
    let r = now % 60;
    lemma_fundamental_div_mod(now, 60);
    lemma_mod_bound(now, 60);
    assert(now == 60 * q + r);
    let s = q + minutes;
    let j = s / 1440;
    let k = s % 1440;
    lemma_fundamental_div_mod(s, 1440);
    lemma_mod_bound(s, 1440);
    assert(s == 1440 * j + k);
    assert(now + minutes * 60 == 60 * s + r);
    assert(now + minutes * 60 == j * 86400 + (60 * k + r));
    lemma_fundamental_div_mod_converse(now + minutes * 60, 86400, j, 60 * k + r);
    assert((now + minutes * 60) % 86400 == 60 * k + r);
    lemma_fundamental_div_mod_converse(60 * k + r, 60, k, r);
    assert((60 * k + r) / 60 == k);
}

/// Reads a clock input `H:MM`-style: one or two digits, `:`, one or two
/// digits, with the hour below 24 and the minute below 60.
fn parse_clock_input(s: &str) -> (r: Option<(u32, u32)>)
    ensures
        r is Some <==> valid_clock_input(s@),
        r matches Some(hm) ==> hm.0 as int == clock_hour(s@) && hm.1 as int == clock_minute(s@),
{
    let len: usize = s.unicode_len();
    if len < 3 {
        return None;
    }
    let c0 = s.get_char(0);
    let c1 = s.get_char(1);
    let colon: usize = if c1 as u32 == 58 {
        1
    } else {
        2
    };
    proof {
        assert(colon as int == colon_pos(s@));
    }
    if colon >= len {
        return None;
    }
    if !(s.get_char(colon) as u32 == 58) {
        return None;
    }
    // the hour digits
    let hour_len = colon;
    let ghost hpart = s@.take(colon as int);
    if !is_digit(c0) {
        proof {
            assert(hpart[0] == c0);
            assert(!all_digits(hpart));
        }
        return None;
    }
    let mut hour: u32 = c0 as u32 - 48;
    if colon == 2 {
        if !is_digit(c1) {
            proof {
                assert(hpart[1] == c1);
                assert(!all_digits(hpart));
            }
            return None;
        }
        hour = hour * 10 + (c1 as u32 - 48);
    }
    proof {
        assert(digits_value(Seq::<char>::empty()) == 0);
        if colon == 1 {
            assert(hpart =~= seq![c0]);
            assert(hpart.drop_last() =~= Seq::<char>::empty());
            assert(hpart.last() == c0);
            assert(digits_value(hpart) == digit_char_value(c0));
        } else {
            let ghost h0 = hpart.drop_last();
            assert(h0 =~= seq![c0]);
            assert(h0.drop_last() =~= Seq::<char>::empty());
            assert(h0.last() == c0);
            assert(digits_value(h0) == digit_char_value(c0));
            assert(hpart.last() == c1);
            assert(digits_value(hpart) == digit_char_value(c0) * 10 + digit_char_value(c1));
        }
        assert(hour as int == digits_value(hpart));
        assert(one_or_two_digits(hpart));
    }
    // the minute digits: one or two of them, then the end of the input
    let mstart = colon + 1;
    let mlen = len - mstart;
    let ghost mpart = s@.skip(mstart as int);
    if mlen != 1 && mlen != 2 {
        proof {
            assert(mpart.len() == mlen);
        }
        return None;
    }
    let m0 = s.get_char(mstart);
    if !is_digit(m0) {
        proof {
            assert(mpart[0] == m0);
            assert(!all_digits(mpart));
        }
        return None;
    }
    let mut minute: u32 = m0 as u32 - 48;
    if mlen == 2 {
        let m1 = s.get_char(mstart + 1);
        if !is_digit(m1) {
            proof {
                assert(mpart[1] == m1);
                assert(!all_digits(mpart));
            }
            return None;
        }
        minute = minute * 10 + (m1 as u32 - 48);
    }
    proof {
        assert(digits_value(Seq::<char>::empty()) == 0);
        if mlen == 1 {
            assert(mpart =~= seq![m0]);
            assert(mpart.drop_last() =~= Seq::<char>::empty());
            assert(mpart.last() == m0);
            assert(digits_value(mpart) == digit_char_value(m0));
        } else {
            let ghost q0 = mpart.drop_last();
            assert(q0 =~= seq![m0]);
            assert(q0.drop_last() =~= Seq::<char>::empty());
            assert(q0.last() == m0);
            assert(digits_value(q0) == digit_char_value(m0));
            assert(mpart.last() == s@[mstart as int + 1]);
            assert(digits_value(mpart) == digit_char_value(m0) * 10 + digit_char_value(
                mpart.last(),
            ));
        }
        assert(minute as int == digits_value(mpart));
        assert(one_or_two_digits(mpart));
    }
    if hour > 23 {
        return None;
    }
    if minute > 59 {
        return None;
    }
    Some((hour, minute))
}

fn is_digit(c: char) -> (r: bool)
    ensures
        r == is_digit_char(c),
{
    let u = c as u32;
    48 <= u && u <= 57
}

/// Resolves the raw input against the current time: in delay mode the target
/// is now plus the given minutes, wrapped at midnight with the seconds
/// component forced to zero; in clock mode it is the given time of day as it
/// stands, even when that time has already passed today.
pub fn resolve(mode: SchedulingMode, input: &str, now: ClockTime) -> (r: Result<
    ClockTime,
    ValidationError,
>)
    requires
        now.wf(),
    ensures
        match spec_resolve(mode, input@, now@) {
            Ok(t) => r matches Ok(c) && c.wf() && c@ == t,
            Err(e) => r == Err::<ClockTime, ValidationError>(e),
        },
{
    match mode {
        SchedulingMode::AfterDelay => match parse_u32_input(input) {
            Some(minutes) => Ok(now.plus_minutes_truncated(minutes)),
            None => Err(ValidationError::BadMinutes),
        },
        SchedulingMode::AtClockTime => match parse_clock_input(input) {
            Some((hour, minute)) => Ok(ClockTime::from_hms(hour, minute, 0)),
            None => Err(ValidationError::BadTimeFormat),
        },
    }
}

} // verus!
