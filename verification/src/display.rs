//! The countdown texts the two timer variants show while armed.

use vstd::prelude::*;

use crate::text::{decimal_string, spec_decimal, spec_two_digit, two_digit_string};

verus! {

/// The single-action variant's countdown line: hours, minutes and seconds,
/// each padded to two digits, as `HH:MM:SS remaining`.
pub fn format_remaining(total_seconds: u32) -> (r: String)
    ensures
        r@ == spec_two_digit(total_seconds as int / 3600) + seq![':'] + spec_two_digit(
            (total_seconds as int % 3600) / 60,
        ) + seq![':'] + spec_two_digit(total_seconds as int % 60) + " remaining"@,
{
    let hours = total_seconds / 3600;
    let minutes = (total_seconds % 3600) / 60;
    let seconds = total_seconds % 60;
    proof {
        reveal_strlit(":");
        assert(":"@ =~= seq![':']);
    }
    let mut s = two_digit_string(hours);
    s.append(":");
    let m = two_digit_string(minutes);
    s.append(m.as_str());
    s.append(":");
    let sec = two_digit_string(seconds);
    s.append(sec.as_str());
    s.append(" remaining");
    s
}

/// The multi-action variant's countdown line: whole minutes and leftover
/// seconds, as `M min S sec`.
pub fn format_remaining_min_sec(total_seconds: u32) -> (r: String)
    ensures
        r@ == spec_decimal(total_seconds as int / 60) + " min "@ + spec_decimal(
            total_seconds as int % 60,
        ) + " sec"@,
{
    let minutes = total_seconds / 60;
    let seconds = total_seconds % 60;
    let mut s = decimal_string(minutes);
    s.append(" min ");
    let sec = decimal_string(seconds);
    s.append(sec.as_str());
    s.append(" sec");
    s
}

} // verus!
