//! Text utilities the timer's input and display logic rest on: reading a
//! non-negative integer out of user-typed text, and printing numbers back as
//! decimal digits.

use vstd::prelude::*;

verus! {

/// ASCII decimal digit.
pub open spec fn is_digit_char(c: char) -> bool {
    48 <= c as int && c as int <= 57
}

/// Value of an ASCII decimal digit.
pub open spec fn digit_char_value(c: char) -> int {
    c as int - 48
}

/// ASCII whitespace: tab, line feed, vertical tab, form feed, carriage
/// return, space.
pub open spec fn is_space_char(c: char) -> bool {
    c as int == 32 || (9 <= c as int && c as int <= 13)
}

pub open spec fn all_digits(s: Seq<char>) -> bool {
    forall|i: int| 0 <= i < s.len() ==> is_digit_char(s[i])
}

/// The number a run of decimal digits denotes, most significant digit first.
pub open spec fn digits_value(s: Seq<char>) -> int
    decreases s.len(),
{
    if s.len() == 0 {
        0
    } else {
        digits_value(s.drop_last()) * 10 + digit_char_value(s.last())
    }
}

pub open spec fn trim_start_spec(s: Seq<char>) -> Seq<char>
    decreases s.len(),
{
    if s.len() > 0 && is_space_char(s[0]) {
        trim_start_spec(s.drop_first())
    } else {
        s
    }
}

pub open spec fn trim_end_spec(s: Seq<char>) -> Seq<char>
    decreases s.len(),
{
    if s.len() > 0 && is_space_char(s.last()) {
        trim_end_spec(s.drop_last())
    } else {
        s
    }
}

/// `s` with leading and trailing ASCII whitespace removed.
pub open spec fn spec_trim(s: Seq<char>) -> Seq<char> {
    trim_end_spec(trim_start_spec(s))
}

/// The digit run of a trimmed integer input: an optional leading `+` sign is
/// dropped.
pub open spec fn unsigned_digits(t: Seq<char>) -> Seq<char> {
    if t.len() > 0 && t[0] == '+' {
        t.drop_first()
    } else {
        t
    }
}

/// Grammar of an unsigned integer input once trimmed: an optional `+`, then
/// one or more ASCII decimal digits.
pub open spec fn unsigned_grammar(t: Seq<char>) -> bool {
    unsigned_digits(t).len() > 0 && all_digits(unsigned_digits(t))
}

/// The number denoted by `s` after trimming, when `s` meets the grammar.
pub open spec fn u32_input_value(s: Seq<char>) -> int {
    digits_value(unsigned_digits(spec_trim(s)))
}

/// `s` trims to an optional `+` sign and digits whose value fits in `u32`.
pub open spec fn valid_u32_input(s: Seq<char>) -> bool {
    unsigned_grammar(spec_trim(s)) && u32_input_value(s) <= u32::MAX
}

pub proof fn lemma_digits_value_nonneg(s: Seq<char>)
    requires
        all_digits(s),
    ensures
        digits_value(s) >= 0,
    decreases s.len(),
{
    if s.len() > 0 {
        assert(all_digits(s.drop_last()));
        lemma_digits_value_nonneg(s.drop_last());
    }
}

/// Reading one more digit can only keep or grow the value.
pub proof fn lemma_digits_value_prefix_le(s: Seq<char>, i: int)
    requires
        all_digits(s),
        0 <= i <= s.len(),
    ensures
        digits_value(s.take(i)) <= digits_value(s),
    decreases s.len() - i,
{
    assert(all_digits(s.take(i)));
    if i < s.len() {
        assert(s.take(i + 1).drop_last() =~= s.take(i));
        assert(s.take(i + 1).last() == s[i]);
        lemma_digits_value_nonneg(s.take(i));
        assert(digits_value(s.take(i + 1)) == digits_value(s.take(i)) * 10 + digit_char_value(
            s[i],
        ));
        lemma_digits_value_prefix_le(s, i + 1);
    } else {
        assert(s.take(i) =~= s);
    }
}

/// Reads a `u32` out of `s` the way the timer inputs are read: ASCII
/// whitespace is trimmed, an optional `+` sign is accepted, and the digits
/// must denote a value that fits in `u32`. Returns `None` on any other text.
pub fn parse_u32_input(s: &str) -> (r: Option<u32>)
    ensures
        r is Some <==> valid_u32_input(s@),
        r matches Some(v) ==> v as int == u32_input_value(s@),
{
    let len: usize = s.unicode_len();
    let mut start: usize = 0;
    proof {
        assert(s@.skip(0) =~= s@);
    }
    while start < len && is_space(s.get_char(start))
        invariant
            len == s@.len(),
            start <= len,
            trim_start_spec(s@) == trim_start_spec(s@.skip(start as int)),
        decreases len - start,
    {
        proof {
            assert(s@.skip(start as int).drop_first() =~= s@.skip(start as int + 1));
        }
        start = start + 1;
    }
    proof {
        assert(trim_start_spec(s@.skip(start as int)) =~= s@.skip(start as int));
    }
    let mut end: usize = len;
    while end > start && is_space(s.get_char(end - 1))
        invariant
            len == s@.len(),
            start <= end <= len,
            trim_start_spec(s@) == s@.skip(start as int),
            trim_end_spec(s@.subrange(start as int, len as int)) == trim_end_spec(
                s@.subrange(start as int, end as int),
            ),
        decreases end,
    {
        proof {
            let t = s@.subrange(start as int, end as int);
            assert(t.last() == s@[end - 1]);
            assert(t.drop_last() =~= s@.subrange(start as int, end as int - 1));
        }
        end = end - 1;
    }
    proof {
        assert(s@.skip(start as int) =~= s@.subrange(start as int, len as int));
        assert(trim_end_spec(s@.subrange(start as int, end as int)) =~= s@.subrange(
            start as int,
            end as int,
        ));
        assert(spec_trim(s@) == s@.subrange(start as int, end as int));
    }
    // skip an optional leading '+' sign
    let mut dstart: usize = start;
    if start < end && s.get_char(start) == '+' {
        dstart = start + 1;
        proof {
            assert(spec_trim(s@)[0] == '+');
            assert(unsigned_digits(spec_trim(s@)) =~= s@.subrange(dstart as int, end as int));
        }
    } else {
        proof {
            assert(unsigned_digits(spec_trim(s@)) =~= s@.subrange(dstart as int, end as int));
        }
    }
    let ghost d: Seq<char> = s@.subrange(dstart as int, end as int);
    proof {
        assert(unsigned_digits(spec_trim(s@)) == d);
    }
    if dstart == end {
        // no digits at all
        return None;
    }
    let mut acc: u64 = 0;
    let mut i: usize = dstart;
    while i < end
        invariant
            len == s@.len(),
            dstart <= i <= end <= len,
            d == s@.subrange(dstart as int, end as int),
            unsigned_digits(spec_trim(s@)) == d,
            all_digits(d.take(i - dstart)),
            acc == digits_value(d.take(i - dstart)),
            acc <= u32::MAX,
        decreases end - i,
    {
        let c = s.get_char(i);
        let u = c as u32;
        if u < 48 || u > 57 {
            proof {
                assert(d[i - dstart] == c);
                assert(!is_digit_char(d[i - dstart]));
                assert(!all_digits(d));
                assert(!valid_u32_input(s@));
            }
            return None;
        }
        let digit: u64 = (u - 48) as u64;
        proof {
            assert(d.take(i - dstart + 1).drop_last() =~= d.take(i - dstart));
            assert(d.take(i - dstart + 1).last() == d[i - dstart]);
            assert(d[i - dstart] == c);
        }
        let next: u64 = acc * 10 + digit;
        if next > 0xFFFF_FFFF {
            proof {
                let j = i - dstart + 1;
                assert(digits_value(d.take(j)) == next);
                if all_digits(d) {
                    lemma_digits_value_prefix_le(d, j);
                    assert(digits_value(d) > u32::MAX);
                }
                assert(!valid_u32_input(s@));
            }
            return None;
        }
        acc = next;
        i = i + 1;
    }
    proof {
        assert(d.take(end - dstart) =~= d);
    }
    Some(acc as u32)
}

fn is_space(c: char) -> (r: bool)
    ensures
        r == is_space_char(c),
{
    let u = c as u32;
    u == 32 || (9 <= u && u <= 13)
}

/// The decimal digit character for a value below ten.
pub open spec fn spec_digit_char(v: int) -> char {
    if v == 0 {
        '0'
    } else if v == 1 {
        '1'
    } else if v == 2 {
        '2'
    } else if v == 3 {
        '3'
    } else if v == 4 {
        '4'
    } else if v == 5 {
        '5'
    } else if v == 6 {
        '6'
    } else if v == 7 {
        '7'
    } else if v == 8 {
        '8'
    } else {
        '9'
    }
}

/// Decimal digits of `n`, most significant first, with no leading zeros
/// (a single `'0'` for zero).
pub open spec fn spec_decimal(n: int) -> Seq<char>
    decreases n,
{
    if n < 10 {
        seq![spec_digit_char(n)]
    } else {
        spec_decimal(n / 10).push(spec_digit_char(n % 10))
    }
}

/// `n` in decimal, padded with a leading zero to at least two digits.
pub open spec fn spec_two_digit(n: int) -> Seq<char> {
    if n < 10 {
        seq!['0'] + spec_decimal(n)
    } else {
        spec_decimal(n)
    }
}

fn digit_str(d: u32) -> (r: &'static str)
    requires
        d < 10,
    ensures
        r@ =~= seq![spec_digit_char(d as int)],
{
    let r: &'static str = match d {
        0 => "0",
        1 => "1",
        2 => "2",
        3 => "3",
        4 => "4",
        5 => "5",
        6 => "6",
        7 => "7",
        8 => "8",
        _ => "9",
    };
    proof {
        reveal_strlit("0");
        reveal_strlit("1");
        reveal_strlit("2");
        reveal_strlit("3");
        reveal_strlit("4");
        reveal_strlit("5");
        reveal_strlit("6");
        reveal_strlit("7");
        reveal_strlit("8");
        reveal_strlit("9");
    }
    r
}

/// `n` written in decimal with no leading zeros.
pub fn decimal_string(n: u32) -> (r: String)
    ensures
        r@ == spec_decimal(n as int),
    decreases n,
{
    if n < 10 {
        digit_str(n).to_owned()
    } else {
        let mut s = decimal_string(n / 10);
        s.append(digit_str(n % 10));
        proof {
            assert(s@ =~= spec_decimal(n as int));
        }
        s
    }
}

/// `n` written in decimal, padded with a leading zero to at least two
/// digits, as the countdown display shows each time component.
pub fn two_digit_string(n: u32) -> (r: String)
    ensures
        r@ == spec_two_digit(n as int),
{
    if n < 10 {
        let mut s = "0".to_owned();
        proof {
            reveal_strlit("0");
            assert("0"@ =~= seq!['0']);
        }
        s.append(digit_str(n));
        proof {
            assert(s@ =~= spec_two_digit(n as int));
        }
        s
    } else {
        decimal_string(n)
    }
}

} // verus!
