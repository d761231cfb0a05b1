//! Time spans and the compact tokens that name them.

use vstd::prelude::*;
use vstd::string::*;
use crate::text::{
    all_digits, decimal_text, decimal_value, is_digit, lemma_decimal_text_value, parse_digits,
    unsigned_decimal,
};

verus! {

/// The longest span this library represents, in whole seconds.
pub const MAX_SPAN_SECS: i64 = 9_223_372_036_854_775;

/// A non-negative span of time in whole seconds.
#[derive(Clone, Copy, Debug, PartialEq, Eq, Structural)]
pub struct TimeSpan {
    pub secs: i64,
}

/// The units a window token can count in.
#[derive(Clone, Copy, Debug, PartialEq, Eq, Structural)]
pub enum TimeUnit {
    Days,
    Hours,
    Minutes,
}

impl TimeUnit {
    /// How many seconds one of this unit lasts.
    pub open spec fn seconds(self) -> int {
        match self {
            TimeUnit::Days => 86_400,
            TimeUnit::Hours => 3_600,
            TimeUnit::Minutes => 60,
        }
    }

    /// The unit that the letter `c` names: `d`, `h` or `m`.
    pub open spec fn of_letter(c: char) -> Option<TimeUnit> {
        if c == 'd' {
            Some(TimeUnit::Days)
        } else if c == 'h' {
            Some(TimeUnit::Hours)
        } else if c == 'm' {
            Some(TimeUnit::Minutes)
        } else {
            None
        }
    }
}

impl TimeSpan {
    /// A span is well formed when it is non-negative and not longer than
    /// [`MAX_SPAN_SECS`].
    pub open spec fn wf(&self) -> bool {
        0 <= self.secs <= MAX_SPAN_SECS
    }

    /// The span of `secs` seconds, if it can be represented.
    pub fn seconds(secs: i64) -> (r: Option<TimeSpan>)
        ensures
            r == (if 0 <= secs <= MAX_SPAN_SECS {
                Some(TimeSpan { secs })
            } else {
                None
            }),
    {
        if 0 <= secs && secs <= MAX_SPAN_SECS {
            Some(TimeSpan { secs })
        } else {
            None
        }
    }

    /// The span of `amount` times `unit`, if it can be represented.
    pub fn of_units(amount: u64, unit: TimeUnit) -> (r: Option<TimeSpan>)
        ensures
            r == (if amount * unit.seconds() <= MAX_SPAN_SECS {
                Some(TimeSpan { secs: (amount * unit.seconds()) as i64 })
            } else {
                None
            }),
            r matches Some(span) ==> span.wf(),
    {
        let total: u128 = match unit {
            TimeUnit::Days => amount as u128 * 86_400,
            TimeUnit::Hours => amount as u128 * 3_600,
            TimeUnit::Minutes => amount as u128 * 60,
        };
        if total <= MAX_SPAN_SECS as u128 {
            Some(TimeSpan { secs: total as i64 })
        } else {
            None
        }
    }

    /// The length of the span in whole seconds.
    pub fn num_seconds(&self) -> (r: i64)
        ensures
            r == self.secs,
    {
        self.secs
    }
}

/// A window token is a run of one or more ASCII digits followed by exactly
/// one unit letter, with nothing before or after.
pub open spec fn is_window_token(s: Seq<char>) -> bool {
    &&& s.len() >= 2
    &&& all_digits(s.drop_last())
    &&& TimeUnit::of_letter(s.last()) is Some
}

/// The count that a window token carries.
pub open spec fn token_amount(s: Seq<char>) -> nat
    recommends
        is_window_token(s),
{
    decimal_value(s.drop_last())
}

/// The unit that a window token counts in.
pub open spec fn token_unit(s: Seq<char>) -> TimeUnit
    recommends
        is_window_token(s),
{
    TimeUnit::of_letter(s.last())->0
}

/// What a string means as a window: the span of that many units where the
/// string is a window token whose span can be represented, and nothing for
/// every other string.
pub open spec fn parse_time_spec(s: Seq<char>) -> Option<TimeSpan> {
    if is_window_token(s) && token_amount(s) * token_unit(s).seconds() <= MAX_SPAN_SECS {
        Some(TimeSpan { secs: (token_amount(s) * token_unit(s).seconds()) as i64 })
    } else {
        None
    }
}

/// A count written in decimal and followed by a unit letter is read as
/// exactly that many units, whenever the span can be represented.
pub proof fn lemma_count_and_unit_parse(n: nat, letter: char)
    requires
        TimeUnit::of_letter(letter) matches Some(unit) && n * unit.seconds() <= MAX_SPAN_SECS,
    ensures
        is_window_token(decimal_text(n).push(letter)),
        parse_time_spec(decimal_text(n).push(letter)) == Some(
            TimeSpan { secs: (n * TimeUnit::of_letter(letter)->0.seconds()) as i64 },
        ),
{
    lemma_decimal_text_value(n);
    let s = decimal_text(n).push(letter);
    assert(s.drop_last() =~= decimal_text(n));
    assert(s.last() == letter);
}

/// Any run of digits followed by a unit letter is read by its value, leading
/// zeros included.
pub proof fn lemma_digits_and_unit_parse(digits: Seq<char>, letter: char)
    requires
        digits.len() > 0,
        all_digits(digits),
        TimeUnit::of_letter(letter) matches Some(unit) && decimal_value(digits) * unit.seconds()
            <= MAX_SPAN_SECS,
    ensures
        parse_time_spec(digits.push(letter)) == Some(
            TimeSpan {
                secs: (decimal_value(digits) * TimeUnit::of_letter(letter)->0.seconds()) as i64,
            },
        ),
{
    let s = digits.push(letter);
    assert(s.drop_last() =~= digits);
    assert(s.last() == letter);
}

/// A string that is not a run of digits followed by one unit letter has no
/// meaning as a window: the empty string, a string without a unit or with an
/// unknown one, one with a sign or any other character among the digits, and
/// one with anything after the unit.
pub proof fn lemma_other_strings_rejected(s: Seq<char>)
    requires
        s.len() < 2 || TimeUnit::of_letter(s.last()) is None || exists|i: int|
            0 <= i < s.len() - 1 && !is_digit(s[i]),
    ensures
        parse_time_spec(s) is None,
{
    if s.len() >= 2 && TimeUnit::of_letter(s.last()) is Some {
        let i = choose|i: int| 0 <= i < s.len() - 1 && !is_digit(s[i]);
        assert(s.drop_last()[i] == s[i]);
    }
}

/// Reads a window token such as `7d`, `24h` or `30m`.
pub fn parse_time_string(time_str: &str) -> (r: Option<TimeSpan>)
    ensures
        r == parse_time_spec(time_str@),
        r matches Some(span) ==> span.wf(),
{
    if !time_str.is_ascii() {
        assert(!is_window_token(time_str@)) by {
            if is_window_token(time_str@) {
                let s = time_str@;
                assert forall|i: int| 0 <= i < s.len() implies '\0' <= #[trigger] s[i] <= '\u{7f}' by {
                    if i < s.len() - 1 {
                        assert(is_digit(s.drop_last()[i]));
                    }
                }
            }
        }
        return None;
    }
    let n = time_str.unicode_len();
    if n < 2 {
        return None;
    }
    let letter = time_str.get_ascii(n - 1);
    let unit = if letter == 100 {
        TimeUnit::Days
    } else if letter == 104 {
        TimeUnit::Hours
    } else if letter == 109 {
        TimeUnit::Minutes
    } else {
        return None;
    };
    assert(TimeUnit::of_letter(time_str@.last()) == Some(unit));
    let digits = time_str.substring_ascii(0, n - 1);
    assert(digits@ =~= time_str@.drop_last());
    match parse_digits(digits, MAX_SPAN_SECS as u64) {
        Some(amount) => TimeSpan::of_units(amount, unit),
        None => {
            proof {
                if let Some(v) = unsigned_decimal(digits@) {
                    assert(v * unit.seconds() > MAX_SPAN_SECS) by {
                        match unit {
                            TimeUnit::Days => assert(v * 86_400 >= v),
                            TimeUnit::Hours => assert(v * 3_600 >= v),
                            TimeUnit::Minutes => assert(v * 60 >= v),
                        }
                    }
                }
            }
            None
        },
    }
}

} // verus!
