//! A wall-clock time of day (hour, minute, second), used to filter rows by
//! the local time their timestamp falls on, and its `HH:MM:SS` literal form.

use vstd::prelude::*;
use vstd::string::StrSliceExecFns;
use crate::numeric::digit_val;
use crate::numeric::is_digit_char;

verus! {

/// A time of day with no date component.
#[derive(Clone, Copy, Debug, PartialEq, Eq, Structural)]
pub struct TimeOfDay {
    pub hour: u32,
    pub minute: u32,
    pub second: u32,
}

impl TimeOfDay {
    /// A calendar-valid time of day.
    pub open spec fn valid(self) -> bool {
        self.hour < 24 && self.minute < 60 && self.second < 60
    }

    /// The time as a triple of hour, minute and second.
    pub open spec fn parts(self) -> (int, int, int) {
        (self.hour as int, self.minute as int, self.second as int)
    }
}

/// The strings accepted as time-of-day literals: exactly `HH:MM:SS`, two
/// digits for each component, denoting a calendar-valid time.
pub open spec fn is_time_literal(s: Seq<char>) -> bool {
    &&& s.len() == 8
    &&& s[2] == ':' && s[5] == ':'
    &&& is_digit_char(s[0]) && is_digit_char(s[1])
    &&& is_digit_char(s[3]) && is_digit_char(s[4])
    &&& is_digit_char(s[6]) && is_digit_char(s[7])
    &&& time_literal_hour(s) < 24
    &&& time_literal_minute(s) < 60
    &&& time_literal_second(s) < 60
}

pub open spec fn time_literal_hour(s: Seq<char>) -> int {
    digit_val(s[0]) * 10 + digit_val(s[1])
}

pub open spec fn time_literal_minute(s: Seq<char>) -> int {
    digit_val(s[3]) * 10 + digit_val(s[4])
}

pub open spec fn time_literal_second(s: Seq<char>) -> int {
    digit_val(s[6]) * 10 + digit_val(s[7])
}

/// Reads one ASCII digit pair at `i` and `i + 1`, or reports that one of
/// the two characters is not a digit.
fn two_digits(s: &str, i: usize) -> (r: Option<u32>)
    requires
        i + 2 <= s@.len(),
        i + 2 <= usize::MAX,
    ensures
        r is Some <==> is_digit_char(s@[i as int]) && is_digit_char(s@[i as int + 1]),
        r matches Some(v) ==> v == digit_val(s@[i as int]) * 10 + digit_val(s@[i as int + 1]),
{
    let hi = s.get_char(i) as u32;
    let lo = s.get_char(i + 1) as u32;
    if hi < 48 || hi > 57 || lo < 48 || lo > 57 {
        return None;
    }
    Some((hi - 48) * 10 + (lo - 48))
}

/// Parses a time-of-day filter given as `HH:MM:SS`. Returns `Some` exactly
/// on well-formed, calendar-valid literals.
pub fn parse_time_of_day(s: &str) -> (r: Option<TimeOfDay>)
    ensures
        r is Some <==> is_time_literal(s@),
        r matches Some(t) ==> {
            &&& t.valid()
            &&& t.hour == time_literal_hour(s@)
            &&& t.minute == time_literal_minute(s@)
            &&& t.second == time_literal_second(s@)
        },
{
    if s.unicode_len() != 8 {
        return None;
    }
    if s.get_char(2) != ':' || s.get_char(5) != ':' {
        return None;
    }
    let hour = match two_digits(s, 0) {
        Some(v) => v,
        None => return None,
    };
    let minute = match two_digits(s, 3) {
        Some(v) => v,
        None => return None,
    };
    let second = match two_digits(s, 6) {
        Some(v) => v,
        None => return None,
    };
    if hour >= 24 || minute >= 60 || second >= 60 {
        return None;
    }
    Some(TimeOfDay { hour, minute, second })
}

} // verus!
