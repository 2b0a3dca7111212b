//! A plain model of clock values: a time of day held as hour, minute and
//! second fields, and the decomposition of an elapsed whole-second count
//! into hours, minutes and seconds.
use vstd::prelude::*;

use vstd::arithmetic::div_mod::{lemma_div_denominator, lemma_fundamental_div_mod};

use crate::text::{digit_of, digit_val, is_digit};

verus! {

/// A time of day, to whole seconds.
#[derive(Clone, Copy, Debug, PartialEq, Eq, Structural)]
pub struct TimeOfDay {
    pub hour: u8,
    pub minute: u8,
    pub second: u8,
}

impl TimeOfDay {
    /// Field ranges of a valid time of day.
    pub open spec fn wf(self) -> bool {
        self.hour < 24 && self.minute < 60 && self.second < 60
    }

    /// Builds a time of day, rejecting out-of-range fields.
    pub fn from_hms(hour: u8, minute: u8, second: u8) -> (r: Option<TimeOfDay>)
        ensures
            r is Some <==> hour < 24 && minute < 60 && second < 60,
            r is Some ==> r->0 == (TimeOfDay { hour, minute, second }) && r->0.wf(),
    {
        if hour < 24 && minute < 60 && second < 60 {
            Some(TimeOfDay { hour, minute, second })
        } else {
            None
        }
    }
}

/// Whether `s` is a clock-time text `HH:MM:SS`: two digits, a colon, two
/// digits, a colon, two digits, with the hour below 24 and the minute and
/// second below 60.
pub open spec fn is_hms_text(s: Seq<char>) -> bool {
    &&& s.len() == 8
    &&& is_digit(s[0]) && is_digit(s[1])
    &&& s[2] == ':'
    &&& is_digit(s[3]) && is_digit(s[4])
    &&& s[5] == ':'
    &&& is_digit(s[6]) && is_digit(s[7])
    &&& digit_val(s[0]) * 10 + digit_val(s[1]) < 24
    &&& digit_val(s[3]) * 10 + digit_val(s[4]) < 60
    &&& digit_val(s[6]) * 10 + digit_val(s[7]) < 60
}

/// The time of day that a clock-time text denotes.
pub open spec fn hms_of_text(s: Seq<char>) -> TimeOfDay
    recommends
        is_hms_text(s),
{
    TimeOfDay {
        hour: (digit_val(s[0]) * 10 + digit_val(s[1])) as u8,
        minute: (digit_val(s[3]) * 10 + digit_val(s[4])) as u8,
        second: (digit_val(s[6]) * 10 + digit_val(s[7])) as u8,
    }
}

/// Reads a two-digit field of `v` starting at `at`.
fn two_digits_at(v: &Vec<char>, at: usize) -> (r: Option<u8>)
    requires
        at + 2 <= v@.len(),
    ensures
        r is Some <==> is_digit(v@[at as int]) && is_digit(v@[at + 1]),
        r is Some ==> r->0 == digit_val(v@[at as int]) * 10 + digit_val(v@[at + 1]),
{
    // Binds the vector's length so the index arithmetic below is known to
    // stay within `usize`.
    let n = v.len();
    let hi = digit_of(v[at]);
    let lo = digit_of(v[at + 1]);
    match (hi, lo) {
        (Some(h), Some(l)) => Some(h * 10 + l),
        _ => None,
    }
}

/// Parses a clock-time text `HH:MM:SS` into a time of day. Returns `None`
/// exactly when the text is not of that shape or a field is out of range.
pub fn parse_hms_chars(v: &Vec<char>) -> (r: Option<TimeOfDay>)
    ensures
        r is Some <==> is_hms_text(v@),
        r is Some ==> r->0 == hms_of_text(v@) && r->0.wf(),
{
    if v.len() != 8 {
        return None;
    }
    if v[2] != ':' || v[5] != ':' {
        return None;
    }
    let hour = two_digits_at(v, 0);
    let minute = two_digits_at(v, 3);
    let second = two_digits_at(v, 6);
    match (hour, minute, second) {
        (Some(h), Some(m), Some(sec)) => {
            if h < 24 && m < 60 && sec < 60 {
                Some(TimeOfDay { hour: h, minute: m, second: sec })
            } else {
                None
            }
        },
        _ => None,
    }
}

/// Parses a clock-time text held in a string.
pub fn parse_hms(s: &str) -> (r: Option<TimeOfDay>)
    ensures
        r is Some <==> is_hms_text(s@),
        r is Some ==> r->0 == hms_of_text(s@) && r->0.wf(),
{
    let cs = crate::text::chars_of(s);
    parse_hms_chars(&cs)
}

/// The hours part of a whole-second count.
pub open spec fn hours_of(total: u64) -> u64 {
    (total / 3600) as u64
}

/// The minutes part of a whole-second count.
pub open spec fn minutes_of(total: u64) -> u64 {
    ((total / 60) % 60) as u64
}

/// The seconds part of a whole-second count.
pub open spec fn seconds_of(total: u64) -> u64 {
    (total % 60) as u64
}

/// Splits a whole-second count into hours, minutes and seconds, as shown in
/// a low-battery alert. The parts recompose to the original count.
pub fn duration_hms(total: u64) -> (r: (u64, u64, u64))
    ensures
        r.0 == hours_of(total),
        r.1 == minutes_of(total),
        r.2 == seconds_of(total),
        r.1 < 60,
        r.2 < 60,
        r.0 * 3600 + r.1 * 60 + r.2 == total,
{
    let seconds = total % 60;
    let minutes = (total / 60) % 60;
    let hours = (total / 60) / 60;
    proof {
        lemma_div_denominator(total as int, 60, 60);
        lemma_fundamental_div_mod(total as int, 60);
        lemma_fundamental_div_mod((total / 60) as int, 60);
        assert(hours * 3600 + minutes * 60 + seconds == total) by (nonlinear_arith)
            requires
                total == 60 * (total / 60) + total % 60,
                (total / 60) as int == 60 * ((total / 60) as int / 60) + (total / 60) as int % 60,
                hours == (total / 60) as int / 60,
                minutes == (total / 60) as int % 60,
                seconds == total % 60,
        ;
    }
    (hours, minutes, seconds)
}

} // verus!
