//! Calendar timestamps reduced to a second count, for coarse elapsed-time
//! arithmetic between two recorded instants.

use vstd::prelude::*;
use crate::text::{all_digits, digits_to_value, digits_value, split_chars, split_str, split_vec};

verus! {

/// The numeric value of a plain digit field that fits the target range;
/// nothing for an empty, signed, or oversized field.
pub open spec fn field_number(p: Seq<char>, cap: int) -> Option<int> {
    if p.len() >= 1 && all_digits(p) && digits_value(p) <= cap {
        Some(digits_value(p))
    } else {
        None
    }
}

/// A wall-clock timestamp split into calendar fields.
#[derive(Debug, Clone, Copy, PartialEq, Eq, Structural)]
pub struct Timestamp {
    pub year: i32,
    pub month: i8,
    pub day: i8,
    pub hour: i8,
    pub minutes: i8,
    pub seconds: i8,
}

impl Timestamp {
    /// Every field is non-negative, so the second count is a sum of
    /// non-negative terms.
    pub open spec fn wf(&self) -> bool {
        &&& self.year >= 0
        &&& self.month >= 0
        &&& self.day >= 0
        &&& self.hour >= 0
        &&& self.minutes >= 0
        &&& self.seconds >= 0
    }

    /// The second count: months are reckoned at thirty days, years at 365.
    pub open spec fn seconds_spec(&self) -> int {
        self.seconds + self.minutes * 60 + self.hour * 3600 + self.day * 86400 + self.month
            * 2592000 + self.year * 31536000
    }

    pub fn new(year: i32, month: i8, day: i8, hour: i8, minutes: i8, seconds: i8) -> (t: Timestamp)
        requires
            year >= 0,
            month >= 0,
            day >= 0,
            hour >= 0,
            minutes >= 0,
            seconds >= 0,
        ensures
            t == (Timestamp { year, month, day, hour, minutes, seconds }),
            t.wf(),
    {
        Timestamp { year, month, day, hour, minutes, seconds }
    }

    /// Reduces the timestamp to its second count.
    pub fn to_seconds(&self) -> (r: u64)
        requires
            self.wf(),
        ensures
            r == self.seconds_spec(),
    {
        (self.seconds as u64) + (self.minutes as u64) * 60 + (self.hour as u64) * 3600 + (self.day
            as u64) * 86400 + (self.month as u64) * 2592000 + (self.year as u64) * 31536000
    }
}

/// The timestamp a text of the shape `year-month-day hour:minutes:seconds`
/// denotes: three `-`-separated date fields whose last also carries the
/// `:`-separated time after one space, every field plain digits within its
/// range.  Text of any other shape denotes nothing.
pub open spec fn parse_timestamp_spec(s: Seq<char>) -> Option<Timestamp> {
    let date_parts = split_chars(s, '-');
    if date_parts.len() == 3 {
        let day_time = split_chars(date_parts[2], ' ');
        if day_time.len() == 2 {
            let time_parts = split_chars(day_time[1], ':');
            if time_parts.len() == 3 {
                match (
                    field_number(date_parts[0], i32::MAX as int),
                    field_number(date_parts[1], i8::MAX as int),
                    field_number(day_time[0], i8::MAX as int),
                    field_number(time_parts[0], i8::MAX as int),
                    field_number(time_parts[1], i8::MAX as int),
                    field_number(time_parts[2], i8::MAX as int),
                ) {
                    (
                        Some(year),
                        Some(month),
                        Some(day),
                        Some(hour),
                        Some(minutes),
                        Some(seconds),
                    ) => Some(
                        Timestamp {
                            year: year as i32,
                            month: month as i8,
                            day: day as i8,
                            hour: hour as i8,
                            minutes: minutes as i8,
                            seconds: seconds as i8,
                        },
                    ),
                    _ => None,
                }
            } else {
                None
            }
        } else {
            None
        }
    } else {
        None
    }
}

/// Reads one plain digit field into the given cap, as `field_number` says.
fn parse_field_capped(p: &Vec<char>, cap: i64) -> (r: Option<i64>)
    requires
        0 < cap <= i32::MAX as i64,
    ensures
        match r {
            Some(v) => field_number(p@, cap as int) == Some(v as int) && 0 <= v <= cap,
            None => field_number(p@, cap as int) is None,
        },
{
    proof {
        assert(p@.subrange(0, p@.len() as int) =~= p@);
    }
    if p.len() == 0 {
        return None;
    }
    digits_to_value(p, 0, p.len(), cap)
}

impl Timestamp {
    /// Parses a timestamp from its textual shape
    /// `year-month-day hour:minutes:seconds`.
    pub fn from_text(s: &str) -> (r: Option<Timestamp>)
        ensures
            r == parse_timestamp_spec(s@),
            r matches Some(t) ==> t.wf(),
    {
        let date_parts = split_str(s, '-');
        if date_parts.len() != 3 {
            return None;
        }
        proof {
            assert(date_parts.deep_view()[2] == date_parts@[2]@);
        }
        let day_time = split_vec(&date_parts[2], ' ');
        if day_time.len() != 2 {
            return None;
        }
        proof {
            assert(day_time.deep_view()[1] == day_time@[1]@);
        }
        let time_parts = split_vec(&day_time[1], ':');
        if time_parts.len() != 3 {
            return None;
        }
        proof {
            assert(date_parts.deep_view()[0] == date_parts@[0]@);
            assert(date_parts.deep_view()[1] == date_parts@[1]@);
            assert(day_time.deep_view()[0] == day_time@[0]@);
            assert(time_parts.deep_view()[0] == time_parts@[0]@);
            assert(time_parts.deep_view()[1] == time_parts@[1]@);
            assert(time_parts.deep_view()[2] == time_parts@[2]@);
        }
        let year = match parse_field_capped(&date_parts[0], i32::MAX as i64) {
            Some(v) => v as i32,
            None => {
                return None;
            },
        };
        let month = match parse_field_capped(&date_parts[1], i8::MAX as i64) {
            Some(v) => v as i8,
            None => {
                return None;
            },
        };
        let day = match parse_field_capped(&day_time[0], i8::MAX as i64) {
            Some(v) => v as i8,
            None => {
                return None;
            },
        };
        let hour = match parse_field_capped(&time_parts[0], i8::MAX as i64) {
            Some(v) => v as i8,
            None => {
                return None;
            },
        };
        let minutes = match parse_field_capped(&time_parts[1], i8::MAX as i64) {
            Some(v) => v as i8,
            None => {
                return None;
            },
        };
        let seconds = match parse_field_capped(&time_parts[2], i8::MAX as i64) {
            Some(v) => v as i8,
            None => {
                return None;
            },
        };
        Some(Timestamp { year, month, day, hour, minutes, seconds })
    }
}

/// The elapsed seconds between two instants, the earlier taken from the
/// later.
pub fn timestamp_difference(latest: Timestamp, earliest: Timestamp) -> (r: u64)
    requires
        latest.wf(),
        earliest.wf(),
        earliest.seconds_spec() <= latest.seconds_spec(),
    ensures
        r == latest.seconds_spec() - earliest.seconds_spec(),
{
    latest.to_seconds() - earliest.to_seconds()
}

} // verus!
