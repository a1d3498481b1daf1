//! Times of day, the four-digit time text, and the clock reading the
//! deadline computation starts from.

use vstd::prelude::*;

use crate::errors::IClassError;

verus! {

/// A whole-minute time of day: the target of a timed check-in. The nominal
/// deadline is this time, at zero seconds past the minute, on the current
/// date in the fixed UTC+8 offset.
#[derive(Debug, Clone, Copy, PartialEq, Eq, Structural)]
pub struct TimeOfDay {
    pub hour: u8,
    pub minute: u8,
}

/// A second-precision clock reading in the fixed UTC+8 offset.
#[derive(Debug, Clone, Copy, PartialEq, Eq, Structural)]
pub struct ClockTime {
    pub hour: u8,
    pub minute: u8,
    pub second: u8,
}

impl TimeOfDay {
    /// The hour and minute are in range.
    pub open spec fn wf(self) -> bool {
        self.hour < 24 && self.minute < 60
    }

    /// The target instant, as seconds since midnight of its day.
    pub open spec fn spec_second_of_day(self) -> int {
        self.hour * 3600 + self.minute * 60
    }

    /// Seconds since midnight of the nominal deadline.
    pub fn second_of_day(&self) -> (r: u32)
        requires
            self.wf(),
        ensures
            r == self.spec_second_of_day(),
            r < 86400,
    {
        (self.hour as u32) * 3600 + (self.minute as u32) * 60
    }
}

impl ClockTime {
    /// The hour, minute and second are in range.
    pub open spec fn wf(self) -> bool {
        self.hour < 24 && self.minute < 60 && self.second < 60
    }

    /// The reading, as seconds since midnight of its day.
    pub open spec fn spec_second_of_day(self) -> int {
        self.hour * 3600 + self.minute * 60 + self.second
    }

    /// Seconds since midnight of the clock reading.
    pub fn second_of_day(&self) -> (r: u32)
        requires
            self.wf(),
        ensures
            r == self.spec_second_of_day(),
            r < 86400,
    {
        (self.hour as u32) * 3600 + (self.minute as u32) * 60 + (self.second as u32)
    }
}

/// Whether `c` is one of the decimal digits '0' through '9'.
pub open spec fn is_digit_char(c: char) -> bool {
    48 <= c as int <= 57
}

/// The numeric value of a decimal digit character.
pub open spec fn digit_val(c: char) -> int {
    c as int - 48
}

/// The hour named by a four-character time text.
pub open spec fn text_hour(s: Seq<char>) -> int {
    10 * digit_val(s[0]) + digit_val(s[1])
}

/// The minute named by a four-character time text.
pub open spec fn text_minute(s: Seq<char>) -> int {
    10 * digit_val(s[2]) + digit_val(s[3])
}

/// A time text is valid when it is exactly four decimal digits "HHMM" with
/// the hour at most 23 and the minute at most 59.
pub open spec fn valid_time_text(s: Seq<char>) -> bool {
    &&& s.len() == 4
    &&& forall|i: int| 0 <= i < 4 ==> is_digit_char(#[trigger] s[i])
    &&& text_hour(s) <= 23
    &&& text_minute(s) <= 59
}

/// The digit value of `c`, or `None` when `c` is not a decimal digit.
fn digit_of(c: char) -> (r: Option<u8>)
    ensures
        is_digit_char(c) ==> r == Some((digit_val(c) as u8)),
        !is_digit_char(c) ==> r is None,
{
    let v: u32 = c as u32;
    if 48 <= v && v <= 57 {
        Some((v - 48) as u8)
    } else {
        None
    }
}

/// Parses a four-digit "HHMM" time text into a target time of day.
///
/// Exactly the valid texts parse; every malformed or out-of-range text is
/// rejected with the validation error, and a valid text yields exactly the
/// hour and minute its digits name.
pub fn parse_time_of_day(s: &str) -> (r: Result<TimeOfDay, IClassError>)
    ensures
        valid_time_text(s@) ==> (r matches Ok(t) && t.wf() && t.hour == text_hour(s@)
            && t.minute == text_minute(s@)),
        !valid_time_text(s@) ==> r == Err::<TimeOfDay, IClassError>(IClassError::InvalidTime),
{
    let n: usize = s.unicode_len();
    if n != 4 {
        return Err(IClassError::InvalidTime);
    }
    let d0 = match digit_of(s.get_char(0)) {
        Some(d) => d,
        None => {
            return Err(IClassError::InvalidTime);
        },
    };
    let d1 = match digit_of(s.get_char(1)) {
        Some(d) => d,
        None => {
            return Err(IClassError::InvalidTime);
        },
    };
    let d2 = match digit_of(s.get_char(2)) {
        Some(d) => d,
        None => {
            return Err(IClassError::InvalidTime);
        },
    };
    let d3 = match digit_of(s.get_char(3)) {
        Some(d) => d,
        None => {
            return Err(IClassError::InvalidTime);
        },
    };
    let hour: u8 = 10 * d0 + d1;
    let minute: u8 = 10 * d2 + d3;
    if hour > 23 || minute > 59 {
        return Err(IClassError::InvalidTime);
    }
    Ok(TimeOfDay { hour, minute })
}

/// Law: the deadline derived from a well-formed target lands on exactly the
/// target's hour and minute, at zero seconds past the minute.
pub proof fn lemma_target_second_exact(t: TimeOfDay)
    requires
        t.wf(),
    ensures
        t.spec_second_of_day() / 3600 == t.hour,
        (t.spec_second_of_day() % 3600) / 60 == t.minute,
        t.spec_second_of_day() % 60 == 0,
{
    let h = t.hour as int;
    let m = t.minute as int;
    assert((h * 3600 + m * 60) / 3600 == h) by (nonlinear_arith)
        requires 0 <= h && 0 <= m < 60;
    assert((h * 3600 + m * 60) % 3600 == m * 60) by (nonlinear_arith)
        requires 0 <= h && 0 <= m < 60;
    assert((m * 60) / 60 == m) by (nonlinear_arith)
        requires 0 <= m;
    assert((h * 3600 + m * 60) % 60 == 0) by (nonlinear_arith)
        requires 0 <= h && 0 <= m;
}

/// Relies on `time::OffsetDateTime::now_utc`, `time::UtcOffset::from_hms`
/// and `time::OffsetDateTime::to_offset` for the current wall-clock time in
/// the fixed UTC+8 offset. Of the reading itself nothing can be promised;
/// every reading is a well-formed time of day.
#[verifier::external_body]
pub(crate) fn now_clock_utc8() -> (r: ClockTime)
    ensures
        r.wf(),
{
    let offset = time::UtcOffset::from_hms(8, 0, 0).unwrap();
    let now = time::OffsetDateTime::now_utc().to_offset(offset);
    ClockTime { hour: now.hour(), minute: now.minute(), second: now.second() }
}

} // verus!
