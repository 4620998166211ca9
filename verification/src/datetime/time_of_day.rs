//! The time of day.

use crate::error::{ParseError, TimeError};
use crate::filter::Operand;
use vstd::prelude::*;

verus! {

/// Microseconds in a day.
pub const DAY_MICROS: i64 = 86_400_000_000;

pub const HOUR_MICROS: i64 = 3_600_000_000;

pub const MINUTE_MICROS: i64 = 60_000_000;

pub const SECOND_MICROS: i64 = 1_000_000;

/// With hours, minutes, seconds and a fraction of a second.
pub const FULL: &'static str = "[hour]:[minute]:[second].[subsecond]";

/// With hours, minutes and seconds.
pub const SECONDS: &'static str = "[hour]:[minute]:[second]";

/// With hours and minutes.
pub const MINUTES: &'static str = "[hour]:[minute]";

/// The parts of a time of day: hour, minute, second and nanosecond.
pub struct TimeView {
    pub hour: int,
    pub minute: int,
    pub second: int,
    pub nanosecond: int,
}

impl TimeView {
    /// Whether the parts are those of a time of day.
    pub open spec fn valid(self) -> bool {
        &&& 0 <= self.hour < 24
        &&& 0 <= self.minute < 60
        &&& 0 <= self.second < 60
        &&& 0 <= self.nanosecond < 1_000_000_000
    }

    /// Whole microseconds since midnight.
    pub open spec fn micros(self) -> int {
        self.hour * 3_600_000_000 + self.minute * 60_000_000 + self.second * 1_000_000
            + self.nanosecond / 1000
    }

    /// Nanoseconds since midnight.
    pub open spec fn nanos(self) -> int {
        (self.hour * 3600 + self.minute * 60 + self.second) * 1_000_000_000 + self.nanosecond
    }
}

/// The time of day that lies `micros` microseconds after midnight, where
/// `0 <= micros` and `micros` is less than a day.
pub open spec fn time_at(micros: int) -> TimeView {
    TimeView {
        hour: micros / 3_600_000_000,
        minute: (micros % 3_600_000_000) / 60_000_000,
        second: (micros % 60_000_000) / 1_000_000,
        nanosecond: (micros % 1_000_000) * 1000,
    }
}

/// The parts of the time of day that the time crate reads from `input`
/// under a format description, if it reads one.
pub uninterp spec fn time_reading(input: Seq<char>, description: Seq<char>) -> Option<
    (u8, u8, u8, u32),
>;

/// The text that the time crate writes for a time of day under a format
/// description, if it writes one.
pub uninterp spec fn time_text(
    hour: u8,
    minute: u8,
    second: u8,
    nanosecond: u32,
    description: Seq<char>,
) -> Option<Seq<char>>;

/// Calls `time::format_description::parse_borrowed::<1>` on the description
/// and `time::Time::parse` on the input, and takes the parts of the result
/// by `as_hms_nano`. The parts are named, not stated; that they lie in the
/// ranges of a time of day is how `time::Time` holds them. A description
/// that the crate turns down reads nothing.
#[verifier::external_body]
fn parse_time(input: &str, description: &str) -> (r: Result<(u8, u8, u8, u32), TimeError>)
    ensures
        match r {
            Ok(parts) => time_reading(input@, description@) == Some(parts) && parts.0 < 24
                && parts.1 < 60 && parts.2 < 60 && parts.3 < 1_000_000_000,
            Err(_) => time_reading(input@, description@) is None,
        },
{
    let items = ::time::format_description::parse_borrowed::<1>(description)
        .map_err(|e| TimeError { message: ::time::Error::from(e).to_string() })?;
    ::time::Time::parse(input, &items)
        .map(|t| t.as_hms_nano())
        .map_err(|e| TimeError { message: ::time::Error::from(e).to_string() })
}

/// Calls `time::Time::from_hms_nano`, `parse_borrowed::<1>` on the
/// description and `time::Time::format`. The text is named, not stated.
#[verifier::external_body]
fn format_time(hour: u8, minute: u8, second: u8, nanosecond: u32, description: &str) -> (r: Option<
    String,
>)
    requires
        hour < 24,
        minute < 60,
        second < 60,
        nanosecond < 1_000_000_000,
    ensures
        match r {
            Some(text) => time_text(hour, minute, second, nanosecond, description@) == Some(text@),
            None => time_text(hour, minute, second, nanosecond, description@) is None,
        },
{
    let time = ::time::Time::from_hms_nano(hour, minute, second, nanosecond).ok()?;
    let items = ::time::format_description::parse_borrowed::<1>(description).ok()?;
    time.format(&items).ok()
}

/// A time of day.
#[derive(Debug, Clone, Copy, PartialEq, Eq, PartialOrd, Ord)]
pub struct Time {
    hour: u8,
    minute: u8,
    second: u8,
    nanosecond: u32,
}

impl View for Time {
    type V = TimeView;

    closed spec fn view(&self) -> TimeView {
        TimeView {
            hour: self.hour as int,
            minute: self.minute as int,
            second: self.second as int,
            nanosecond: self.nanosecond as int,
        }
    }
}

/// What a text reads as: with a fraction of a second if it has one, else
/// with seconds if it has them, else with hours and minutes alone.
pub open spec fn time_of(s: Seq<char>) -> Option<(u8, u8, u8, u32)> {
    match time_reading(s, FULL@) {
        Some(parts) => Some(parts),
        None => match time_reading(s, SECONDS@) {
            Some(parts) => Some(parts),
            None => time_reading(s, MINUTES@),
        },
    }
}

/// The parts of a time of day, each in its own type.
pub open spec fn parts_of(t: TimeView) -> (u8, u8, u8, u32) {
    (t.hour as u8, t.minute as u8, t.second as u8, t.nanosecond as u32)
}

impl Time {
    #[verifier::type_invariant]
    spec fn inv(self) -> bool {
        self.hour < 24 && self.minute < 60 && self.second < 60 && self.nanosecond < 1_000_000_000
    }

    /// Midnight.
    pub fn midnight() -> (r: Time)
        ensures
            r@ == (TimeView { hour: 0, minute: 0, second: 0, nanosecond: 0 }),
    {
        Time { hour: 0, minute: 0, second: 0, nanosecond: 0 }
    }

    /// The time of day with the given parts, if they are those of one.
    pub fn from_hms_nano(hour: u8, minute: u8, second: u8, nanosecond: u32) -> (r: Option<Time>)
        ensures
            match r {
                Some(t) => t@ == (TimeView {
                    hour: hour as int,
                    minute: minute as int,
                    second: second as int,
                    nanosecond: nanosecond as int,
                }),
                None => hour >= 24 || minute >= 60 || second >= 60 || nanosecond >= 1_000_000_000,
            },
    {
        if hour < 24 && minute < 60 && second < 60 && nanosecond < 1_000_000_000 {
            Some(Time { hour, minute, second, nanosecond })
        } else {
            None
        }
    }

    /// The time of day with parts that are known to be those of one.
    pub(crate) fn of_parts(parts: (u8, u8, u8, u32)) -> (r: Time)
        requires
            parts.0 < 24,
            parts.1 < 60,
            parts.2 < 60,
            parts.3 < 1_000_000_000,
        ensures
            parts_of(r@) == parts,
    {
        Time { hour: parts.0, minute: parts.1, second: parts.2, nanosecond: parts.3 }
    }

    pub fn hour(&self) -> (r: u8)
        ensures
            r == self@.hour,
    {
        self.hour
    }

    pub fn minute(&self) -> (r: u8)
        ensures
            r == self@.minute,
    {
        self.minute
    }

    pub fn second(&self) -> (r: u8)
        ensures
            r == self@.second,
    {
        self.second
    }

    pub fn nanosecond(&self) -> (r: u32)
        ensures
            r == self@.nanosecond,
    {
        self.nanosecond
    }

    /// The fraction of the second, in whole microseconds.
    pub fn microsecond(&self) -> (r: u32)
        ensures
            r == self@.nanosecond / 1000,
    {
        self.nanosecond / 1000
    }

    /// The time of day as the database holds it: whole microseconds since
    /// midnight.
    pub fn to_sql(&self) -> (r: i64)
        ensures
            self@.valid(),
            r == self@.micros(),
            0 <= r < DAY_MICROS,
    {
        proof {
            use_type_invariant(self);
        }
        let micros: i64 = self.hour as i64 * 3600 * 1_000_000 + self.minute as i64 * 60 * 1_000_000
            + self.second as i64 * 1_000_000 + (self.nanosecond / 1000) as i64;
        micros
    }

    /// The time of day that the database holds as `micros` microseconds
    /// since midnight. A count outside a day wraps around, forwards or
    /// backwards.
    pub fn from_sql(micros: i64) -> (r: Time)
        ensures
            r@ == time_at(micros as int % (DAY_MICROS as int)),
    {
        let within: i64 = if micros >= 0 {
            micros % DAY_MICROS
        } else {
            let back: i64 = (-(micros + 1)) % DAY_MICROS;
            assert((micros as int) % (DAY_MICROS as int) == DAY_MICROS - 1 - back) by {
                let d = DAY_MICROS as int;
                let m = micros as int;
                let q = (-(m + 1)) / d;
                assert(-(m + 1) == q * d + back) by {
                    vstd::arithmetic::div_mod::lemma_fundamental_div_mod(-(m + 1), d);
                }
                assert(m == (-q - 1) * d + (d - 1 - back)) by (nonlinear_arith)
                    requires
                        -(m + 1) == q * d + back,
                ;
                vstd::arithmetic::div_mod::lemma_fundamental_div_mod_converse(
                    m,
                    d,
                    -q - 1,
                    d - 1 - back,
                );
            }
            DAY_MICROS - 1 - back
        };
        let hour: i64 = within / HOUR_MICROS;
        let minute: i64 = (within % HOUR_MICROS) / MINUTE_MICROS;
        let second: i64 = (within % MINUTE_MICROS) / SECOND_MICROS;
        let micro: i64 = within % SECOND_MICROS;
        Time {
            hour: hour as u8,
            minute: minute as u8,
            second: second as u8,
            nanosecond: (micro * 1000) as u32,
        }
    }

    /// Reads a time of day: with a fraction of a second if the text has
    /// one, else with seconds if it has them, else with hours and minutes
    /// alone.
    pub fn from_str(s: &str) -> (r: Result<Time, TimeError>)
        ensures
            match r {
                Ok(t) => time_of(s@) == Some(parts_of(t@)),
                Err(_) => time_of(s@) is None,
            },
    {
        let parts = match parse_time(s, FULL) {
            Ok(parts) => parts,
            Err(_) => match parse_time(s, SECONDS) {
                Ok(parts) => parts,
                Err(_) => match parse_time(s, MINUTES) {
                    Ok(parts) => parts,
                    Err(e) => {
                        return Err(e);
                    },
                },
            },
        };
        Ok(Time { hour: parts.0, minute: parts.1, second: parts.2, nanosecond: parts.3 })
    }

    /// Reads a time of day from the value of a form field.
    pub fn from_value(value: &str) -> (r: Result<Time, TimeError>)
        ensures
            match r {
                Ok(t) => time_of(value@) == Some(parts_of(t@)),
                Err(_) => time_of(value@) is None,
            },
    {
        Time::from_str(value)
    }

    /// The format in which a time of day is written out: without a fraction
    /// where it has no whole microsecond, with one where it has.
    pub open spec fn written_as(t: TimeView) -> Seq<char> {
        if t.nanosecond / 1000 == 0 {
            SECONDS@
        } else {
            FULL@
        }
    }

    /// The text by which a time of day is written out; none where the time
    /// crate writes none.
    pub fn serialize(&self) -> (r: Option<String>)
        ensures
            match r {
                Some(text) => time_text(
                    parts_of(self@).0,
                    parts_of(self@).1,
                    parts_of(self@).2,
                    parts_of(self@).3,
                    Time::written_as(self@),
                ) == Some(text@),
                None => time_text(
                    parts_of(self@).0,
                    parts_of(self@).1,
                    parts_of(self@).2,
                    parts_of(self@).3,
                    Time::written_as(self@),
                ) is None,
            },
    {
        proof {
            use_type_invariant(self);
        }
        if self.microsecond() == 0 {
            format_time(self.hour, self.minute, self.second, self.nanosecond, SECONDS)
        } else {
            format_time(self.hour, self.minute, self.second, self.nanosecond, FULL)
        }
    }
}

impl Operand for Time {
    open spec fn accepts(text: Seq<char>) -> bool {
        time_of(text) is Some
    }

    open spec fn denotes(text: Seq<char>, value: Time) -> bool {
        time_of(text) == Some(parts_of(value@))
    }

    fn parse_operand(text: &str) -> (r: Result<Time, ParseError>) {
        match Time::from_str(text) {
            Ok(t) => Ok(t),
            Err(e) => Err(ParseError::TimeError(e)),
        }
    }
}

/// Writing a time of day for the database and reading it back gives the
/// time of day again, but for what lies below the microsecond.
pub proof fn lemma_time_round_trip(t: TimeView)
    requires
        t.valid(),
    ensures
        0 <= t.micros() < DAY_MICROS,
        time_at(t.micros() % (DAY_MICROS as int)) == (TimeView {
            nanosecond: (t.nanosecond / 1000) * 1000,
            ..t
        }),
{
    let m = t.micros();
    let us = t.nanosecond / 1000;
    assert(0 <= us < 1_000_000);
    assert(m % 86_400_000_000 == m);
    assert(m / 3_600_000_000 == t.hour);
    assert(m % 3_600_000_000 == t.minute * 60_000_000 + t.second * 1_000_000 + us);
    assert((m % 3_600_000_000) / 60_000_000 == t.minute);
    assert(m % 60_000_000 == t.second * 1_000_000 + us);
    assert((m % 60_000_000) / 1_000_000 == t.second);
    assert(m % 1_000_000 == us);
}

} // verus!
