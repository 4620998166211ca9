//! A date with a time of day, without a place on the globe.

use crate::datetime::date::{is_date, valid_date, Date, PG_EPOCH_DAY};
use crate::datetime::time_of_day::{parts_of, time_at, Time, TimeView, DAY_MICROS};
use crate::error::{ParseError, TimeError};
use crate::filter::Operand;
use vstd::prelude::*;

verus! {

/// The whole microseconds from midnight of 1 January 2000, at offset zero,
/// to the time of day `t` of the day `julian_day` at `offset` seconds east:
/// the distance in nanoseconds, with what lies below the microsecond cut
/// off towards zero.
pub open spec fn micros_since_epoch(julian_day: int, t: TimeView, offset: int) -> int {
    let seconds = (julian_day - PG_EPOCH_DAY) * 86_400 + t.hour * 3600 + t.minute * 60 + t.second
        - offset;
    seconds * 1_000_000 + t.nanosecond / 1000 + if seconds < 0 && t.nanosecond % 1000 != 0 {
        1int
    } else {
        0int
    }
}

/// The day on which the instant `micros` microseconds after midnight of 1
/// January 2000 falls, as a Julian day.
pub open spec fn day_at(micros: int) -> int {
    PG_EPOCH_DAY + micros / (DAY_MICROS as int)
}

/// The whole microseconds from the epoch of the database to a time of day
/// on a day at an offset, where the count fits.
pub(crate) fn micros_from_epoch(date: &Date, time: &Time, offset: i32) -> (r: Option<i64>)
    ensures
        match r {
            Some(micros) => micros == micros_since_epoch(date@ as int, time@, offset as int),
            None => micros_since_epoch(date@ as int, time@, offset as int) < i64::MIN
                || micros_since_epoch(date@ as int, time@, offset as int) > i64::MAX,
        },
{
    let day: i128 = date.to_julian_day() as i128;
    let hour = time.hour();
    let minute = time.minute();
    let second = time.second();
    let nanosecond = time.nanosecond();
    let of_day = time.to_sql();
    let seconds: i128 = (day - PG_EPOCH_DAY as i128) * 86_400 + hour as i128 * 3600 + minute as i128
        * 60 + second as i128 - offset as i128;
    let carry: i128 = if seconds < 0 && nanosecond % 1000 != 0 {
        1
    } else {
        0
    };
    let micros: i128 = seconds * 1_000_000 + (nanosecond / 1000) as i128 + carry;
    if micros < i64::MIN as i128 || micros > i64::MAX as i128 {
        None
    } else {
        Some(micros as i64)
    }
}

/// The count of days that `micros` microseconds come to, rounded down.
pub(crate) fn days_in(micros: i64) -> (r: i64)
    ensures
        r == (micros as int) / (DAY_MICROS as int),
{
    if micros >= 0 {
        micros / DAY_MICROS
    } else {
        let back: i64 = (-(micros + 1)) / DAY_MICROS;
        assert((micros as int) / (DAY_MICROS as int) == -back - 1) by {
            let d = DAY_MICROS as int;
            let m = micros as int;
            let rem = (-(m + 1)) % d;
            assert(-(m + 1) == back * d + rem) by {
                vstd::arithmetic::div_mod::lemma_fundamental_div_mod(-(m + 1), d);
            }
            assert(m == (-back - 1) * d + (d - 1 - rem)) by (nonlinear_arith)
                requires
                    -(m + 1) == back * d + rem,
            ;
            vstd::arithmetic::div_mod::lemma_fundamental_div_mod_converse(
                m,
                d,
                -back - 1,
                d - 1 - rem,
            );
        }
        -back - 1
    }
}

/// The parts of the date and time that the time crate reads from `input` as
/// RFC 3339 without regard to the offset, if it reads one: the Julian day,
/// then hour, minute, second and nanosecond.
pub uninterp spec fn primitive_reading(input: Seq<char>) -> Option<(i32, (u8, u8, u8, u32))>;

/// Calls `time::PrimitiveDateTime::parse` with `Rfc3339`, and takes the
/// parts of the result by `to_julian_day` and `as_hms_nano`. The parts are
/// named, not stated; that they are those of a date and of a time of day is
/// how the crate holds them.
#[verifier::external_body]
fn parse_primitive(input: &str) -> (r: Result<(i32, (u8, u8, u8, u32)), TimeError>)
    ensures
        match r {
            Ok(parts) => primitive_reading(input@) == Some(parts) && is_date(parts.0) && parts.1.0
                < 24 && parts.1.1 < 60 && parts.1.2 < 60 && parts.1.3 < 1_000_000_000,
            Err(_) => primitive_reading(input@) is None,
        },
{
    ::time::PrimitiveDateTime::parse(
        input,
        &::time::format_description::well_known::Rfc3339,
    )
        .map(|p| (p.to_julian_day(), p.as_hms_nano()))
        .map_err(|e| TimeError { message: ::time::Error::from(e).to_string() })
}

/// A date with a time of day. Where a column can hold it, a date and time
/// with an offset is the better choice.
#[derive(Debug, Clone, Copy, PartialEq, Eq, PartialOrd, Ord)]
pub struct PrimitiveDateTime {
    pub date: Date,
    pub time: Time,
}

/// The first instant that the database counts from: midnight of 1 January
/// 2000.
pub fn pg_epoch() -> (r: PrimitiveDateTime)
    ensures
        r.date@ == PG_EPOCH_DAY,
        r.time@ == (TimeView { hour: 0, minute: 0, second: 0, nanosecond: 0 }),
{
    let known = valid_date(PG_EPOCH_DAY);
    PrimitiveDateTime { date: Date::of_day(PG_EPOCH_DAY), time: Time::midnight() }
}

impl PrimitiveDateTime {
    /// The date and time as the database holds it: whole microseconds since
    /// midnight of 1 January 2000, where that count fits.
    pub fn to_sql(&self) -> (r: Option<i64>)
        ensures
            match r {
                Some(micros) => micros == micros_since_epoch(self.date@ as int, self.time@, 0),
                None => micros_since_epoch(self.date@ as int, self.time@, 0) < i64::MIN
                    || micros_since_epoch(self.date@ as int, self.time@, 0) > i64::MAX,
            },
    {
        micros_from_epoch(&self.date, &self.time, 0)
    }

    /// Whether a count of microseconds since midnight of 1 January 2000
    /// leads to a day that is a date.
    pub open spec fn reachable(micros: i64) -> bool {
        i32::MIN <= day_at(micros as int) <= i32::MAX && is_date(day_at(micros as int) as i32)
    }

    /// The date and time that the database holds as `micros` microseconds
    /// since midnight of 1 January 2000.
    pub fn from_sql(micros: i64) -> (r: PrimitiveDateTime)
        requires
            PrimitiveDateTime::reachable(micros),
        ensures
            r.date@ == day_at(micros as int),
            r.time@ == time_at(micros as int % (DAY_MICROS as int)),
    {
        let day: i64 = PG_EPOCH_DAY as i64 + days_in(micros);
        PrimitiveDateTime { date: Date::of_day(day as i32), time: Time::from_sql(micros) }
    }

    /// Whether a count of microseconds leads to a day that is a date.
    pub fn reaches(micros: i64) -> (r: bool)
        ensures
            r == PrimitiveDateTime::reachable(micros),
    {
        let day: i64 = PG_EPOCH_DAY as i64 + days_in(micros);
        if day < i32::MIN as i64 || day > i32::MAX as i64 {
            false
        } else {
            valid_date(day as i32)
        }
    }

    /// The date and time that the database holds as a count of
    /// microseconds, if the count leads to a date.
    pub fn try_from_sql(micros: i64) -> (r: Option<PrimitiveDateTime>)
        ensures
            match r {
                Some(p) => PrimitiveDateTime::reachable(micros) && p.date@ == day_at(micros as int)
                    && p.time@ == time_at(micros as int % (DAY_MICROS as int)),
                None => !PrimitiveDateTime::reachable(micros),
            },
    {
        if PrimitiveDateTime::reaches(micros) {
            Some(PrimitiveDateTime::from_sql(micros))
        } else {
            None
        }
    }

    /// Reads a date and time written as RFC 3339.
    pub fn from_str(s: &str) -> (r: Result<PrimitiveDateTime, TimeError>)
        ensures
            match r {
                Ok(p) => primitive_reading(s@) == Some((p.date@, parts_of(p.time@))),
                Err(_) => primitive_reading(s@) is None,
            },
    {
        let parts = match parse_primitive(s) {
            Ok(parts) => parts,
            Err(e) => {
                return Err(e);
            },
        };
        let date = Date::of_day(parts.0);
        let time = Time::of_parts(parts.1);
        Ok(PrimitiveDateTime { date, time })
    }

    /// Reads a date and time from the value of a form field.
    pub fn from_value(value: &str) -> (r: Result<PrimitiveDateTime, TimeError>)
        ensures
            match r {
                Ok(p) => primitive_reading(value@) == Some((p.date@, parts_of(p.time@))),
                Err(_) => primitive_reading(value@) is None,
            },
    {
        PrimitiveDateTime::from_str(value)
    }
}

impl Operand for PrimitiveDateTime {
    open spec fn accepts(text: Seq<char>) -> bool {
        primitive_reading(text) is Some
    }

    open spec fn denotes(text: Seq<char>, value: PrimitiveDateTime) -> bool {
        primitive_reading(text) == Some((value.date@, parts_of(value.time@)))
    }

    fn parse_operand(text: &str) -> (r: Result<PrimitiveDateTime, ParseError>) {
        match PrimitiveDateTime::from_str(text) {
            Ok(p) => Ok(p),
            Err(e) => Err(ParseError::TimeError(e)),
        }
    }
}

/// A date and time on the microsecond that is written for the database and
/// read back is the same again.
pub proof fn lemma_primitive_round_trip(julian_day: int, t: TimeView)
    requires
        t.valid(),
        t.nanosecond % 1000 == 0,
    ensures
        day_at(micros_since_epoch(julian_day, t, 0)) == julian_day,
        time_at(micros_since_epoch(julian_day, t, 0) % (DAY_MICROS as int)) == t,
{
    let days = julian_day - PG_EPOCH_DAY;
    let m = t.micros();
    let total = micros_since_epoch(julian_day, t, 0);
    crate::datetime::time_of_day::lemma_time_round_trip(t);
    assert(total == days * 86_400_000_000 + m) by (nonlinear_arith)
        requires
            total == ((julian_day - PG_EPOCH_DAY) * 86_400 + t.hour * 3600 + t.minute * 60
                + t.second) * 1_000_000 + t.nanosecond / 1000,
            days == julian_day - PG_EPOCH_DAY,
            m == t.hour * 3_600_000_000 + t.minute * 60_000_000 + t.second * 1_000_000
                + t.nanosecond / 1000,
    ;
    vstd::arithmetic::div_mod::lemma_fundamental_div_mod_converse(
        total,
        DAY_MICROS as int,
        days,
        m,
    );
    assert((t.nanosecond / 1000) * 1000 == t.nanosecond);
}

} // verus!
