//! A date with a time of day and an offset from UTC.

use crate::datetime::date::{is_date, Date};
use crate::datetime::primitive_date_time::{
    day_at, micros_from_epoch, micros_since_epoch, PrimitiveDateTime,
};
use crate::datetime::time_of_day::{parts_of, time_at, Time, DAY_MICROS};
use crate::error::{ParseError, TimeError};
use crate::filter::Operand;
use vstd::prelude::*;

verus! {

/// The parts of the date and time that the time crate reads from `input` as
/// RFC 3339, if it reads one: the Julian day, then hour, minute, second and
/// nanosecond, then the offset in seconds east of UTC.
pub uninterp spec fn offset_reading(input: Seq<char>) -> Option<(i32, (u8, u8, u8, u32), i32)>;

/// The text that the time crate writes as RFC 3339 for a date and time at
/// an offset, if it writes one.
pub uninterp spec fn offset_text(
    julian_day: i32,
    hour: u8,
    minute: u8,
    second: u8,
    nanosecond: u32,
    offset: i32,
) -> Option<Seq<char>>;

/// Calls `time::OffsetDateTime::parse` with `Rfc3339`, and takes the parts
/// of the result by `to_julian_day`, `time().as_hms_nano` and
/// `offset().whole_seconds`. The parts are named, not stated; that they are
/// those of a date and of a time of day is how the crate holds them.
#[verifier::external_body]
fn parse_offset(input: &str) -> (r: Result<(i32, (u8, u8, u8, u32), i32), TimeError>)
    ensures
        match r {
            Ok(parts) => offset_reading(input@) == Some(parts) && is_date(parts.0) && parts.1.0
                < 24 && parts.1.1 < 60 && parts.1.2 < 60 && parts.1.3 < 1_000_000_000,
            Err(_) => offset_reading(input@) is None,
        },
{
    ::time::OffsetDateTime::parse(input, &::time::format_description::well_known::Rfc3339)
        .map(|o| (o.to_julian_day(), o.time().as_hms_nano(), o.offset().whole_seconds()))
        .map_err(|e| TimeError { message: ::time::Error::from(e).to_string() })
}

/// Puts a `time::OffsetDateTime` together by `time::Date::from_julian_day`,
/// `time::Time::from_hms_nano`, `time::UtcOffset::from_whole_seconds` and
/// `time::PrimitiveDateTime::assume_offset`, and calls its `format` with
/// `Rfc3339`. The text is named, not stated.
#[verifier::external_body]
fn format_offset(
    julian_day: i32,
    hour: u8,
    minute: u8,
    second: u8,
    nanosecond: u32,
    offset: i32,
) -> (r: Option<String>)
    ensures
        match r {
            Some(text) => offset_text(julian_day, hour, minute, second, nanosecond, offset) == Some(
                text@,
            ),
            None => offset_text(julian_day, hour, minute, second, nanosecond, offset) is None,
        },
{
    let date = ::time::Date::from_julian_day(julian_day).ok()?;
    let time = ::time::Time::from_hms_nano(hour, minute, second, nanosecond).ok()?;
    let offset = ::time::UtcOffset::from_whole_seconds(offset).ok()?;
    ::time::PrimitiveDateTime::new(date, time)
        .assume_offset(offset)
        .format(&::time::format_description::well_known::Rfc3339)
        .ok()
}

/// A date with a time of day, at an offset in seconds east of UTC.
#[derive(Debug, Clone, Copy)]
pub struct OffsetDateTime {
    pub date: Date,
    pub time: Time,
    pub offset: i32,
}

impl OffsetDateTime {
    /// The instant as the database holds it: whole microseconds since
    /// midnight of 1 January 2000 at offset zero, where that count fits.
    pub fn to_sql(&self) -> (r: Option<i64>)
        ensures
            match r {
                Some(micros) => micros == micros_since_epoch(
                    self.date@ as int,
                    self.time@,
                    self.offset as int,
                ),
                None => micros_since_epoch(self.date@ as int, self.time@, self.offset as int)
                    < i64::MIN || micros_since_epoch(
                    self.date@ as int,
                    self.time@,
                    self.offset as int,
                ) > i64::MAX,
            },
    {
        micros_from_epoch(&self.date, &self.time, self.offset)
    }

    /// The instant that the database holds as `micros` microseconds since
    /// midnight of 1 January 2000, at offset zero.
    pub fn from_sql(micros: i64) -> (r: OffsetDateTime)
        requires
            PrimitiveDateTime::reachable(micros),
        ensures
            r.date@ == day_at(micros as int),
            r.time@ == time_at(micros as int % (DAY_MICROS as int)),
            r.offset == 0,
    {
        let at = PrimitiveDateTime::from_sql(micros);
        OffsetDateTime { date: at.date, time: at.time, offset: 0 }
    }

    /// The instant that the database holds as a count of microseconds, if
    /// the count leads to a date.
    pub fn try_from_sql(micros: i64) -> (r: Option<OffsetDateTime>)
        ensures
            match r {
                Some(o) => PrimitiveDateTime::reachable(micros) && o.date@ == day_at(micros as int)
                    && o.time@ == time_at(micros as int % (DAY_MICROS as int)) && o.offset == 0,
                None => !PrimitiveDateTime::reachable(micros),
            },
    {
        if PrimitiveDateTime::reaches(micros) {
            Some(OffsetDateTime::from_sql(micros))
        } else {
            None
        }
    }

    /// Reads a date and time with its offset, written as RFC 3339.
    pub fn from_str(s: &str) -> (r: Result<OffsetDateTime, TimeError>)
        ensures
            match r {
                Ok(o) => offset_reading(s@) == Some((o.date@, parts_of(o.time@), o.offset)),
                Err(_) => offset_reading(s@) is None,
            },
    {
        let parts = match parse_offset(s) {
            Ok(parts) => parts,
            Err(e) => {
                return Err(e);
            },
        };
        let date = Date::of_day(parts.0);
        let time = Time::of_parts(parts.1);
        Ok(OffsetDateTime { date, time, offset: parts.2 })
    }

    /// Reads a date and time with its offset from the value of a form
    /// field.
    pub fn from_value(value: &str) -> (r: Result<OffsetDateTime, TimeError>)
        ensures
            match r {
                Ok(o) => offset_reading(value@) == Some((o.date@, parts_of(o.time@), o.offset)),
                Err(_) => offset_reading(value@) is None,
            },
    {
        OffsetDateTime::from_str(value)
    }

    /// The text by which the instant is written out, as RFC 3339; none
    /// where the time crate writes none.
    pub fn serialize(&self) -> (r: Option<String>)
        ensures
            match r {
                Some(text) => offset_text(
                    self.date@,
                    parts_of(self.time@).0,
                    parts_of(self.time@).1,
                    parts_of(self.time@).2,
                    parts_of(self.time@).3,
                    self.offset,
                ) == Some(text@),
                None => offset_text(
                    self.date@,
                    parts_of(self.time@).0,
                    parts_of(self.time@).1,
                    parts_of(self.time@).2,
                    parts_of(self.time@).3,
                    self.offset,
                ) is None,
            },
    {
        format_offset(
            self.date.to_julian_day(),
            self.time.hour(),
            self.time.minute(),
            self.time.second(),
            self.time.nanosecond(),
            self.offset,
        )
    }
}

impl Operand for OffsetDateTime {
    open spec fn accepts(text: Seq<char>) -> bool {
        offset_reading(text) is Some
    }

    open spec fn denotes(text: Seq<char>, value: OffsetDateTime) -> bool {
        offset_reading(text) == Some((value.date@, parts_of(value.time@), value.offset))
    }

    fn parse_operand(text: &str) -> (r: Result<OffsetDateTime, ParseError>) {
        match OffsetDateTime::from_str(text) {
            Ok(o) => Ok(o),
            Err(e) => Err(ParseError::TimeError(e)),
        }
    }
}

} // verus!
