//! The calendar date.

use crate::error::{ParseError, TimeError};
use crate::filter::Operand;
use vstd::prelude::*;

verus! {

/// The Julian day of 1 January 2000, from which the database counts.
pub const PG_EPOCH_DAY: i32 = 2_451_545;

/// The Julian day of 1 January 2001, from which a date is counted when it
/// is written for the database.
pub const WRITE_EPOCH_DAY: i32 = 2_451_911;

/// The Julian day of 1 January of the year -9999.
pub const FIRST_COMMON_DAY: i32 = -1_930_999;

/// The Julian day of 31 December 9999.
pub const LAST_COMMON_DAY: i32 = 5_373_484;

/// Year, month and day.
pub const YEAR_MONTH_DAY: &'static str = "[year]-[month]-[day]";

/// Whether the time crate has a date with this Julian day.
pub uninterp spec fn is_date(julian_day: i32) -> bool;

/// The Julian day of the date that the time crate reads from `input` under
/// a format description, if it reads one.
pub uninterp spec fn date_reading(input: Seq<char>, description: Seq<char>) -> Option<i32>;

/// The text that the time crate writes for the date with a Julian day under
/// a format description, if it writes one.
pub uninterp spec fn date_text(julian_day: i32, description: Seq<char>) -> Option<Seq<char>>;

/// Calls `time::Date::from_julian_day` and says whether it gave a date. The
/// crate's dates reach at least from the year -9999 to the year 9999, so
/// every day between is one.
#[verifier::external_body]
pub(crate) fn valid_date(julian_day: i32) -> (r: bool)
    ensures
        r == is_date(julian_day),
        FIRST_COMMON_DAY <= julian_day <= LAST_COMMON_DAY ==> r,
{
    ::time::Date::from_julian_day(julian_day).is_ok()
}

/// Calls `time::format_description::parse_borrowed::<1>` on the description
/// and `time::Date::parse` on the input, and takes the Julian day of the
/// result by `to_julian_day`. The day is named, not stated.
#[verifier::external_body]
fn parse_date(input: &str, description: &str) -> (r: Result<i32, TimeError>)
    ensures
        match r {
            Ok(day) => date_reading(input@, description@) == Some(day) && is_date(day),
            Err(_) => date_reading(input@, description@) is None,
        },
{
    let items = ::time::format_description::parse_borrowed::<1>(description)
        .map_err(|e| TimeError { message: ::time::Error::from(e).to_string() })?;
    ::time::Date::parse(input, &items)
        .map(|d| d.to_julian_day())
        .map_err(|e| TimeError { message: ::time::Error::from(e).to_string() })
}

/// Calls `time::Date::from_julian_day`, `parse_borrowed::<1>` on the
/// description and `time::Date::format`. The text is named, not stated.
#[verifier::external_body]
fn format_date(julian_day: i32, description: &str) -> (r: Option<String>)
    ensures
        match r {
            Some(text) => date_text(julian_day, description@) == Some(text@),
            None => date_text(julian_day, description@) is None,
        },
{
    let date = ::time::Date::from_julian_day(julian_day).ok()?;
    let items = ::time::format_description::parse_borrowed::<1>(description).ok()?;
    date.format(&items).ok()
}

/// A calendar date, held as its Julian day.
#[derive(Debug, Clone, Copy, PartialEq, Eq, PartialOrd, Ord)]
pub struct Date {
    julian_day: i32,
}

impl View for Date {
    type V = i32;

    closed spec fn view(&self) -> i32 {
        self.julian_day
    }
}

impl Date {
    #[verifier::type_invariant]
    spec fn inv(self) -> bool {
        is_date(self.julian_day)
    }

    /// The date with a Julian day, if there is one.
    pub fn from_julian_day(julian_day: i32) -> (r: Option<Date>)
        ensures
            match r {
                Some(d) => d@ == julian_day && is_date(julian_day),
                None => !is_date(julian_day),
            },
    {
        if valid_date(julian_day) {
            Some(Date { julian_day })
        } else {
            None
        }
    }

    /// The date with a Julian day that is known to have one.
    pub(crate) fn of_day(julian_day: i32) -> (r: Date)
        requires
            is_date(julian_day),
        ensures
            r@ == julian_day,
    {
        Date { julian_day }
    }

    /// The Julian day of the date.
    pub fn to_julian_day(&self) -> (r: i32)
        ensures
            r == self@,
            is_date(r),
    {
        proof {
            use_type_invariant(self);
        }
        self.julian_day
    }

    /// The date as it is written for the database: in days since 1 January
    /// 2001, where that count fits.
    pub fn to_sql(&self) -> (r: Option<i32>)
        ensures
            match r {
                Some(days) => days == self@ - WRITE_EPOCH_DAY,
                None => self@ - WRITE_EPOCH_DAY < i32::MIN,
            },
    {
        let difference: i64 = self.julian_day as i64 - WRITE_EPOCH_DAY as i64;
        if difference < i32::MIN as i64 {
            None
        } else {
            Some(difference as i32)
        }
    }

    /// The date that the database holds as a count of days: so many days
    /// after 1 January 2000.
    pub fn from_sql(days: i32) -> (r: Date)
        requires
            i32::MIN <= PG_EPOCH_DAY + days <= i32::MAX,
            is_date((PG_EPOCH_DAY + days) as i32),
        ensures
            r@ == PG_EPOCH_DAY + days,
    {
        Date { julian_day: PG_EPOCH_DAY + days }
    }

    /// The date that the database holds as a count of days, if the count
    /// leads to a date.
    pub fn try_from_sql(days: i32) -> (r: Option<Date>)
        ensures
            match r {
                Some(d) => d@ == PG_EPOCH_DAY + days,
                None => PG_EPOCH_DAY + days > i32::MAX || !is_date((PG_EPOCH_DAY + days) as i32),
            },
    {
        if days > i32::MAX - PG_EPOCH_DAY {
            return None;
        }
        if valid_date(PG_EPOCH_DAY + days) {
            Some(Date::from_sql(days))
        } else {
            None
        }
    }

    /// Reads a date written as year, month and day.
    pub fn from_str(s: &str) -> (r: Result<Date, TimeError>)
        ensures
            match r {
                Ok(d) => date_reading(s@, YEAR_MONTH_DAY@) == Some(d@),
                Err(_) => date_reading(s@, YEAR_MONTH_DAY@) is None,
            },
    {
        match parse_date(s, YEAR_MONTH_DAY) {
            Ok(julian_day) => Ok(Date { julian_day }),
            Err(e) => Err(e),
        }
    }

    /// Reads a date from the value of a form field.
    pub fn from_value(value: &str) -> (r: Result<Date, TimeError>)
        ensures
            match r {
                Ok(d) => date_reading(value@, YEAR_MONTH_DAY@) == Some(d@),
                Err(_) => date_reading(value@, YEAR_MONTH_DAY@) is None,
            },
    {
        Date::from_str(value)
    }

    /// The text by which a date is written out, as year, month and day;
    /// none where the time crate writes none.
    pub fn serialize(&self) -> (r: Option<String>)
        ensures
            match r {
                Some(text) => date_text(self@, YEAR_MONTH_DAY@) == Some(text@),
                None => date_text(self@, YEAR_MONTH_DAY@) is None,
            },
    {
        format_date(self.julian_day, YEAR_MONTH_DAY)
    }
}

impl Operand for Date {
    open spec fn accepts(text: Seq<char>) -> bool {
        date_reading(text, YEAR_MONTH_DAY@) is Some
    }

    open spec fn denotes(text: Seq<char>, value: Date) -> bool {
        date_reading(text, YEAR_MONTH_DAY@) == Some(value@)
    }

    fn parse_operand(text: &str) -> (r: Result<Date, ParseError>) {
        match Date::from_str(text) {
            Ok(d) => Ok(d),
            Err(e) => Err(ParseError::TimeError(e)),
        }
    }
}

/// A date that is written for the database and read back comes out a year
/// of 366 days later: it is written in days since 2001 and read in days
/// since 2000.
pub proof fn lemma_date_round_trip_shift(day: i32, written: i32)
    requires
        written == day - WRITE_EPOCH_DAY,
    ensures
        PG_EPOCH_DAY + written == day - 366,
{
}

} // verus!
