use rp1::datetime::primitive_date_time::pg_epoch;
use rp1::datetime::{Date, OffsetDateTime, PrimitiveDateTime, Time};
use rp1::filter::{FilterOperator, Operand};

fn time(h: u8, m: u8, s: u8, ns: u32) -> Time {
    Time::from_hms_nano(h, m, s, ns).expect("the parts are those of a time of day")
}

fn date(year: i32, month: u8, day: u8) -> Date {
    let month = time::Month::try_from(month).unwrap();
    let d = time::Date::from_calendar_date(year, month, day).unwrap();
    Date::from_julian_day(d.to_julian_day()).expect("the time crate has this date")
}

#[test]
fn a_time_of_day_is_read_in_three_forms() {
    assert_eq!(Time::from_str("12:34:56.789").ok(), Some(time(12, 34, 56, 789_000_000)));
    assert_eq!(Time::from_str("12:34:56").ok(), Some(time(12, 34, 56, 0)));
    assert_eq!(Time::from_str("12:34").ok(), Some(time(12, 34, 0, 0)));
    assert_eq!(Time::from_str("00:00").ok(), Some(Time::midnight()));
    assert_eq!(Time::from_value("23:59:59.999999999").ok(), Some(time(23, 59, 59, 999_999_999)));
    assert!(Time::from_str("24:00").is_err());
    assert!(Time::from_str("12:60").is_err());
    assert!(Time::from_str("12").is_err());
    assert!(Time::from_str("").is_err());
    assert!(Time::from_str("12:34:56.").is_err());
    assert!(Time::from_str("noon").is_err());
}

#[test]
fn parts_out_of_range_are_no_time_of_day() {
    assert!(Time::from_hms_nano(24, 0, 0, 0).is_none());
    assert!(Time::from_hms_nano(0, 60, 0, 0).is_none());
    assert!(Time::from_hms_nano(0, 0, 60, 0).is_none());
    assert!(Time::from_hms_nano(0, 0, 0, 1_000_000_000).is_none());
    let t = time(23, 59, 59, 999_999_999);
    assert_eq!((t.hour(), t.minute(), t.second(), t.nanosecond()), (23, 59, 59, 999_999_999));
    assert_eq!(t.microsecond(), 999_999);
}

#[test]
fn a_time_of_day_goes_to_the_database_in_microseconds() {
    assert_eq!(Time::midnight().to_sql(), 0);
    assert_eq!(time(1, 2, 3, 4_567).to_sql(), 3_723_000_004);
    assert_eq!(time(23, 59, 59, 999_999_999).to_sql(), 86_399_999_999);
    assert_eq!(time(12, 0, 0, 999).to_sql(), 43_200_000_000);
}

#[test]
fn a_time_of_day_comes_from_the_database_and_wraps() {
    assert_eq!(Time::from_sql(0), Time::midnight());
    assert_eq!(Time::from_sql(3_723_000_004), time(1, 2, 3, 4_000));
    assert_eq!(Time::from_sql(86_399_999_999), time(23, 59, 59, 999_999_000));
    assert_eq!(Time::from_sql(86_400_000_000), Time::midnight());
    assert_eq!(Time::from_sql(-1), time(23, 59, 59, 999_999_000));
    assert_eq!(Time::from_sql(-86_400_000_000), Time::midnight());
    assert_eq!(Time::from_sql(-86_400_000_001), time(23, 59, 59, 999_999_000));
    for micros in [i64::MIN, -5_000_000_123, 7, 90_000_000_000, i64::MAX] {
        let expected = time::Time::MIDNIGHT + time::Duration::microseconds(micros);
        let got = Time::from_sql(micros);
        assert_eq!(
            (got.hour(), got.minute(), got.second(), got.nanosecond()),
            expected.as_hms_nano(),
            "{} microseconds after midnight",
            micros
        );
    }
}

#[test]
fn a_time_of_day_is_written_with_a_fraction_only_where_it_has_one() {
    assert_eq!(time(12, 34, 56, 0).serialize().unwrap(), "12:34:56");
    assert_eq!(time(12, 34, 56, 999).serialize().unwrap(), "12:34:56");
    assert_eq!(time(12, 34, 56, 789_000_000).serialize().unwrap(), "12:34:56.789");
    assert_eq!(time(0, 0, 0, 1_000).serialize().unwrap(), "00:00:00.000001");
    let again = Time::from_str(&time(7, 8, 9, 120_000_000).serialize().unwrap()).ok();
    assert_eq!(again, Some(time(7, 8, 9, 120_000_000)));
}

#[test]
fn a_date_is_read_as_year_month_and_day() {
    assert_eq!(Date::from_str("2000-01-01").ok().unwrap().to_julian_day(), 2_451_545);
    assert_eq!(Date::from_str("2019-12-31").ok().unwrap().to_julian_day(), 2_458_849);
    assert_eq!(Date::from_value("2021-02-28").ok(), Some(date(2021, 2, 28)));
    assert!(Date::from_str("2021-02-29").is_err());
    assert!(Date::from_str("2021-13-01").is_err());
    assert!(Date::from_str("2021-1-1").is_err());
    assert!(Date::from_str("01/02/2021").is_err());
    assert!(Date::from_str("").is_err());
}

#[test]
fn a_date_is_written_as_year_month_and_day() {
    assert_eq!(date(2000, 1, 1).serialize().unwrap(), "2000-01-01");
    assert_eq!(date(1999, 12, 31).serialize().unwrap(), "1999-12-31");
    assert_eq!(Date::from_julian_day(2_458_485).unwrap().serialize().unwrap(), "2019-01-01");
}

#[test]
fn every_day_of_the_common_years_is_a_date() {
    assert_eq!(Date::from_julian_day(-1_930_999), Some(date(-9999, 1, 1)));
    assert_eq!(Date::from_julian_day(5_373_484), Some(date(9999, 12, 31)));
    assert_eq!(Date::from_julian_day(0), Some(date(-4713, 11, 24)));
    assert!(Date::from_julian_day(i32::MAX).is_none());
    assert!(Date::from_julian_day(i32::MIN).is_none());
}

#[test]
fn a_date_is_written_in_days_since_2001_and_read_in_days_since_2000() {
    assert_eq!(date(2001, 1, 1).to_sql(), Some(0));
    assert_eq!(date(2001, 1, 2).to_sql(), Some(1));
    assert_eq!(date(2000, 1, 1).to_sql(), Some(-366));
    assert_eq!(Date::try_from_sql(0), Some(date(2000, 1, 1)));
    assert_eq!(Date::try_from_sql(366), Some(date(2001, 1, 1)));
    assert_eq!(Date::try_from_sql(-1), Some(date(1999, 12, 31)));
    assert_eq!(Date::try_from_sql(i32::MAX), None);
    assert_eq!(Date::try_from_sql(i32::MIN), None);
    let written = date(2021, 6, 15).to_sql().unwrap();
    assert_eq!(Date::try_from_sql(written), Some(date(2020, 6, 14)));
    let expected = (time::Date::from_julian_day(2_459_381).unwrap()
        - time::Date::from_julian_day(2_451_911).unwrap())
    .whole_days();
    assert_eq!(written as i64, expected);
}

#[test]
fn the_database_counts_from_the_year_2000() {
    let epoch = pg_epoch();
    assert_eq!(epoch.date, date(2000, 1, 1));
    assert_eq!(epoch.time, Time::midnight());
    assert_eq!(epoch.to_sql(), Some(0));
}

#[test]
fn a_date_and_time_goes_to_the_database_in_microseconds() {
    let at = PrimitiveDateTime { date: date(2000, 1, 2), time: time(0, 0, 1, 500_000) };
    assert_eq!(at.to_sql(), Some(86_401_000_500));
    let at = PrimitiveDateTime { date: date(1999, 12, 31), time: time(23, 59, 59, 999_999_000) };
    assert_eq!(at.to_sql(), Some(-1));
    let at = PrimitiveDateTime { date: date(1999, 12, 31), time: time(23, 59, 59, 999_999_001) };
    assert_eq!(at.to_sql(), Some(0));
    let at = PrimitiveDateTime { date: date(1999, 12, 31), time: time(23, 59, 59, 999_998_999) };
    assert_eq!(at.to_sql(), Some(-1));
    let at = PrimitiveDateTime { date: date(2000, 1, 1), time: time(0, 0, 0, 999) };
    assert_eq!(at.to_sql(), Some(0));
    for (d, t) in [
        (date(1969, 7, 20), time(20, 17, 40, 123_456_789)),
        (date(2038, 1, 19), time(3, 14, 7, 999)),
        (date(-4000, 3, 1), time(0, 0, 0, 1)),
        (date(9999, 12, 31), time(23, 59, 59, 999_999_999)),
    ] {
        let theirs = time::PrimitiveDateTime::new(
            time::Date::from_julian_day(d.to_julian_day()).unwrap(),
            time::Time::from_hms_nano(t.hour(), t.minute(), t.second(), t.nanosecond()).unwrap(),
        );
        let epoch = time::PrimitiveDateTime::new(
            time::Date::from_julian_day(2_451_545).unwrap(),
            time::Time::MIDNIGHT,
        );
        let expected = i64::try_from((theirs - epoch).whole_microseconds()).ok();
        assert_eq!(PrimitiveDateTime { date: d, time: t }.to_sql(), expected);
    }
}

#[test]
fn a_date_and_time_comes_from_the_database() {
    let at = PrimitiveDateTime::try_from_sql(86_401_000_500).unwrap();
    assert_eq!(at, PrimitiveDateTime { date: date(2000, 1, 2), time: time(0, 0, 1, 500_000) });
    let at = PrimitiveDateTime::try_from_sql(-1).unwrap();
    assert_eq!(
        at,
        PrimitiveDateTime { date: date(1999, 12, 31), time: time(23, 59, 59, 999_999_000) }
    );
    let at = PrimitiveDateTime::try_from_sql(-86_400_000_000).unwrap();
    assert_eq!(at, PrimitiveDateTime { date: date(1999, 12, 31), time: Time::midnight() });
    assert_eq!(PrimitiveDateTime::try_from_sql(i64::MAX), None);
    assert_eq!(PrimitiveDateTime::try_from_sql(i64::MIN), None);
    let back = PrimitiveDateTime::try_from_sql(at.to_sql().unwrap());
    assert_eq!(back, Some(at));
}

#[test]
fn a_date_and_time_is_read_as_rfc_3339() {
    let at = PrimitiveDateTime::from_str("2021-06-15T12:30:45Z").ok().unwrap();
    assert_eq!(at, PrimitiveDateTime { date: date(2021, 6, 15), time: time(12, 30, 45, 0) });
    let at = PrimitiveDateTime::from_value("2021-06-15T12:30:45.5+02:00").ok().unwrap();
    assert_eq!(
        at,
        PrimitiveDateTime { date: date(2021, 6, 15), time: time(12, 30, 45, 500_000_000) }
    );
    assert!(PrimitiveDateTime::from_str("2021-06-15 12:30:45").is_err());
    assert!(PrimitiveDateTime::from_str("2021-06-15").is_err());
}

#[test]
fn an_instant_is_read_and_written_as_rfc_3339() {
    let at = OffsetDateTime::from_str("2021-06-15T12:30:45.25+02:00").ok().unwrap();
    assert_eq!(at.date, date(2021, 6, 15));
    assert_eq!(at.time, time(12, 30, 45, 250_000_000));
    assert_eq!(at.offset, 7200);
    assert_eq!(at.serialize().unwrap(), "2021-06-15T12:30:45.25+02:00");
    let at = OffsetDateTime::from_value("1999-12-31T23:59:59Z").ok().unwrap();
    assert_eq!(at.offset, 0);
    assert_eq!(at.serialize().unwrap(), "1999-12-31T23:59:59Z");
    assert!(OffsetDateTime::from_str("2021-06-15T12:30:45").is_err());
    let odd = OffsetDateTime { date: date(2021, 6, 15), time: Time::midnight(), offset: 100_000 };
    assert_eq!(odd.serialize(), None);
}

#[test]
fn an_instant_goes_to_the_database_in_microseconds_at_offset_zero() {
    let at = OffsetDateTime { date: date(2000, 1, 1), time: time(2, 0, 0, 0), offset: 7200 };
    assert_eq!(at.to_sql(), Some(0));
    let at = OffsetDateTime { date: date(2000, 1, 1), time: time(1, 59, 59, 999_999_500), offset: 7200 };
    assert_eq!(at.to_sql(), Some(0));
    let at = OffsetDateTime { date: date(2000, 1, 1), time: time(0, 0, 0, 0), offset: -3600 };
    assert_eq!(at.to_sql(), Some(3_600_000_000));
    for text in [
        "1969-07-20T20:17:40.123456789Z",
        "2038-01-19T03:14:07.000000999+05:30",
        "1999-12-31T23:59:59.999999999-01:00",
        "2000-01-01T00:00:00.000000001+00:01",
    ] {
        let theirs =
            time::OffsetDateTime::parse(text, &time::format_description::well_known::Rfc3339)
                .unwrap();
        let epoch = time::PrimitiveDateTime::new(
            time::Date::from_julian_day(2_451_545).unwrap(),
            time::Time::MIDNIGHT,
        )
        .assume_utc();
        let expected = i64::try_from((theirs - epoch).whole_microseconds()).ok();
        assert_eq!(OffsetDateTime::from_str(text).ok().unwrap().to_sql(), expected, "{}", text);
    }
}

#[test]
fn an_instant_comes_from_the_database_at_offset_zero() {
    let at = OffsetDateTime::try_from_sql(3_600_000_000).unwrap();
    assert_eq!(at.date, date(2000, 1, 1));
    assert_eq!(at.time, time(1, 0, 0, 0));
    assert_eq!(at.offset, 0);
    assert_eq!(at.to_sql(), Some(3_600_000_000));
    assert!(OffsetDateTime::try_from_sql(i64::MAX).is_none());
}

#[test]
fn dates_and_times_are_operands_of_filters() {
    let f: FilterOperator<Date> = FilterOperator::try_parse("ge", "2021-06-15").ok().unwrap();
    assert!(matches!(f, FilterOperator::Ge(d) if d == date(2021, 6, 15)));
    let f: FilterOperator<Time> = FilterOperator::try_parse("in", "12:00,13:30:15").ok().unwrap();
    match f {
        FilterOperator::EqAny(values) => {
            assert_eq!(values, vec![time(12, 0, 0, 0), time(13, 30, 15, 0)])
        }
        _ => panic!("in gives a list"),
    }
    assert!(PrimitiveDateTime::parse_operand("2021-06-15T12:30:45Z").is_ok());
    assert!(OffsetDateTime::parse_operand("2021-06-15T12:30:45Z").is_ok());
    let r: Result<FilterOperator<Date>, _> = FilterOperator::try_parse("eq", "yesterday");
    match r {
        Err(e) => assert!(e.message().starts_with("Could not parse date/time value: ")),
        Ok(_) => panic!("yesterday is no date"),
    }
}

#[test]
fn dates_and_times_are_ordered_as_they_follow_each_other() {
    assert!(date(1999, 12, 31) < date(2000, 1, 1));
    assert!(time(9, 59, 59, 999_999_999) < time(10, 0, 0, 0));
    assert!(time(10, 0, 0, 1) > time(10, 0, 0, 0));
    let early = PrimitiveDateTime { date: date(2000, 1, 1), time: time(23, 0, 0, 0) };
    let late = PrimitiveDateTime { date: date(2000, 1, 2), time: time(1, 0, 0, 0) };
    assert!(early < late);
}
