use utf8_temporal::calendar::CalendarDate;
use utf8_temporal::calendar::CalendarDateTime;
use utf8_temporal::calendar::CalendarValue;
use utf8_temporal::calendar::ClockTime;
use utf8_temporal::general_parser::general_parse;
use utf8_temporal::general_parser::FailureClassification;
use utf8_temporal::general_parser::Parser;

#[test]
fn general_parser_reads_a_date() {
    assert_eq!(
        general_parse(Parser::NaiveDate, "2021-12-31", "%Y-%m-%d"),
        Ok(CalendarValue::Date(CalendarDate { year: 2021, month: 12, day: 31 }))
    );
    assert_eq!(
        general_parse(Parser::NaiveDate, "-0044-03-15", "%Y-%m-%d"),
        Ok(CalendarValue::Date(CalendarDate { year: -44, month: 3, day: 15 }))
    );
}

#[test]
fn general_parser_drops_the_time_of_a_date() {
    assert_eq!(
        general_parse(Parser::NaiveDate, "2021-12-31 10:11:12", "%Y-%m-%d %H:%M:%S"),
        Ok(CalendarValue::Date(CalendarDate { year: 2021, month: 12, day: 31 }))
    );
}

#[test]
fn general_parser_reads_a_time() {
    assert_eq!(
        general_parse(Parser::NaiveTime, "23:01:02.5", "%H:%M:%S%.f"),
        Ok(CalendarValue::Time(ClockTime {
            hour: 23,
            minute: 1,
            second: 2,
            nanosecond: 500_000_000
        }))
    );
    assert_eq!(
        general_parse(Parser::NaiveTime, "7:15", "%H:%M"),
        Ok(CalendarValue::Time(ClockTime { hour: 7, minute: 15, second: 0, nanosecond: 0 }))
    );
}

#[test]
fn general_parser_keeps_a_leap_second() {
    assert_eq!(
        general_parse(Parser::NaiveTime, "08:59:60.123", "%H:%M:%S%.f"),
        Ok(CalendarValue::Time(ClockTime {
            hour: 8,
            minute: 59,
            second: 59,
            nanosecond: 1_123_000_000
        }))
    );
}

#[test]
fn general_parser_reads_a_date_time() {
    assert_eq!(
        general_parse(Parser::NaiveDateTime, "2015-09-05 23:56:04", "%Y-%m-%d %H:%M:%S"),
        Ok(CalendarValue::DateTime(CalendarDateTime {
            date: CalendarDate { year: 2015, month: 9, day: 5 },
            time: ClockTime { hour: 23, minute: 56, second: 4, nanosecond: 0 },
        }))
    );
}

#[test]
fn general_parser_moves_an_offset_to_utc() {
    assert_eq!(
        general_parse(
            Parser::OffsetDateTime,
            "2021-01-01 00:30:00 +0100",
            "%Y-%m-%d %H:%M:%S %z"
        ),
        Ok(CalendarValue::DateTime(CalendarDateTime {
            date: CalendarDate { year: 2020, month: 12, day: 31 },
            time: ClockTime { hour: 23, minute: 30, second: 0, nanosecond: 0 },
        }))
    );
    assert_eq!(
        general_parse(Parser::OffsetDateTime, "2021-01-01 00:30:00", "%Y-%m-%d %H:%M:%S"),
        Err(FailureClassification::NotEnough)
    );
}

#[test]
fn general_parser_classifies_its_failures() {
    let date = |text: &str, fmt: &str| general_parse(Parser::NaiveDate, text, fmt);
    assert_eq!(date("2021-13-01", "%Y-%m-%d"), Err(FailureClassification::OutOfRange));
    assert_eq!(date("2021-01-02 03", "%Y-%m-%d %d"), Err(FailureClassification::Impossible));
    assert_eq!(date("2021-01", "%Y-%m"), Err(FailureClassification::NotEnough));
    assert_eq!(date("twenty", "%Y-%m-%d"), Err(FailureClassification::Invalid));
    assert_eq!(date("2021-01", "%Y-%m-%d"), Err(FailureClassification::TooShort));
    assert_eq!(date("2021-01-01x", "%Y-%m-%d"), Err(FailureClassification::TooLong));
    assert_eq!(date("2021-01-01", "%Y-%m-%Q"), Err(FailureClassification::BadFormat));
    assert_eq!(date("2021-02-30", "%Y-%m-%d"), Err(FailureClassification::OutOfRange));
}

#[test]
fn general_parser_wants_hour_and_minute_for_a_time() {
    assert_eq!(
        general_parse(Parser::NaiveTime, "12", "%H"),
        Err(FailureClassification::NotEnough)
    );
    assert_eq!(
        general_parse(Parser::NaiveDateTime, "2021-01-01", "%Y-%m-%d"),
        Err(FailureClassification::NotEnough)
    );
}
