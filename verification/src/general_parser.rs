//! The general-purpose calendar parser, as this library sees it.
//!
//! `chrono` reads a text against a format string. What it accepts and what it
//! makes of the text is not restated here: each of its four entry points has a
//! name for its result, and the rest of the library reasons over those names.
//! A parsed value leaves `chrono` as plain fields; a failure leaves it as one of
//! seven classes.

use chrono::format::ParseErrorKind;
use chrono::DateTime;
use chrono::Datelike;
use chrono::NaiveDate;
use chrono::NaiveDateTime;
use chrono::NaiveTime;
use chrono::Timelike;
use crate::calendar::CalendarDate;
use crate::calendar::CalendarDateTime;
use crate::calendar::CalendarValue;
use crate::calendar::ClockTime;
use vstd::prelude::*;

verus! {

/// Why the general parser turned a text down.
#[derive(Clone, Copy, Debug, PartialEq, Eq, Structural)]
pub enum FailureClassification {
    /// A field is outside its permitted range.
    OutOfRange,
    /// No date or time has the fields that were read.
    Impossible,
    /// The fields that were read do not determine a value.
    NotEnough,
    /// The text has a character that the format does not allow there.
    Invalid,
    /// The text ended before the format did.
    TooShort,
    /// The format ended before the text did.
    TooLong,
    /// The format string itself is not understood.
    BadFormat,
}

/// Which entry point of the general parser to use.
#[derive(Clone, Copy, Debug, PartialEq, Eq, Structural)]
pub enum Parser {
    /// A date; fields of a time that the format reads are dropped.
    NaiveDate,
    /// A time of day.
    NaiveTime,
    /// A date and a time of day, without a zone.
    NaiveDateTime,
    /// A date and a time of day with a numeric offset in the text, moved to UTC.
    OffsetDateTime,
}

/// What `chrono::NaiveDate::parse_from_str` returns for a text and a format.
pub uninterp spec fn general_date(text: Seq<char>, fmt: Seq<char>) -> Result<
    CalendarDate,
    FailureClassification,
>;

/// What `chrono::NaiveTime::parse_from_str` returns for a text and a format.
pub uninterp spec fn general_time(text: Seq<char>, fmt: Seq<char>) -> Result<
    ClockTime,
    FailureClassification,
>;

/// What `chrono::NaiveDateTime::parse_from_str` returns for a text and a format.
pub uninterp spec fn general_datetime(text: Seq<char>, fmt: Seq<char>) -> Result<
    CalendarDateTime,
    FailureClassification,
>;

/// What `chrono::DateTime::parse_from_str` returns for a text and a format,
/// read at the offset zero.
pub uninterp spec fn general_offset_datetime(text: Seq<char>, fmt: Seq<char>) -> Result<
    CalendarDateTime,
    FailureClassification,
>;

impl CalendarValue {
    /// Whatever the value holds is well-formed.
    pub open spec fn wf(self) -> bool {
        match self {
            CalendarValue::Date(d) => d.wf(),
            CalendarValue::Time(t) => t.wf(),
            CalendarValue::DateTime(dt) => dt.wf(),
        }
    }
}

/// The result of the general parser, by entry point.
pub open spec fn general_parse_spec(parser: Parser, text: Seq<char>, fmt: Seq<char>) -> Result<
    CalendarValue,
    FailureClassification,
> {
    match parser {
        Parser::NaiveDate => match general_date(text, fmt) {
            Ok(d) => Ok(CalendarValue::Date(d)),
            Err(e) => Err(e),
        },
        Parser::NaiveTime => match general_time(text, fmt) {
            Ok(t) => Ok(CalendarValue::Time(t)),
            Err(e) => Err(e),
        },
        Parser::NaiveDateTime => match general_datetime(text, fmt) {
            Ok(dt) => Ok(CalendarValue::DateTime(dt)),
            Err(e) => Err(e),
        },
        Parser::OffsetDateTime => match general_offset_datetime(text, fmt) {
            Ok(dt) => Ok(CalendarValue::DateTime(dt)),
            Err(e) => Err(e),
        },
    }
}

/// Whether a value is of the kind that an entry point makes.
pub open spec fn made_by(parser: Parser, value: CalendarValue) -> bool {
    match parser {
        Parser::NaiveDate => value is Date,
        Parser::NaiveTime => value is Time,
        Parser::NaiveDateTime => value is DateTime,
        Parser::OffsetDateTime => value is DateTime,
    }
}

/// Whether the general parser accepts a text under a format.
pub open spec fn accepts(parser: Parser, text: Seq<char>, fmt: Seq<char>) -> bool {
    general_parse_spec(parser, text, fmt) is Ok
}

/// Calls `chrono::NaiveDate::parse_from_str` and hands back the year, month and
/// day of the date it made, or the kind of its error. Trusted: the result is the
/// one named `general_date`, and the date is one that exists, between the first
/// and the last year `chrono` can hold.
#[verifier::external_body]
fn parse_naive_date(text: &str, fmt: &str) -> (r: Result<CalendarDate, FailureClassification>)
    ensures
        r == general_date(text@, fmt@),
        r matches Ok(d) ==> d.wf(),
{
    NaiveDate::parse_from_str(text, fmt)
        .map(|v| CalendarDate { year: v.year(), month: v.month(), day: v.day() })
        .map_err(|e| match e.kind() {
            ParseErrorKind::OutOfRange => FailureClassification::OutOfRange,
            ParseErrorKind::Impossible => FailureClassification::Impossible,
            ParseErrorKind::NotEnough => FailureClassification::NotEnough,
            ParseErrorKind::Invalid => FailureClassification::Invalid,
            ParseErrorKind::TooShort => FailureClassification::TooShort,
            ParseErrorKind::TooLong => FailureClassification::TooLong,
            _ => FailureClassification::BadFormat,
        })
}

/// Calls `chrono::NaiveTime::parse_from_str` and hands back the fields of the
/// time it made, or the kind of its error. Trusted: the result is the one named
/// `general_time`, and each field is in its range, a leap second being a
/// nanosecond of a thousand million or more on second 59.
#[verifier::external_body]
fn parse_naive_time(text: &str, fmt: &str) -> (r: Result<ClockTime, FailureClassification>)
    ensures
        r == general_time(text@, fmt@),
        r matches Ok(t) ==> t.wf(),
{
    NaiveTime::parse_from_str(text, fmt)
        .map(|v| ClockTime { hour: v.hour(), minute: v.minute(), second: v.second(), nanosecond: v.nanosecond() })
        .map_err(|e| match e.kind() {
            ParseErrorKind::OutOfRange => FailureClassification::OutOfRange,
            ParseErrorKind::Impossible => FailureClassification::Impossible,
            ParseErrorKind::NotEnough => FailureClassification::NotEnough,
            ParseErrorKind::Invalid => FailureClassification::Invalid,
            ParseErrorKind::TooShort => FailureClassification::TooShort,
            ParseErrorKind::TooLong => FailureClassification::TooLong,
            _ => FailureClassification::BadFormat,
        })
}

/// Calls `chrono::NaiveDateTime::parse_from_str` and hands back the date and
/// the time of the value it made, or the kind of its error. Trusted: the result
/// is the one named `general_datetime`; the date exists and the time's fields
/// are in their ranges.
#[verifier::external_body]
fn parse_naive_datetime(text: &str, fmt: &str) -> (r: Result<
    CalendarDateTime,
    FailureClassification,
>)
    ensures
        r == general_datetime(text@, fmt@),
        r matches Ok(dt) ==> dt.wf(),
{
    NaiveDateTime::parse_from_str(text, fmt)
        .map(|v| CalendarDateTime { date: CalendarDate { year: v.year(), month: v.month(), day: v.day() }, time: ClockTime { hour: v.hour(), minute: v.minute(), second: v.second(), nanosecond: v.nanosecond() } })
        .map_err(|e| match e.kind() {
            ParseErrorKind::OutOfRange => FailureClassification::OutOfRange,
            ParseErrorKind::Impossible => FailureClassification::Impossible,
            ParseErrorKind::NotEnough => FailureClassification::NotEnough,
            ParseErrorKind::Invalid => FailureClassification::Invalid,
            ParseErrorKind::TooShort => FailureClassification::TooShort,
            ParseErrorKind::TooLong => FailureClassification::TooLong,
            _ => FailureClassification::BadFormat,
        })
}

/// Calls `chrono::DateTime::parse_from_str`, which wants a numeric offset in
/// the text, and hands back the date and the time that the instant has at the
/// offset zero (`naive_utc`), or the kind of the error. Trusted: the result is
/// the one named `general_offset_datetime`; the date exists and the time's
/// fields are in their ranges.
#[verifier::external_body]
fn parse_offset_datetime(text: &str, fmt: &str) -> (r: Result<
    CalendarDateTime,
    FailureClassification,
>)
    ensures
        r == general_offset_datetime(text@, fmt@),
        r matches Ok(dt) ==> dt.wf(),
{
    DateTime::parse_from_str(text, fmt)
        .map(|at| at.naive_utc())
        .map(|v| CalendarDateTime { date: CalendarDate { year: v.year(), month: v.month(), day: v.day() }, time: ClockTime { hour: v.hour(), minute: v.minute(), second: v.second(), nanosecond: v.nanosecond() } })
        .map_err(|e| match e.kind() {
            ParseErrorKind::OutOfRange => FailureClassification::OutOfRange,
            ParseErrorKind::Impossible => FailureClassification::Impossible,
            ParseErrorKind::NotEnough => FailureClassification::NotEnough,
            ParseErrorKind::Invalid => FailureClassification::Invalid,
            ParseErrorKind::TooShort => FailureClassification::TooShort,
            ParseErrorKind::TooLong => FailureClassification::TooLong,
            _ => FailureClassification::BadFormat,
        })
}

/// Reads a text against a format with the chosen entry point of the general
/// parser.
pub fn general_parse(parser: Parser, text: &str, fmt: &str) -> (r: Result<
    CalendarValue,
    FailureClassification,
>)
    ensures
        r == general_parse_spec(parser, text@, fmt@),
        r matches Ok(v) ==> v.wf() && made_by(parser, v),
{
    match parser {
        Parser::NaiveDate => match parse_naive_date(text, fmt) {
            Ok(d) => Ok(CalendarValue::Date(d)),
            Err(e) => Err(e),
        },
        Parser::NaiveTime => match parse_naive_time(text, fmt) {
            Ok(t) => Ok(CalendarValue::Time(t)),
            Err(e) => Err(e),
        },
        Parser::NaiveDateTime => match parse_naive_datetime(text, fmt) {
            Ok(dt) => Ok(CalendarValue::DateTime(dt)),
            Err(e) => Err(e),
        },
        Parser::OffsetDateTime => match parse_offset_datetime(text, fmt) {
            Ok(dt) => Ok(CalendarValue::DateTime(dt)),
            Err(e) => Err(e),
        },
    }
}

} // verus!
