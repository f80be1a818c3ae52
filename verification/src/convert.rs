//! From one text to one number, and from a column of texts to a column of
//! numbers.
//!
//! An exact conversion reads the whole text: with the structured parser where
//! the format is fixed-width and the text has that width, and with the general
//! parser where the structured parser declines. A time of day always goes to
//! the general parser: the structured parser makes a date-time, and a text
//! that is only a time has no date. A scanning conversion looks for the value
//! inside the text. A text that gives no value gives a null.

use crate::cache::cache_entries;
use crate::cache::ParseCache;
use crate::calendar::days_from_epoch;
use crate::calendar::nanos_of_day;
use crate::calendar::timestamp_code;
use crate::calendar::CalendarDateTime;
use crate::calendar::CalendarValue;
use crate::calendar::ClockTime;
use crate::calendar::TimeUnit;
use crate::column::StringColumn;
use crate::format::fixed_len_spec;
use crate::format::CompiledFormat;
use crate::general_parser::general_parse;
use crate::general_parser::general_parse_spec;
use crate::general_parser::Parser;
use crate::scan::scan;
use crate::scan::scan_spec;
use crate::scan::ScanOutcome;
use crate::strptime::fast_parse_spec;
use crate::strptime::try_fast_parse;
use vstd::prelude::*;
use vstd::utf8::encode_utf8;

verus! {

/// What is to be made of each text.
#[derive(Clone, Copy, Debug, PartialEq, Eq, Structural)]
pub enum Conversion {
    /// The whole text is a date; the code is its day.
    Date,
    /// The whole text is a time of day; the code is its nanosecond of the day.
    Time,
    /// The whole text is a date-time without a zone, or a date, which then
    /// stands for its midnight; the code is its tick of the unit.
    Datetime(TimeUnit),
    /// The whole text is a date-time with a numeric offset; the code is the
    /// tick of the unit of that instant.
    OffsetDatetime(TimeUnit),
    /// The value is somewhere inside the text, in the form that the parser
    /// reads; the code is that of the value found.
    Scan(Parser, TimeUnit),
}

/// The code of a parsed value: the day of a date, the nanosecond of the day of
/// a time, the tick of a date-time where 64 bits hold it.
pub open spec fn value_code(value: CalendarValue, unit: TimeUnit) -> Option<i64> {
    match value {
        CalendarValue::Date(d) => Some(days_from_epoch(d) as i64),
        CalendarValue::Time(t) => Some(nanos_of_day(t) as i64),
        CalendarValue::DateTime(dt) => timestamp_code(dt, unit),
    }
}

/// What the structured parser makes of a text under a format: something only
/// where the format is fixed-width and the text has its width.
pub open spec fn fast_value(text: Seq<char>, fmt: Seq<char>) -> Option<CalendarDateTime> {
    match fixed_len_spec(encode_utf8(fmt)) {
        Some(n) => if encode_utf8(text).len() == n {
            fast_parse_spec(encode_utf8(text), encode_utf8(fmt))
        } else {
            None
        },
        None => None,
    }
}

/// The code of a value that the general parser reads, or nothing.
pub open spec fn general_code(parser: Parser, text: Seq<char>, fmt: Seq<char>, unit: TimeUnit)
    -> Option<i64> {
    match general_parse_spec(parser, text, fmt) {
        Ok(value) => value_code(value, unit),
        Err(_) => None,
    }
}

/// The date-time that the general parser reads where the structured parser
/// declined: the text as a date-time, or else as a date, at midnight.
pub open spec fn general_datetime_or_date(text: Seq<char>, fmt: Seq<char>) -> Option<
    CalendarDateTime,
> {
    match general_parse_spec(Parser::NaiveDateTime, text, fmt) {
        Ok(CalendarValue::DateTime(dt)) => Some(dt),
        _ => match general_parse_spec(Parser::NaiveDate, text, fmt) {
            Ok(CalendarValue::Date(date)) => Some(
                CalendarDateTime {
                    date,
                    time: ClockTime { hour: 0, minute: 0, second: 0, nanosecond: 0 },
                },
            ),
            _ => None,
        },
    }
}

/// The code of a text under a format.
pub open spec fn code_spec(conversion: Conversion, text: Seq<char>, fmt: Seq<char>) -> Option<
    i64,
> {
    match conversion {
        Conversion::Date => match fast_value(text, fmt) {
            Some(dt) => Some(days_from_epoch(dt.date) as i64),
            None => general_code(Parser::NaiveDate, text, fmt, TimeUnit::Milliseconds),
        },
        Conversion::Time => general_code(Parser::NaiveTime, text, fmt, TimeUnit::Nanoseconds),
        Conversion::Datetime(unit) => match fast_value(text, fmt) {
            Some(dt) => timestamp_code(dt, unit),
            None => match general_datetime_or_date(text, fmt) {
                Some(dt) => timestamp_code(dt, unit),
                None => None,
            },
        },
        Conversion::OffsetDatetime(unit) => general_code(Parser::OffsetDateTime, text, fmt, unit),
        Conversion::Scan(parser, unit) => match scan_spec(parser, text, fmt) {
            ScanOutcome::Matched(value) => value_code(value, unit),
            ScanOutcome::Exhausted => None,
        },
    }
}

/// The code of a value of a column: nothing for a null.
pub open spec fn code_at(conversion: Conversion, text: Option<Seq<char>>, fmt: Seq<char>)
    -> Option<i64> {
    match text {
        Some(t) => code_spec(conversion, t, fmt),
        None => None,
    }
}

/// The codes of a column, position by position.
pub open spec fn codes_spec(conversion: Conversion, texts: Seq<Option<Seq<char>>>, fmt: Seq<char>)
    -> Seq<Option<i64>> {
    Seq::new(texts.len(), |i: int| code_at(conversion, texts[i], fmt))
}

/// Whether a conversion makes days, which 32 bits hold.
pub open spec fn makes_days(conversion: Conversion) -> bool {
    conversion == Conversion::Date || conversion matches Conversion::Scan(Parser::NaiveDate, _)
}

/// A code that its column can hold: a day fits 32 bits.
pub open spec fn code_fits(conversion: Conversion, code: Option<i64>) -> bool {
    makes_days(conversion) ==> (code matches Some(v) ==> i32::MIN <= v <= i32::MAX)
}

/// The texts of a column that are not null.
pub open spec fn present_texts(texts: Seq<Option<Seq<char>>>) -> Set<Seq<char>> {
    Set::new(|text: Seq<char>| texts.contains(Some(text)))
}

/// Every text that a cache holds has the code of that text.
pub open spec fn cache_consistent(
    entries: Map<Seq<char>, Option<i64>>,
    conversion: Conversion,
    fmt: Seq<char>,
) -> bool {
    forall|text: Seq<char>| #[trigger]
        entries.contains_key(text) ==> entries[text] == code_spec(conversion, text, fmt)
            && code_fits(conversion, entries[text])
}

/// The code of a parsed value.
pub fn code_of_value(value: CalendarValue, unit: TimeUnit) -> (code: Option<i64>)
    requires
        value.wf(),
    ensures
        code == value_code(value, unit),
        value is Date ==> (code matches Some(v) && i32::MIN <= v <= i32::MAX),
{
    match value {
        CalendarValue::Date(d) => Some(d.days_since_epoch() as i64),
        CalendarValue::Time(t) => Some(t.nanos_since_midnight()),
        CalendarValue::DateTime(dt) => dt.timestamp(unit),
    }
}

/// Reads a text with the structured parser, where the format is fixed-width.
fn fast(text: &str, format: &CompiledFormat) -> (r: Option<CalendarDateTime>)
    ensures
        r == fast_value(text@, format@),
        r matches Some(dt) ==> dt.wf(),
{
    match format.fixed_len() {
        Some(n) => try_fast_parse(text.as_bytes(), format.format().as_bytes(), n),
        None => None,
    }
}

/// Reads a text with the general parser and takes the code of the value.
fn general(parser: Parser, text: &str, fmt: &str, unit: TimeUnit) -> (code: Option<i64>)
    ensures
        code == general_code(parser, text@, fmt@, unit),
        parser == Parser::NaiveDate ==> (code matches Some(v) ==> i32::MIN <= v <= i32::MAX),
{
    match general_parse(parser, text, fmt) {
        Ok(value) => code_of_value(value, unit),
        Err(_) => None,
    }
}

/// The code of one text under a format.
pub fn code(conversion: Conversion, text: &str, format: &CompiledFormat) -> (r: Option<i64>)
    ensures
        r == code_spec(conversion, text@, format@),
        code_fits(conversion, r),
{
    let fmt: &str = format.format();
    match conversion {
        Conversion::Date => match fast(text, format) {
            Some(dt) => Some(dt.date.days_since_epoch() as i64),
            None => general(Parser::NaiveDate, text, fmt, TimeUnit::Milliseconds),
        },
        Conversion::Time => general(Parser::NaiveTime, text, fmt, TimeUnit::Nanoseconds),
        Conversion::Datetime(unit) => match fast(text, format) {
            Some(dt) => dt.timestamp(unit),
            None => match general_parse(Parser::NaiveDateTime, text, fmt) {
                Ok(CalendarValue::DateTime(dt)) => dt.timestamp(unit),
                _ => match general_parse(Parser::NaiveDate, text, fmt) {
                    Ok(CalendarValue::Date(date)) => {
                        let dt = CalendarDateTime { date, time: ClockTime::midnight() };
                        dt.timestamp(unit)
                    },
                    _ => None,
                },
            },
        },
        Conversion::OffsetDatetime(unit) => general(Parser::OffsetDateTime, text, fmt, unit),
        Conversion::Scan(parser, unit) => match scan(parser, text, fmt) {
            ScanOutcome::Matched(value) => code_of_value(value, unit),
            ScanOutcome::Exhausted => None,
        },
    }
}

/// The codes of a column, and the cache that the conversion filled. With
/// `use_cache` each distinct text is parsed once: its code goes into the cache,
/// and a text that comes again gets the code from there. Without it every text
/// is parsed and the cache stays empty. Either way the codes are the same.
pub fn convert_values<'a>(
    ca: &'a StringColumn,
    conversion: Conversion,
    format: &CompiledFormat,
    use_cache: bool,
) -> (r: (Vec<Option<i64>>, ParseCache<'a>))
    ensures
        r.0@ == codes_spec(conversion, ca.texts(), format@),
        forall|i: int| 0 <= i < r.0@.len() ==> code_fits(conversion, #[trigger] r.0@[i]),
        cache_consistent(cache_entries(r.1), conversion, format@),
        cache_entries(r.1).dom() == (if use_cache {
            present_texts(ca.texts())
        } else {
            Set::empty()
        }),
        cache_entries(r.1).dom().finite(),
{
    let mut cache: ParseCache<'a> = ParseCache::new();
    let mut values: Vec<Option<i64>> = Vec::new();
    let n: usize = ca.len();
    let mut i: usize = 0;
    while i < n
        invariant
            i <= n == ca.texts().len(),
            values@.len() == i,
            forall|j: int|
                0 <= j < i ==> #[trigger] values@[j] == code_at(conversion, ca.texts()[j], format@),
            forall|j: int| 0 <= j < i ==> code_fits(conversion, #[trigger] values@[j]),
            cache_consistent(cache_entries(cache), conversion, format@),
            cache_entries(cache).dom().finite(),
            cache_entries(cache).dom() == (if use_cache {
                present_texts(ca.texts().take(i as int))
            } else {
                Set::empty()
            }),
        decreases n - i,
    {
        let ghost before = cache_entries(cache).dom();
        let value: Option<i64> = match ca.get(i) {
            Some(text) => {
                if use_cache {
                    let compute = || -> (r: Option<i64>)
                        ensures
                            r == code_spec(conversion, text@, format@),
                            code_fits(conversion, r),
                        { code(conversion, text, format) };
                    cache.get_or_parse(text, compute)
                } else {
                    code(conversion, text, format)
                }
            },
            None => None,
        };
        proof {
            if use_cache {
                let shorter = ca.texts().take(i as int);
                let longer = ca.texts().take(i + 1);
                assert(longer.drop_last() =~= shorter);
                assert(longer.last() == ca.texts()[i as int]);
                assert forall|text: Seq<char>|
                    cache_entries(cache).dom().contains(text) <==> present_texts(longer).contains(
                        text,
                    ) by {
                    if longer.contains(Some(text)) {
                        let k = choose|k: int| 0 <= k < longer.len() && longer[k] == Some(text);
                        if k < i {
                            assert(shorter[k] == Some(text));
                        }
                    }
                    if shorter.contains(Some(text)) {
                        let k = choose|k: int| 0 <= k < shorter.len() && shorter[k] == Some(text);
                        assert(longer[k] == Some(text));
                    }
                    if ca.texts()[i as int] == Some(text) {
                        assert(longer[i as int] == Some(text));
                    }
                }
                assert(cache_entries(cache).dom() =~= present_texts(longer));
            }
        }
        values.push(value);
        i = i + 1;
    }
    assert(values@ =~= codes_spec(conversion, ca.texts(), format@));
    assert(ca.texts().take(n as int) =~= ca.texts());
    (values, cache)
}

} // verus!
