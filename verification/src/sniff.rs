//! Finding a format for a column that came without one.
//!
//! One value is tried: the first that is not null. It is read under each format
//! of the catalog in turn, and the first format that the general parser accepts
//! is the column's format.

use crate::column::first_present;
use crate::column::lemma_first_present;
use crate::column::StringColumn;
use crate::error::ConversionError;
use crate::general_parser::accepts;
use crate::general_parser::general_parse;
use crate::general_parser::Parser;
use crate::patterns::catalog;
use crate::patterns::patterns;
use crate::patterns::texts;
use crate::patterns::Pattern;
use vstd::prelude::*;

verus! {

/// What a column holds once it is converted.
#[derive(Clone, Copy, Debug, PartialEq, Eq, Structural)]
pub enum TemporalKind {
    Date,
    Time,
    Datetime,
}

/// The first of `formats` under which `parser` accepts `val`.
pub open spec fn first_match(parser: Parser, val: Seq<char>, formats: Seq<Seq<char>>) -> Option<
    Seq<char>,
>
    decreases formats.len(),
{
    if formats.len() == 0 {
        None
    } else if accepts(parser, val, formats[0]) {
        Some(formats[0])
    } else {
        first_match(parser, val, formats.drop_first())
    }
}

/// The formats tried for a date: year first, then day first.
pub open spec fn date_catalog() -> Seq<Seq<char>> {
    catalog(Pattern::DateYMD) + catalog(Pattern::DateDMY)
}

/// The formats tried for a date-time: year first, then day first.
pub open spec fn datetime_catalog() -> Seq<Seq<char>> {
    catalog(Pattern::DatetimeYMD) + catalog(Pattern::DatetimeDMY)
}

/// The format that sniffing settles on for a sample. A date-time column may
/// hold bare dates, so where no date-time format reads the sample the date
/// formats are tried on it as dates.
pub open spec fn sniff_spec(kind: TemporalKind, sample: Seq<char>) -> Option<Seq<char>> {
    match kind {
        TemporalKind::Date => first_match(Parser::NaiveDate, sample, date_catalog()),
        TemporalKind::Time => first_match(Parser::NaiveTime, sample, catalog(Pattern::Time)),
        TemporalKind::Datetime => match first_match(
            Parser::NaiveDateTime,
            sample,
            datetime_catalog(),
        ) {
            Some(f) => Some(f),
            None => first_match(Parser::NaiveDate, sample, date_catalog()),
        },
    }
}

/// The format sniffed for a column: that of its first value that is not null.
pub open spec fn sniff_column_spec(kind: TemporalKind, texts: Seq<Option<Seq<char>>>) -> Option<
    Seq<char>,
> {
    match first_present(texts) {
        Some(k) => sniff_spec(kind, texts[k]->0),
        None => None,
    }
}

/// Searching two lists one after the other is searching their concatenation.
pub proof fn lemma_first_match_concat(
    parser: Parser,
    val: Seq<char>,
    a: Seq<Seq<char>>,
    b: Seq<Seq<char>>,
)
    ensures
        first_match(parser, val, a + b) == (match first_match(parser, val, a) {
            Some(f) => Some(f),
            None => first_match(parser, val, b),
        }),
    decreases a.len(),
{
    if a.len() == 0 {
        assert(a + b =~= b);
    } else {
        assert((a + b).drop_first() =~= a.drop_first() + b);
        lemma_first_match_concat(parser, val, a.drop_first(), b);
    }
}

/// Tries the formats in order and returns the first that `parser` accepts.
fn find_first(val: &str, parser: Parser, formats: &Vec<&'static str>) -> (r: Option<&'static str>)
    ensures
        match r {
            Some(f) => first_match(parser, val@, texts(formats@)) == Some(f@),
            None => first_match(parser, val@, texts(formats@)) is None,
        },
{
    let ghost all = texts(formats@);
    assert(all.subrange(0, all.len() as int) =~= all);
    let mut i: usize = 0;
    while i < formats.len()
        invariant
            i <= formats@.len(),
            all == texts(formats@),
            first_match(parser, val@, all) == first_match(
                parser,
                val@,
                all.subrange(i as int, all.len() as int),
            ),
        decreases formats@.len() - i,
    {
        let fmt: &'static str = formats[i];
        let ghost rest = all.subrange(i as int, all.len() as int);
        assert(rest[0] == fmt@);
        if general_parse(parser, val, fmt).is_ok() {
            return Some(fmt);
        }
        assert(rest.drop_first() =~= all.subrange(i + 1, all.len() as int));
        i += 1;
    }
    None
}

/// The first time format of the catalog under which `parser` accepts `val`.
pub fn time_pattern(val: &str, parser: Parser) -> (r: Option<&'static str>)
    ensures
        match r {
            Some(f) => first_match(parser, val@, catalog(Pattern::Time)) == Some(f@),
            None => first_match(parser, val@, catalog(Pattern::Time)) is None,
        },
{
    find_first(val, parser, &patterns(Pattern::Time))
}

/// The first date-time format of the catalog under which `parser` accepts
/// `val`: those that put the year first are tried before those that put the day
/// first.
pub fn datetime_pattern(val: &str, parser: Parser) -> (r: Option<&'static str>)
    ensures
        match r {
            Some(f) => first_match(parser, val@, datetime_catalog()) == Some(f@),
            None => first_match(parser, val@, datetime_catalog()) is None,
        },
{
    proof {
        lemma_first_match_concat(
            parser,
            val@,
            catalog(Pattern::DatetimeYMD),
            catalog(Pattern::DatetimeDMY),
        );
    }
    match find_first(val, parser, &patterns(Pattern::DatetimeYMD)) {
        Some(f) => Some(f),
        None => find_first(val, parser, &patterns(Pattern::DatetimeDMY)),
    }
}

/// The first date format of the catalog under which `parser` accepts `val`:
/// those that put the year first are tried before those that put the day first.
pub fn date_pattern(val: &str, parser: Parser) -> (r: Option<&'static str>)
    ensures
        match r {
            Some(f) => first_match(parser, val@, date_catalog()) == Some(f@),
            None => first_match(parser, val@, date_catalog()) is None,
        },
{
    proof {
        lemma_first_match_concat(parser, val@, catalog(Pattern::DateYMD), catalog(Pattern::DateDMY));
    }
    match find_first(val, parser, &patterns(Pattern::DateYMD)) {
        Some(f) => Some(f),
        None => find_first(val, parser, &patterns(Pattern::DateDMY)),
    }
}

/// The format under which a sample of the given kind is to be read, if the
/// catalog has one.
pub fn sniff(kind: TemporalKind, sample: &str) -> (r: Option<&'static str>)
    ensures
        match r {
            Some(f) => sniff_spec(kind, sample@) == Some(f@),
            None => sniff_spec(kind, sample@) is None,
        },
{
    match kind {
        TemporalKind::Date => date_pattern(sample, Parser::NaiveDate),
        TemporalKind::Time => time_pattern(sample, Parser::NaiveTime),
        TemporalKind::Datetime => match datetime_pattern(sample, Parser::NaiveDateTime) {
            Some(f) => Some(f),
            None => date_pattern(sample, Parser::NaiveDate),
        },
    }
}

/// The first value of the column that is not null. Fails where every value is
/// null, and so for a column without values.
pub fn get_first_val(ca: &StringColumn) -> (r: Result<&str, ConversionError>)
    ensures
        match r {
            Ok(val) => first_present(ca.texts()) matches Some(k) && ca.texts()[k] == Some(val@),
            Err(e) => first_present(ca.texts()) is None && e
                == ConversionError::FormatUndeterminable,
        },
{
    proof {
        lemma_first_present(ca.texts());
    }
    match ca.first_non_null() {
        Some(idx) => match ca.get(idx) {
            Some(val) => Ok(val),
            None => Err(ConversionError::FormatUndeterminable),
        },
        None => Err(ConversionError::FormatUndeterminable),
    }
}

/// Sniffs the format of a column of the given kind from its first value that
/// is not null.
fn sniff_fmt(kind: TemporalKind, ca: &StringColumn) -> (r: Result<&'static str, ConversionError>)
    ensures
        match r {
            Ok(f) => sniff_column_spec(kind, ca.texts()) == Some(f@),
            Err(e) => sniff_column_spec(kind, ca.texts()) is None && e
                == ConversionError::FormatUndeterminable,
        },
{
    match get_first_val(ca) {
        Ok(val) => match sniff(kind, val) {
            Some(f) => Ok(f),
            None => Err(ConversionError::FormatUndeterminable),
        },
        Err(e) => Err(e),
    }
}

/// The format of a column of date-times, found from its first value that is
/// not null. Fails where every value is null or no format reads that value.
pub fn sniff_fmt_datetime(ca_utf8: &StringColumn) -> (r: Result<&'static str, ConversionError>)
    ensures
        match r {
            Ok(f) => sniff_column_spec(TemporalKind::Datetime, ca_utf8.texts()) == Some(f@),
            Err(e) => sniff_column_spec(TemporalKind::Datetime, ca_utf8.texts()) is None && e
                == ConversionError::FormatUndeterminable,
        },
{
    sniff_fmt(TemporalKind::Datetime, ca_utf8)
}

/// The format of a column of dates, found from its first value that is not
/// null. Fails where every value is null or no format reads that value.
pub fn sniff_fmt_date(ca_utf8: &StringColumn) -> (r: Result<&'static str, ConversionError>)
    ensures
        match r {
            Ok(f) => sniff_column_spec(TemporalKind::Date, ca_utf8.texts()) == Some(f@),
            Err(e) => sniff_column_spec(TemporalKind::Date, ca_utf8.texts()) is None && e
                == ConversionError::FormatUndeterminable,
        },
{
    sniff_fmt(TemporalKind::Date, ca_utf8)
}

/// The format of a column of times, found from its first value that is not
/// null. Fails where every value is null or no format reads that value.
pub fn sniff_fmt_time(ca_utf8: &StringColumn) -> (r: Result<&'static str, ConversionError>)
    ensures
        match r {
            Ok(f) => sniff_column_spec(TemporalKind::Time, ca_utf8.texts()) == Some(f@),
            Err(e) => sniff_column_spec(TemporalKind::Time, ca_utf8.texts()) is None && e
                == ConversionError::FormatUndeterminable,
        },
{
    sniff_fmt(TemporalKind::Time, ca_utf8)
}

} // verus!
