//! What holds of the conversions whatever the column.

use crate::calendar::CalendarValue;
use crate::calendar::TimeUnit;
use crate::column::first_present;
use crate::column::DateColumn;
use crate::column::DatetimeColumn;
use crate::column::StringColumn;
use crate::column::TimeColumn;
use crate::convert::codes_spec;
use crate::convert::Conversion;
use crate::error::ConversionError;
use crate::error::ZoneFailure;
use crate::format::fixed_width;
use crate::general_parser::accepts;
use crate::general_parser::FailureClassification;
use crate::general_parser::Parser;
use crate::patterns::catalog;
use crate::patterns::Pattern;
use crate::scan::scan_from;
use crate::scan::scan_spec;
use crate::scan::step_for;
use crate::scan::step_window;
use crate::scan::window_result;
use crate::scan::ScanOutcome;
use crate::sniff::date_catalog;
use crate::sniff::datetime_catalog;
use crate::sniff::first_match;
use crate::sniff::sniff_column_spec;
use crate::sniff::TemporalKind;
use crate::strptime::fast_parse_spec;
use crate::strptime::lemma_fields_width;
use crate::strptime::no_fields;
use crate::timezone::AmbiguousResolution;
use crate::utf8::date_conversion;
use crate::utf8::date_scan_conversion;
use crate::utf8::datetime_conversion;
use crate::utf8::datetime_scan_conversion;
use crate::utf8::time_conversion;
use vstd::prelude::*;
use vstd::utf8::encode_utf8;

verus! {

/// Two failures to attach a zone are the same failure.
pub open spec fn same_zone_failure(a: ZoneFailure, b: ZoneFailure) -> bool {
    match (a, b) {
        (ZoneFailure::ColumnTooLong, ZoneFailure::ColumnTooLong) => true,
        (ZoneFailure::UnknownZone, ZoneFailure::UnknownZone) => true,
        (ZoneFailure::ValueOutOfRange, ZoneFailure::ValueOutOfRange) => true,
        (ZoneFailure::Refused(m), ZoneFailure::Refused(n)) => m@ == n@,
        _ => false,
    }
}

/// Two failures are the same failure.
pub open spec fn same_error(a: ConversionError, b: ConversionError) -> bool {
    match (a, b) {
        (ConversionError::FormatUndeterminable, ConversionError::FormatUndeterminable) => true,
        (ConversionError::InvalidFormat, ConversionError::InvalidFormat) => true,
        (ConversionError::ZoneAttachment(x), ConversionError::ZoneAttachment(y)) => same_zone_failure(
            x,
            y,
        ),
        _ => false,
    }
}

/// Two conversions to dates ended the same way.
pub open spec fn same_dates(
    a: Result<DateColumn, ConversionError>,
    b: Result<DateColumn, ConversionError>,
) -> bool {
    match (a, b) {
        (Ok(x), Ok(y)) => x.name@ == y.name@ && x.values@ == y.values@,
        (Err(x), Err(y)) => same_error(x, y),
        _ => false,
    }
}

/// Two conversions to times ended the same way.
pub open spec fn same_times(
    a: Result<TimeColumn, ConversionError>,
    b: Result<TimeColumn, ConversionError>,
) -> bool {
    match (a, b) {
        (Ok(x), Ok(y)) => x.name@ == y.name@ && x.values@ == y.values@,
        (Err(x), Err(y)) => same_error(x, y),
        _ => false,
    }
}

/// Two conversions to date-times ended the same way.
pub open spec fn same_datetimes(
    a: Result<DatetimeColumn, ConversionError>,
    b: Result<DatetimeColumn, ConversionError>,
) -> bool {
    match (a, b) {
        (Ok(x), Ok(y)) => x.name@ == y.name@ && x.values@ == y.values@ && x.time_unit
            == y.time_unit && x.zone_text() == y.zone_text(),
        (Err(x), Err(y)) => same_error(x, y),
        _ => false,
    }
}

/// The search of a list of formats never passes over a format that reads the
/// sample: where the parser accepts the sample under the format at position
/// `k`, the search ends on a format that the parser accepts, at `k` or before,
/// with no format before it that the parser accepts.
pub proof fn lemma_first_match_is_earliest(
    parser: Parser,
    val: Seq<char>,
    formats: Seq<Seq<char>>,
    k: int,
)
    requires
        0 <= k < formats.len(),
        accepts(parser, val, formats[k]),
    ensures
        exists|j: int|
            0 <= j <= k && first_match(parser, val, formats) == Some(#[trigger] formats[j])
                && accepts(parser, val, formats[j]) && forall|i: int|
                0 <= i < j ==> !accepts(parser, val, #[trigger] formats[i]),
    decreases formats.len(),
{
    if accepts(parser, val, formats[0]) {
        assert(first_match(parser, val, formats) == Some(formats[0]));
    } else {
        let rest = formats.drop_first();
        assert(rest[k - 1] == formats[k]);
        lemma_first_match_is_earliest(parser, val, rest, k - 1);
        let j = choose|j: int|
            0 <= j <= k - 1 && first_match(parser, val, rest) == Some(#[trigger] rest[j])
                && accepts(parser, val, rest[j]) && forall|i: int|
                0 <= i < j ==> !accepts(parser, val, #[trigger] rest[i]);
        assert(rest[j] == formats[j + 1]);
        assert forall|i: int| 0 <= i < j + 1 implies !accepts(parser, val, #[trigger] formats[i]) by {
            if i > 0 {
                assert(formats[i] == rest[i - 1]);
            }
        }
    }
}

/// The formats that sniffing tries first for a kind of column.
pub open spec fn kind_catalog(kind: TemporalKind) -> Seq<Seq<char>> {
    match kind {
        TemporalKind::Date => date_catalog(),
        TemporalKind::Time => catalog(Pattern::Time),
        TemporalKind::Datetime => datetime_catalog(),
    }
}

/// The entry point of the general parser that reads a kind of column.
pub open spec fn kind_parser(kind: TemporalKind) -> Parser {
    match kind {
        TemporalKind::Date => Parser::NaiveDate,
        TemporalKind::Time => Parser::NaiveTime,
        TemporalKind::Datetime => Parser::NaiveDateTime,
    }
}

/// Sniffing finds the catalog's formats: for a column whose first text is
/// `sample`, where the parser of the kind accepts `sample` under the catalog
/// format at position `k`, sniffing yields a catalog format of the kind that
/// the parser accepts, at position `k` or before.
pub proof fn lemma_sniff_yields_earliest(
    kind: TemporalKind,
    sample: Seq<char>,
    rest: Seq<Option<Seq<char>>>,
    k: int,
)
    requires
        0 <= k < kind_catalog(kind).len(),
        accepts(kind_parser(kind), sample, kind_catalog(kind)[k]),
    ensures
        exists|j: int|
            0 <= j <= k && sniff_column_spec(kind, seq![Some(sample)] + rest) == Some(
                #[trigger] kind_catalog(kind)[j],
            ) && accepts(kind_parser(kind), sample, kind_catalog(kind)[j]),
{
    let texts = seq![Some(sample)] + rest;
    assert(texts[0] == Some(sample));
    assert(first_present(texts) == Some(0int));
    lemma_first_match_is_earliest(kind_parser(kind), sample, kind_catalog(kind), k);
    let j = choose|j: int|
        0 <= j <= k && first_match(kind_parser(kind), sample, kind_catalog(kind)) == Some(
            #[trigger] kind_catalog(kind)[j],
        ) && accepts(kind_parser(kind), sample, kind_catalog(kind)[j]);
    assert(sniff_column_spec(kind, texts) == Some(kind_catalog(kind)[j]));
}

/// Where no format of a list reads the sample, the search finds none.
pub proof fn lemma_first_match_none(parser: Parser, val: Seq<char>, formats: Seq<Seq<char>>)
    requires
        forall|i: int| 0 <= i < formats.len() ==> !accepts(parser, val, #[trigger] formats[i]),
    ensures
        first_match(parser, val, formats) is None,
    decreases formats.len(),
{
    if formats.len() > 0 {
        let rest = formats.drop_first();
        assert forall|i: int| 0 <= i < rest.len() implies !accepts(parser, val, #[trigger] rest[i]) by {
            assert(rest[i] == formats[i + 1]);
        }
        lemma_first_match_none(parser, val, rest);
    }
}

/// A text no longer than its format string is not read: the scan has no try
/// for it.
pub proof fn lemma_scan_short_text(parser: Parser, text: Seq<char>, fmt: Seq<char>)
    requires
        encode_utf8(text).len() <= encode_utf8(fmt).len(),
    ensures
        scan_spec(parser, text, fmt) == ScanOutcome::Exhausted,
{
}

/// What the scan finds is what the general parser reads in a window of the
/// text: the window lies inside the one that the scan started from, and the
/// bytes dropped to reach it are fewer than the tries that the scan had.
pub proof fn lemma_scan_matches_a_window(
    parser: Parser,
    text: Seq<u8>,
    fmt: Seq<char>,
    start: int,
    end: int,
    budget: nat,
)
    ensures
        scan_from(parser, text, fmt, start, end, budget) matches ScanOutcome::Matched(value)
            ==> exists|lo: int, hi: int|
            start <= lo < hi <= end && (lo - start) + (end - hi) < budget && #[trigger] window_result(
                parser,
                text,
                fmt,
                lo,
                hi,
            ) == Ok::<CalendarValue, FailureClassification>(value),
    decreases budget,
{
    if budget > 0 && start < end {
        match window_result(parser, text, fmt, start, end) {
            Ok(value) => {
                assert(window_result(parser, text, fmt, start, end) == Ok::<
                    CalendarValue,
                    FailureClassification,
                >(value));
            },
            Err(failure) => {
                let (next_start, next_end) = step_window(start, end, step_for(failure));
                lemma_scan_matches_a_window(
                    parser,
                    text,
                    fmt,
                    next_start,
                    next_end,
                    (budget - 1) as nat,
                );
                match scan_from(parser, text, fmt, next_start, next_end, (budget - 1) as nat) {
                    ScanOutcome::Matched(value) => {
                        let (lo, hi) = choose|lo: int, hi: int|
                            next_start <= lo < hi <= next_end && (lo - next_start) + (next_end - hi)
                                < budget - 1 && #[trigger] window_result(parser, text, fmt, lo, hi)
                                == Ok::<CalendarValue, FailureClassification>(value);
                        assert(start <= lo < hi <= end && (lo - start) + (end - hi) < budget
                            && window_result(parser, text, fmt, lo, hi) == Ok::<
                            CalendarValue,
                            FailureClassification,
                        >(value));
                    },
                    ScanOutcome::Exhausted => {},
                }
            },
        }
    }
}

/// A text that the structured parser reads under a format has the width of
/// that format, and the format is fixed-width.
pub proof fn lemma_fast_parse_width(bytes: Seq<u8>, fmt: Seq<u8>)
    requires
        fast_parse_spec(bytes, fmt) is Some,
    ensures
        fixed_width(fmt) == Some(bytes.len()),
{
    lemma_fields_width(bytes, fmt, 0, 0, no_fields());
}

/// Converting to dates is repeatable, and the cache is not seen in the result:
/// two conversions of one column with one format end the same way, whatever
/// the cache setting of each was.
pub proof fn lemma_as_date_determined(
    column: StringColumn,
    fmt: Option<Seq<char>>,
    first: Result<DateColumn, ConversionError>,
    second: Result<DateColumn, ConversionError>,
)
    requires
        date_conversion(column, fmt, first),
        date_conversion(column, fmt, second),
    ensures
        same_dates(first, second),
{
}

/// Converting to times is repeatable, and the cache is not seen in the result.
pub proof fn lemma_as_time_determined(
    column: StringColumn,
    fmt: Option<Seq<char>>,
    first: Result<TimeColumn, ConversionError>,
    second: Result<TimeColumn, ConversionError>,
)
    requires
        time_conversion(column, fmt, first),
        time_conversion(column, fmt, second),
    ensures
        same_times(first, second),
{
}

/// Converting to date-times is repeatable, and the cache is not seen in the
/// result.
pub proof fn lemma_as_datetime_determined(
    column: StringColumn,
    fmt: Option<Seq<char>>,
    unit: TimeUnit,
    tz_aware: bool,
    tz: Option<Seq<char>>,
    ambiguous: Option<AmbiguousResolution>,
    first: Result<DatetimeColumn, ConversionError>,
    second: Result<DatetimeColumn, ConversionError>,
)
    requires
        datetime_conversion(column, fmt, unit, tz_aware, tz, ambiguous, first),
        datetime_conversion(column, fmt, unit, tz_aware, tz, ambiguous, second),
    ensures
        same_datetimes(first, second),
{
}

/// Scanning for dates is repeatable.
pub proof fn lemma_as_date_not_exact_determined(
    column: StringColumn,
    fmt: Option<Seq<char>>,
    first: Result<DateColumn, ConversionError>,
    second: Result<DateColumn, ConversionError>,
)
    requires
        date_scan_conversion(column, fmt, first),
        date_scan_conversion(column, fmt, second),
    ensures
        same_dates(first, second),
{
}

/// Scanning for date-times is repeatable.
pub proof fn lemma_as_datetime_not_exact_determined(
    column: StringColumn,
    fmt: Option<Seq<char>>,
    unit: TimeUnit,
    tz_aware: bool,
    tz: Option<Seq<char>>,
    ambiguous: Option<AmbiguousResolution>,
    first: Result<DatetimeColumn, ConversionError>,
    second: Result<DatetimeColumn, ConversionError>,
)
    requires
        datetime_scan_conversion(column, fmt, unit, tz_aware, tz, ambiguous, first),
        datetime_scan_conversion(column, fmt, unit, tz_aware, tz, ambiguous, second),
    ensures
        same_datetimes(first, second),
{
}

/// The codes of a column are as many as its texts, and a null has no code.
pub proof fn lemma_codes_keep_shape(
    conversion: Conversion,
    texts: Seq<Option<Seq<char>>>,
    fmt: Seq<char>,
)
    ensures
        codes_spec(conversion, texts, fmt).len() == texts.len(),
        forall|i: int|
            0 <= i < texts.len() && texts[i] is None ==> #[trigger] codes_spec(
                conversion,
                texts,
                fmt,
            )[i] is None,
{
}

/// A column of dates that a conversion made has a value for each text of the
/// column of text, and a null for each null.
pub proof fn lemma_as_date_keeps_shape(column: StringColumn, fmt: Option<Seq<char>>, out: DateColumn)
    requires
        date_conversion(column, fmt, Ok(out)) || date_scan_conversion(column, fmt, Ok(out)),
    ensures
        out.values@.len() == column.texts().len(),
        forall|i: int|
            0 <= i < column.texts().len() && column.texts()[i] is None
                ==> #[trigger] out.values@[i] is None,
{
}

/// A column of times that a conversion made has a value for each text of the
/// column of text, and a null for each null.
pub proof fn lemma_as_time_keeps_shape(column: StringColumn, fmt: Option<Seq<char>>, out: TimeColumn)
    requires
        time_conversion(column, fmt, Ok(out)),
    ensures
        out.values@.len() == column.texts().len(),
        forall|i: int|
            0 <= i < column.texts().len() && column.texts()[i] is None
                ==> #[trigger] out.values@[i] is None,
{
}

/// A column of date-times that a conversion made has a value for each text of
/// the column of text, and a null for each null, also where a zone was
/// attached.
pub proof fn lemma_as_datetime_keeps_shape(
    column: StringColumn,
    fmt: Option<Seq<char>>,
    unit: TimeUnit,
    tz_aware: bool,
    tz: Option<Seq<char>>,
    ambiguous: Option<AmbiguousResolution>,
    out: DatetimeColumn,
)
    requires
        datetime_conversion(column, fmt, unit, tz_aware, tz, ambiguous, Ok(out))
            || datetime_scan_conversion(column, fmt, unit, tz_aware, tz, ambiguous, Ok(out)),
    ensures
        out.values@.len() == column.texts().len(),
        forall|i: int|
            0 <= i < column.texts().len() && column.texts()[i] is None
                ==> #[trigger] out.values@[i] is None,
{
}

} // verus!
