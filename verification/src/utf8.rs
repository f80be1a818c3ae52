//! The conversions of a column of text: to dates, to times of day and to
//! date-times, reading each text whole or looking for the value inside it.

use crate::cache::cache_enabled;
use crate::calendar::TimeUnit;
use crate::column::DateColumn;
use crate::column::DatetimeColumn;
use crate::column::StringColumn;
use crate::column::TimeColumn;
use crate::convert::codes_spec;
use crate::convert::convert_values;
use crate::convert::Conversion;
use crate::error::ConversionError;
use crate::format::compile;
use crate::format::normalize;
use crate::format::CompiledFormat;
use crate::general_parser::Parser;
use crate::sniff::sniff_column_spec;
use crate::sniff::sniff_fmt_date;
use crate::sniff::sniff_fmt_datetime;
use crate::sniff::sniff_fmt_time;
use crate::sniff::TemporalKind;
use crate::timezone::attach_zone;
use crate::timezone::attached;
use crate::timezone::zone_mode;
use crate::timezone::zone_mode_spec;
use crate::timezone::AmbiguousResolution;
use crate::timezone::ZoneMode;
use vstd::prelude::*;

verus! {

/// The text of a format that may not have been given.
pub open spec fn format_text(fmt: Option<&str>) -> Option<Seq<char>> {
    match fmt {
        Some(f) => Some(f@),
        None => None,
    }
}

/// The format that a conversion works with: the one given, or else the one
/// sniffed from the column.
pub open spec fn resolved_format(
    kind: TemporalKind,
    texts: Seq<Option<Seq<char>>>,
    fmt: Option<Seq<char>>,
) -> Result<Seq<char>, ConversionError> {
    match fmt {
        Some(f) => Ok(f),
        None => match sniff_column_spec(kind, texts) {
            Some(f) => Ok(f),
            None => Err(ConversionError::FormatUndeterminable),
        },
    }
}

/// The format that an exact conversion parses with: the resolved format,
/// compiled.
pub open spec fn compiled_format(
    kind: TemporalKind,
    texts: Seq<Option<Seq<char>>>,
    fmt: Option<Seq<char>>,
) -> Result<Seq<char>, ConversionError> {
    match resolved_format(kind, texts, fmt) {
        Ok(f) => match normalize(f) {
            Some(written) => Ok(written),
            None => Err(ConversionError::InvalidFormat),
        },
        Err(e) => Err(e),
    }
}

/// Codes of days as a column of dates stores them.
pub open spec fn days_of(codes: Seq<Option<i64>>) -> Seq<Option<i32>> {
    Seq::new(
        codes.len(),
        |i: int|
            match codes[i] {
                Some(v) => Some(v as i32),
                None => None,
            },
    )
}

/// What `as_time` owes for a column and a format.
pub open spec fn time_conversion(
    column: StringColumn,
    fmt: Option<Seq<char>>,
    r: Result<TimeColumn, ConversionError>,
) -> bool {
    match compiled_format(TemporalKind::Time, column.texts(), fmt) {
        Ok(f) => r matches Ok(out) && out.name@ == column.name@ && out.values@ == codes_spec(
            Conversion::Time,
            column.texts(),
            f,
        ),
        Err(e) => r == Err::<TimeColumn, ConversionError>(e),
    }
}

/// What `as_date` owes for a column and a format.
pub open spec fn date_conversion(
    column: StringColumn,
    fmt: Option<Seq<char>>,
    r: Result<DateColumn, ConversionError>,
) -> bool {
    match compiled_format(TemporalKind::Date, column.texts(), fmt) {
        Ok(f) => r matches Ok(out) && out.name@ == column.name@ && out.values@ == days_of(
            codes_spec(Conversion::Date, column.texts(), f),
        ),
        Err(e) => r == Err::<DateColumn, ConversionError>(e),
    }
}

/// What `as_date_not_exact` owes for a column and a format.
pub open spec fn date_scan_conversion(
    column: StringColumn,
    fmt: Option<Seq<char>>,
    r: Result<DateColumn, ConversionError>,
) -> bool {
    match resolved_format(TemporalKind::Date, column.texts(), fmt) {
        Ok(f) => r matches Ok(out) && out.name@ == column.name@ && out.values@ == days_of(
            codes_spec(Conversion::Scan(Parser::NaiveDate, TimeUnit::Milliseconds), column.texts(), f),
        ),
        Err(e) => r == Err::<DateColumn, ConversionError>(e),
    }
}

/// What becomes of the ticks of a column once its zone is settled. Texts with
/// an offset give instants, tagged UTC. Local times stay as they are and are
/// not tagged, unless a zone is named: then the zone is attached and the column
/// is tagged with it.
pub open spec fn zone_settled(
    name: Seq<char>,
    ticks: Seq<Option<i64>>,
    unit: TimeUnit,
    tz_aware: bool,
    tz: Option<Seq<char>>,
    ambiguous: Option<AmbiguousResolution>,
    r: Result<DatetimeColumn, ConversionError>,
) -> bool {
    match zone_mode_spec(tz_aware, tz is Some) {
        ZoneMode::ExplicitOffset => r matches Ok(out) && out.name@ == name && out.values@ == ticks
            && out.time_unit == unit && out.zone_text() == Some("UTC"@),
        ZoneMode::Naive => r matches Ok(out) && out.name@ == name && out.values@ == ticks
            && out.time_unit == unit && out.zone_text() is None,
        ZoneMode::AttachZone => match r {
            Ok(out) => out.name@ == name && out.time_unit == unit && out.zone_text() == tz
                && attached(ticks, unit, tz->0, ambiguous, Ok(out.values)),
            Err(ConversionError::ZoneAttachment(failure)) => attached(
                ticks,
                unit,
                tz->0,
                ambiguous,
                Err(failure),
            ),
            Err(_) => false,
        },
    }
}

/// The conversion that reads a whole text as a date-time.
pub open spec fn exact_datetime(unit: TimeUnit, tz_aware: bool) -> Conversion {
    if tz_aware {
        Conversion::OffsetDatetime(unit)
    } else {
        Conversion::Datetime(unit)
    }
}

/// The conversion that looks for a date-time inside a text.
pub open spec fn scanned_datetime(unit: TimeUnit, tz_aware: bool) -> Conversion {
    if tz_aware {
        Conversion::Scan(Parser::OffsetDateTime, unit)
    } else {
        Conversion::Scan(Parser::NaiveDateTime, unit)
    }
}

/// What `as_datetime` owes for a column and its settings.
pub open spec fn datetime_conversion(
    column: StringColumn,
    fmt: Option<Seq<char>>,
    unit: TimeUnit,
    tz_aware: bool,
    tz: Option<Seq<char>>,
    ambiguous: Option<AmbiguousResolution>,
    r: Result<DatetimeColumn, ConversionError>,
) -> bool {
    match compiled_format(TemporalKind::Datetime, column.texts(), fmt) {
        Ok(f) => zone_settled(
            column.name@,
            codes_spec(exact_datetime(unit, tz_aware), column.texts(), f),
            unit,
            tz_aware,
            tz,
            ambiguous,
            r,
        ),
        Err(e) => r == Err::<DatetimeColumn, ConversionError>(e),
    }
}

/// What `as_datetime_not_exact` owes for a column and its settings.
pub open spec fn datetime_scan_conversion(
    column: StringColumn,
    fmt: Option<Seq<char>>,
    unit: TimeUnit,
    tz_aware: bool,
    tz: Option<Seq<char>>,
    ambiguous: Option<AmbiguousResolution>,
    r: Result<DatetimeColumn, ConversionError>,
) -> bool {
    match resolved_format(TemporalKind::Datetime, column.texts(), fmt) {
        Ok(f) => zone_settled(
            column.name@,
            codes_spec(scanned_datetime(unit, tz_aware), column.texts(), f),
            unit,
            tz_aware,
            tz,
            ambiguous,
            r,
        ),
        Err(e) => r == Err::<DatetimeColumn, ConversionError>(e),
    }
}

/// The format given, or else the one sniffed from the column.
fn resolve_format<'f>(kind: TemporalKind, ca: &StringColumn, fmt: Option<&'f str>) -> (r: Result<
    &'f str,
    ConversionError,
>)
    ensures
        match r {
            Ok(f) => resolved_format(kind, ca.texts(), format_text(fmt)) == Ok::<
                _,
                ConversionError,
            >(f@),
            Err(e) => resolved_format(kind, ca.texts(), format_text(fmt)) == Err::<Seq<char>, _>(e),
        },
{
    match fmt {
        Some(f) => Ok(f),
        None => {
            let sniffed: Result<&'static str, ConversionError> = match kind {
                TemporalKind::Date => sniff_fmt_date(ca),
                TemporalKind::Time => sniff_fmt_time(ca),
                TemporalKind::Datetime => sniff_fmt_datetime(ca),
            };
            match sniffed {
                Ok(f) => Ok(f),
                Err(_) => Err(ConversionError::FormatUndeterminable),
            }
        },
    }
}

/// Codes of days as 32-bit values.
fn to_days(codes: &Vec<Option<i64>>) -> (days: Vec<Option<i32>>)
    requires
        forall|i: int|
            0 <= i < codes@.len() ==> (#[trigger] codes@[i] matches Some(v) ==> i32::MIN <= v
                <= i32::MAX),
    ensures
        days@ == days_of(codes@),
{
    let mut days: Vec<Option<i32>> = Vec::new();
    let mut i: usize = 0;
    while i < codes.len()
        invariant
            i <= codes@.len(),
            days@.len() == i,
            forall|j: int| 0 <= j < i ==> #[trigger] days@[j] == days_of(codes@)[j],
            forall|j: int|
                0 <= j < codes@.len() ==> (#[trigger] codes@[j] matches Some(v) ==> i32::MIN <= v
                    <= i32::MAX),
        decreases codes@.len() - i,
    {
        let code: Option<i64> = codes[i];
        let day: Option<i32> = match code {
            Some(v) => Some(v as i32),
            None => None,
        };
        days.push(day);
        i = i + 1;
    }
    assert(days@ =~= days_of(codes@));
    days
}

/// Settles the zone of a column of ticks.
fn settle_zone(
    name: &str,
    ticks: Vec<Option<i64>>,
    unit: TimeUnit,
    tz_aware: bool,
    tz: Option<&str>,
    ambiguous: Option<AmbiguousResolution>,
) -> (r: Result<DatetimeColumn, ConversionError>)
    ensures
        zone_settled(name@, ticks@, unit, tz_aware, format_text(tz), ambiguous, r),
{
    match zone_mode(tz_aware, tz.is_some()) {
        ZoneMode::ExplicitOffset => Ok(
            DatetimeColumn {
                name: name.to_owned(),
                values: ticks,
                time_unit: unit,
                time_zone: Some("UTC".to_owned()),
            },
        ),
        ZoneMode::Naive => Ok(
            DatetimeColumn { name: name.to_owned(), values: ticks, time_unit: unit, time_zone: None },
        ),
        ZoneMode::AttachZone => {
            let zone: &str = match tz {
                Some(z) => z,
                None => "UTC",
            };
            match attach_zone(&ticks, unit, zone, ambiguous) {
                Ok(instants) => Ok(
                    DatetimeColumn {
                        name: name.to_owned(),
                        values: instants,
                        time_unit: unit,
                        time_zone: Some(zone.to_owned()),
                    },
                ),
                Err(failure) => Err(ConversionError::ZoneAttachment(failure)),
            }
        },
    }
}

/// Anything that holds a column of text.
pub trait AsUtf8 {
    /// The column that `as_utf8` hands out. It is a matter of proof alone:
    /// a holder that is not verified leaves it as it is.
    open spec fn column(&self) -> StringColumn {
        arbitrary()
    }

    /// The column of text.
    fn as_utf8(&self) -> (ca: &StringColumn)
        ensures
            *ca == self.column(),
    ;
}

/// The conversions of a column of text. Each keeps the column's name and
/// length; a null stays a null, and a text that gives no value becomes one.
pub trait Utf8Methods: AsUtf8 {
    /// Reads each text as a time of day. Without a format one is sniffed from
    /// the first text. `cache` asks for each distinct text to be parsed once;
    /// it changes nothing in the result.
    fn as_time(&self, fmt: Option<&str>, cache: bool) -> (r: Result<TimeColumn, ConversionError>)
        ensures
            time_conversion(self.column(), format_text(fmt), r),
    {
        let ca = self.as_utf8();
        let fmt: &str = match resolve_format(TemporalKind::Time, ca, fmt) {
            Ok(f) => f,
            Err(e) => {
                return Err(e);
            },
        };
        let compiled = match compile(fmt) {
            Ok(c) => c,
            Err(e) => {
                return Err(e);
            },
        };
        let use_cache: bool = cache_enabled(cache, ca.len());
        let (values, _) = convert_values(ca, Conversion::Time, &compiled, use_cache);
        Ok(TimeColumn { name: ca.name().to_owned(), values })
    }

    /// Looks in each text for a date, which may have other text before and
    /// after it. Without a format one is sniffed from the first text.
    fn as_date_not_exact(&self, fmt: Option<&str>) -> (r: Result<DateColumn, ConversionError>)
        ensures
            date_scan_conversion(self.column(), format_text(fmt), r),
    {
        let ca = self.as_utf8();
        let fmt: &str = match resolve_format(TemporalKind::Date, ca, fmt) {
            Ok(f) => f,
            Err(e) => {
                return Err(e);
            },
        };
        let format = CompiledFormat::verbatim(fmt);
        let (codes, _) = convert_values(
            ca,
            Conversion::Scan(Parser::NaiveDate, TimeUnit::Milliseconds),
            &format,
            false,
        );
        Ok(DateColumn { name: ca.name().to_owned(), values: to_days(&codes) })
    }

    /// Looks in each text for a date-time, which may have other text before
    /// and after it, and settles the zone of the column. Without a format one
    /// is sniffed from the first text.
    fn as_datetime_not_exact(
        &self,
        fmt: Option<&str>,
        tu: TimeUnit,
        tz_aware: bool,
        tz: Option<&str>,
        ambiguous: Option<AmbiguousResolution>,
    ) -> (r: Result<DatetimeColumn, ConversionError>)
        ensures
            datetime_scan_conversion(
                self.column(),
                format_text(fmt),
                tu,
                tz_aware,
                format_text(tz),
                ambiguous,
                r,
            ),
    {
        let ca = self.as_utf8();
        let fmt: &str = match resolve_format(TemporalKind::Datetime, ca, fmt) {
            Ok(f) => f,
            Err(e) => {
                return Err(e);
            },
        };
        let conversion: Conversion = if tz_aware {
            Conversion::Scan(Parser::OffsetDateTime, tu)
        } else {
            Conversion::Scan(Parser::NaiveDateTime, tu)
        };
        let format = CompiledFormat::verbatim(fmt);
        let (ticks, _) = convert_values(ca, conversion, &format, false);
        settle_zone(ca.name(), ticks, tu, tz_aware, tz, ambiguous)
    }

    /// Reads each text as a date. Without a format one is sniffed from the
    /// first text. `cache` asks for each distinct text to be parsed once; it
    /// changes nothing in the result.
    fn as_date(&self, fmt: Option<&str>, cache: bool) -> (r: Result<DateColumn, ConversionError>)
        ensures
            date_conversion(self.column(), format_text(fmt), r),
    {
        let ca = self.as_utf8();
        let fmt: &str = match resolve_format(TemporalKind::Date, ca, fmt) {
            Ok(f) => f,
            Err(e) => {
                return Err(e);
            },
        };
        let compiled = match compile(fmt) {
            Ok(c) => c,
            Err(e) => {
                return Err(e);
            },
        };
        let use_cache: bool = cache_enabled(cache, ca.len());
        let (codes, _) = convert_values(ca, Conversion::Date, &compiled, use_cache);
        Ok(DateColumn { name: ca.name().to_owned(), values: to_days(&codes) })
    }

    /// Reads each text as a date-time and settles the zone of the column.
    /// With `tz_aware` each text carries a numeric offset. Without a format
    /// one is sniffed from the first text. `cache` asks for each distinct text
    /// to be parsed once; it changes nothing in the result.
    fn as_datetime(
        &self,
        fmt: Option<&str>,
        tu: TimeUnit,
        cache: bool,
        tz_aware: bool,
        tz: Option<&str>,
        ambiguous: Option<AmbiguousResolution>,
    ) -> (r: Result<DatetimeColumn, ConversionError>)
        ensures
            datetime_conversion(
                self.column(),
                format_text(fmt),
                tu,
                tz_aware,
                format_text(tz),
                ambiguous,
                r,
            ),
    {
        let ca = self.as_utf8();
        let fmt: &str = match resolve_format(TemporalKind::Datetime, ca, fmt) {
            Ok(f) => f,
            Err(e) => {
                return Err(e);
            },
        };
        let compiled = match compile(fmt) {
            Ok(c) => c,
            Err(e) => {
                return Err(e);
            },
        };
        let conversion: Conversion = if tz_aware {
            Conversion::OffsetDatetime(tu)
        } else {
            Conversion::Datetime(tu)
        };
        let use_cache: bool = cache_enabled(cache, ca.len());
        let (ticks, _) = convert_values(ca, conversion, &compiled, use_cache);
        settle_zone(ca.name(), ticks, tu, tz_aware, tz, ambiguous)
    }
}

impl AsUtf8 for StringColumn {
    open spec fn column(&self) -> StringColumn {
        *self
    }

    fn as_utf8(&self) -> (ca: &StringColumn) {
        self
    }
}

impl Utf8Methods for StringColumn {

}

} // verus!
