use utf8_temporal::calendar::TimeUnit;
use utf8_temporal::column::DateColumn;
use utf8_temporal::column::StringColumn;
use utf8_temporal::column::TimeColumn;
use utf8_temporal::error::ConversionError;
use utf8_temporal::utf8::AsUtf8;
use utf8_temporal::utf8::Utf8Methods;

fn column(name: &str, values: &[Option<&str>]) -> StringColumn {
    StringColumn::new(name, values.iter().map(|v| v.map(|s| s.to_string())).collect())
}

struct Labelled {
    label: u8,
    texts: StringColumn,
}

impl AsUtf8 for Labelled {
    fn as_utf8(&self) -> &StringColumn {
        &self.texts
    }
}

impl Utf8Methods for Labelled {}

#[test]
fn cache_does_not_change_dates() {
    let ca = column("d", &[Some("2021-01-01"), Some("2021-01-01"), Some("2021-01-02")]);
    let with = ca.as_date(Some("%Y-%m-%d"), true).unwrap();
    let without = ca.as_date(Some("%Y-%m-%d"), false).unwrap();
    assert_eq!(with.values, vec![Some(18628), Some(18628), Some(18629)]);
    assert_eq!(with, without);
    assert_eq!(with.name, "d");
}

#[test]
fn date_inside_a_longer_text() {
    let ca = column("d", &[Some("foo-2021-01-01-bar"), Some("nodatehere")]);
    let out = ca.as_date_not_exact(Some("%Y-%m-%d")).unwrap();
    assert_eq!(out.values, vec![Some(18628), None]);
}

#[test]
fn all_null_column_has_no_format() {
    let ca = column("d", &[None, None]);
    assert_eq!(ca.as_date(None, false), Err(ConversionError::FormatUndeterminable));
    assert_eq!(ca.as_date(None, true), Err(ConversionError::FormatUndeterminable));
    assert_eq!(ca.as_time(None, false), Err(ConversionError::FormatUndeterminable));
    assert_eq!(
        ca.as_datetime(None, TimeUnit::Milliseconds, false, false, None, None),
        Err(ConversionError::FormatUndeterminable)
    );
    assert_eq!(
        ca.as_datetime_not_exact(None, TimeUnit::Milliseconds, false, None, None),
        Err(ConversionError::FormatUndeterminable)
    );
    let empty = column("d", &[]);
    assert_eq!(empty.as_date(None, false), Err(ConversionError::FormatUndeterminable));
}

#[test]
fn all_null_column_with_a_format_is_all_null() {
    let ca = column("d", &[None, None]);
    let out = ca.as_date(Some("%Y-%m-%d"), false).unwrap();
    assert_eq!(out, DateColumn { name: "d".to_string(), values: vec![None, None] });
    let empty = column("e", &[]);
    let out = empty.as_date(Some("%Y-%m-%d"), false).unwrap();
    assert_eq!(out, DateColumn { name: "e".to_string(), values: vec![] });
}

#[test]
fn a_value_that_does_not_parse_is_a_null() {
    let ca = column("d", &[Some("2021-01-01"), Some("soon"), None, Some("2021-02-30"), Some("")]);
    let out = ca.as_date(Some("%Y-%m-%d"), false).unwrap();
    assert_eq!(out.values, vec![Some(18628), None, None, None, None]);
    assert_eq!(out.values.len(), ca.len());
}

#[test]
fn dates_fall_back_to_the_general_parser() {
    let ca = column("d", &[Some("2021-1-1"), Some(" 2021-01-01"), Some("-2021-01-01"), Some("+12021-01-01")]);
    let out = ca.as_date(Some("%Y-%m-%d"), false).unwrap();
    assert_eq!(out.values, vec![Some(18628), Some(18628), Some(-1457683), Some(3671053)]);
}

#[test]
fn dates_under_a_format_without_a_fixed_width() {
    let ca = column("d", &[Some("1 Jan 2021"), Some("31 Dec 1969"), Some("2021-01-01")]);
    let out = ca.as_date(Some("%d %b %Y"), true).unwrap();
    assert_eq!(out.values, vec![Some(18628), Some(-1), None]);
}

#[test]
fn dates_under_shorthand() {
    let ca = column("d", &[Some("2021-01-01"), Some("01/02/21")]);
    assert_eq!(ca.as_date(Some("%F"), false).unwrap().values, vec![Some(18628), None]);
    assert_eq!(ca.as_date(Some("%D"), false).unwrap().values, vec![None, Some(18629)]);
}

#[test]
fn dates_sniff_their_format() {
    let ca = column("d", &[None, Some("31/12/2021"), Some("01/01/2022"), Some("2022-01-02")]);
    let out = ca.as_date(None, false).unwrap();
    assert_eq!(out.values, vec![None, Some(18992), Some(18993), None]);
}

#[test]
fn a_dangling_percent_is_an_invalid_format() {
    let ca = column("d", &[Some("2021-01-01")]);
    assert_eq!(ca.as_date(Some("%Y-%m-%"), false), Err(ConversionError::InvalidFormat));
    assert_eq!(ca.as_time(Some("%"), false), Err(ConversionError::InvalidFormat));
    assert_eq!(
        ca.as_datetime(Some("%Y%"), TimeUnit::Milliseconds, false, false, None, None),
        Err(ConversionError::InvalidFormat)
    );
}

#[test]
fn a_format_that_the_parser_does_not_know_gives_nulls() {
    let ca = column("d", &[Some("2021-01-01")]);
    assert_eq!(ca.as_date(Some("%Y-%m-%Q"), false).unwrap().values, vec![None]);
}

#[test]
fn times_of_day() {
    let ca = column("t", &[Some("00:00:00"), Some("23:59:59"), None, Some("24:00:00"), Some("12:30")]);
    let out = ca.as_time(Some("%H:%M:%S"), false).unwrap();
    assert_eq!(
        out,
        TimeColumn {
            name: "t".to_string(),
            values: vec![Some(0), Some(86_399_000_000_000), None, None, None],
        }
    );
    let out = ca.as_time(Some("%T"), true).unwrap();
    assert_eq!(out.values, vec![Some(0), Some(86_399_000_000_000), None, None, None]);
}

#[test]
fn times_sniff_their_format() {
    let ca = column("t", &[Some("12:30:15.500"), Some("12:30:15"), Some("12:30:15.5")]);
    let out = ca.as_time(None, false).unwrap();
    assert_eq!(out.values, vec![Some(45_015_500_000_000), Some(45_015_000_000_000), None]);
    let ca = column("t", &[Some("12:30:15.5")]);
    assert_eq!(ca.as_time(None, false), Err(ConversionError::FormatUndeterminable));
}

#[test]
fn times_keep_a_leap_second() {
    let ca = column("t", &[Some("23:59:60")]);
    let out = ca.as_time(Some("%H:%M:%S"), false).unwrap();
    assert_eq!(out.values, vec![Some(86_400_000_000_000)]);
}

#[test]
fn datetimes_in_each_unit() {
    let ca = column("dt", &[Some("2021-01-01T00:00:01"), None, Some("2021-01-01")]);
    let fmt = Some("%Y-%m-%dT%H:%M:%S");
    let ms = ca.as_datetime(fmt, TimeUnit::Milliseconds, false, false, None, None).unwrap();
    assert_eq!(ms.values, vec![Some(1_609_459_201_000), None, None]);
    assert_eq!(ms.time_unit, TimeUnit::Milliseconds);
    assert_eq!(ms.time_zone, None);
    assert_eq!(ms.name, "dt");
    let us = ca.as_datetime(fmt, TimeUnit::Microseconds, false, false, None, None).unwrap();
    assert_eq!(us.values, vec![Some(1_609_459_201_000_000), None, None]);
    assert_eq!(us.time_unit, TimeUnit::Microseconds);
    let ns = ca.as_datetime(fmt, TimeUnit::Nanoseconds, false, false, None, None).unwrap();
    assert_eq!(ns.values, vec![Some(1_609_459_201_000_000_000), None, None]);
    assert_eq!(ns.time_unit, TimeUnit::Nanoseconds);
}

#[test]
fn datetimes_read_a_bare_date_as_midnight() {
    let ca = column("dt", &[Some("2021-01-01"), Some("2021-1-2")]);
    let out = ca
        .as_datetime(Some("%Y-%m-%d"), TimeUnit::Milliseconds, false, false, None, None)
        .unwrap();
    assert_eq!(out.values, vec![Some(1_609_459_200_000), Some(1_609_545_600_000)]);
    let out = ca.as_datetime(None, TimeUnit::Milliseconds, false, false, None, None).unwrap();
    assert_eq!(out.values, vec![Some(1_609_459_200_000), Some(1_609_545_600_000)]);
}

#[test]
fn datetimes_sniff_their_format() {
    let ca = column("dt", &[None, Some("2021-01-01 00:00:01.500"), Some("2021-01-01 00:00:02")]);
    let out = ca.as_datetime(None, TimeUnit::Milliseconds, true, false, None, None).unwrap();
    assert_eq!(out.values, vec![None, Some(1_609_459_201_500), None]);
}

#[test]
fn datetimes_with_fractions_of_a_second() {
    let ca = column("dt", &[Some("2021-01-01 00:00:01.123456789"), Some("2021-01-01 00:00:01.1")]);
    let fixed = Some("%Y-%m-%d %H:%M:%S.%9f");
    let free = Some("%Y-%m-%d %H:%M:%S%.f");
    let out = ca.as_datetime(fixed, TimeUnit::Nanoseconds, false, false, None, None).unwrap();
    assert_eq!(out.values, vec![Some(1_609_459_201_123_456_789), None]);
    let out = ca.as_datetime(free, TimeUnit::Nanoseconds, false, false, None, None).unwrap();
    assert_eq!(out.values, vec![Some(1_609_459_201_123_456_789), Some(1_609_459_201_100_000_000)]);
    let out = ca.as_datetime(fixed, TimeUnit::Microseconds, false, false, None, None).unwrap();
    assert_eq!(out.values, vec![Some(1_609_459_201_123_456), None]);
    let out = ca.as_datetime(fixed, TimeUnit::Milliseconds, false, false, None, None).unwrap();
    assert_eq!(out.values, vec![Some(1_609_459_201_123), None]);
}

#[test]
fn datetimes_that_nanoseconds_cannot_count_are_nulls() {
    let ca = column("dt", &[Some("2300-01-01 00:00:00"), Some("1600-01-01 00:00:00"), Some("2021-01-01 00:00:00")]);
    let fmt = Some("%Y-%m-%d %H:%M:%S");
    let out = ca.as_datetime(fmt, TimeUnit::Nanoseconds, false, false, None, None).unwrap();
    assert_eq!(out.values, vec![None, None, Some(1_609_459_200_000_000_000)]);
    let out = ca.as_datetime(fmt, TimeUnit::Microseconds, false, false, None, None).unwrap();
    assert_eq!(
        out.values,
        vec![Some(10_413_792_000_000_000), Some(-11_676_096_000_000_000), Some(1_609_459_200_000_000)]
    );
}

#[test]
fn conversions_work_on_anything_that_holds_a_column() {
    let holder = Labelled { label: 7, texts: column("inner", &[Some("2021-01-01"), None]) };
    assert_eq!(holder.label, 7);
    assert_eq!(holder.as_utf8().name(), "inner");
    let out = holder.as_date(Some("%Y-%m-%d"), false).unwrap();
    assert_eq!(out, DateColumn { name: "inner".to_string(), values: vec![Some(18628), None] });
    let out = holder.as_time(Some("%Y-%m-%d"), false).unwrap();
    assert_eq!(out.values, vec![None, None]);
}
