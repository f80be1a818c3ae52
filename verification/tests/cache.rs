use std::cell::Cell;
use utf8_temporal::cache::cache_enabled;
use utf8_temporal::cache::CACHE_THRESHOLD;
use utf8_temporal::cache::ParseCache;
use utf8_temporal::calendar::CalendarDate;
use utf8_temporal::calendar::CalendarValue;
use utf8_temporal::calendar::TimeUnit;
use utf8_temporal::column::StringColumn;
use utf8_temporal::convert::code;
use utf8_temporal::convert::code_of_value;
use utf8_temporal::convert::convert_values;
use utf8_temporal::convert::Conversion;
use utf8_temporal::format::compile;
use utf8_temporal::format::CompiledFormat;
use utf8_temporal::general_parser::Parser;
use utf8_temporal::utf8::Utf8Methods;

fn batch(size: usize) -> StringColumn {
    let days = ["2021-01-01", "2021-01-02", "not a date"];
    let values = (0..size).map(|i| if i % 7 == 6 { None } else { Some(days[i % 3].to_string()) });
    StringColumn::new("b", values.collect())
}

fn expected(size: usize) -> Vec<Option<i32>> {
    let days = [Some(18628), Some(18629), None];
    (0..size).map(|i| if i % 7 == 6 { None } else { days[i % 3] }).collect()
}

#[test]
fn cache_computes_a_text_once() {
    let calls = Cell::new(0);
    let mut cache = ParseCache::new();
    assert_eq!(cache.len(), 0);
    assert_eq!(cache.get("a"), None);
    let first = cache.get_or_parse("a", || {
        calls.set(calls.get() + 1);
        Some(7)
    });
    assert_eq!(first, Some(7));
    assert_eq!(calls.get(), 1);
    let again = cache.get_or_parse("a", || {
        calls.set(calls.get() + 1);
        Some(8)
    });
    assert_eq!(again, Some(7));
    assert_eq!(calls.get(), 1);
    assert_eq!(cache.len(), 1);
    assert_eq!(cache.get("a"), Some(Some(7)));
}

#[test]
fn cache_remembers_a_miss() {
    let calls = Cell::new(0);
    let mut cache = ParseCache::new();
    let first = cache.get_or_parse("bad", || {
        calls.set(calls.get() + 1);
        None
    });
    let again = cache.get_or_parse("bad", || {
        calls.set(calls.get() + 1);
        Some(1)
    });
    assert_eq!(first, None);
    assert_eq!(again, None);
    assert_eq!(calls.get(), 1);
    assert_eq!(cache.get("bad"), Some(None));
    assert_eq!(cache.get("other"), None);
}

#[test]
fn cache_keeps_texts_apart() {
    let mut cache = ParseCache::new();
    assert_eq!(cache.get_or_parse("a", || Some(1)), Some(1));
    assert_eq!(cache.get_or_parse("b", || Some(2)), Some(2));
    assert_eq!(cache.get_or_parse("", || Some(3)), Some(3));
    assert_eq!(cache.get_or_parse("a", || Some(4)), Some(1));
    assert_eq!(cache.len(), 3);
}

#[test]
fn cache_needs_more_than_fifty_values() {
    assert_eq!(CACHE_THRESHOLD, 50);
    assert!(!cache_enabled(true, 0));
    assert!(!cache_enabled(true, 50));
    assert!(cache_enabled(true, 51));
    assert!(cache_enabled(true, usize::MAX));
    assert!(!cache_enabled(false, 51));
    assert!(!cache_enabled(false, 50));
}

#[test]
fn threshold_boundary() {
    let compiled = compile("%Y-%m-%d").unwrap();
    for size in [50usize, 51] {
        let column = batch(size);
        let use_cache = cache_enabled(true, column.len());
        let (values, cache) = convert_values(&column, Conversion::Date, &compiled, use_cache);
        let days: Vec<Option<i32>> = values.iter().map(|v| v.map(|d| d as i32)).collect();
        assert_eq!(days, expected(size));
        if size == 50 {
            assert_eq!(cache.len(), 0);
        } else {
            assert_eq!(cache.len(), 3);
            assert_eq!(cache.get("2021-01-01"), Some(Some(18628)));
            assert_eq!(cache.get("not a date"), Some(None));
        }
        assert_eq!(column.as_date(Some("%Y-%m-%d"), true).unwrap().values, expected(size));
        assert_eq!(column.as_date(Some("%Y-%m-%d"), false).unwrap().values, expected(size));
    }
}

#[test]
fn cache_transparency() {
    let ca = StringColumn::new(
        "d",
        vec![
            Some("2021-01-01".to_string()),
            Some("2021-01-01".to_string()),
            Some("2021-01-02".to_string()),
        ],
    );
    let on = ca.as_date(Some("%Y-%m-%d"), true).unwrap();
    let off = ca.as_date(Some("%Y-%m-%d"), false).unwrap();
    assert_eq!(on.values, vec![Some(18628), Some(18628), Some(18629)]);
    assert_eq!(off.values, vec![Some(18628), Some(18628), Some(18629)]);
}

#[test]
fn cache_does_not_change_large_batches() {
    let column = batch(200);
    let on = column.as_date(Some("%Y-%m-%d"), true).unwrap();
    let off = column.as_date(Some("%Y-%m-%d"), false).unwrap();
    assert_eq!(on, off);
    assert_eq!(on.values, expected(200));
    let on = column.as_datetime(Some("%Y-%m-%d"), TimeUnit::Microseconds, true, false, None, None);
    let off = column.as_datetime(Some("%Y-%m-%d"), TimeUnit::Microseconds, false, false, None, None);
    assert_eq!(on, off);
    let on = column.as_datetime(Some("%Y-%m-%d %z"), TimeUnit::Microseconds, true, true, None, None);
    let off = column.as_datetime(Some("%Y-%m-%d %z"), TimeUnit::Microseconds, false, true, None, None);
    assert_eq!(on, off);
    let on = column.as_time(Some("%Y-%m-%d"), true);
    let off = column.as_time(Some("%Y-%m-%d"), false);
    assert_eq!(on, off);
}

#[test]
fn conversion_is_idempotent() {
    let column = batch(60);
    for cache in [true, false] {
        let first = column.as_date(Some("%Y-%m-%d"), cache);
        let second = column.as_date(Some("%Y-%m-%d"), cache);
        assert_eq!(first, second);
        let first = column.as_datetime(Some("%Y-%m-%d"), TimeUnit::Nanoseconds, cache, false, None, None);
        let second = column.as_datetime(Some("%Y-%m-%d"), TimeUnit::Nanoseconds, cache, false, None, None);
        assert_eq!(first, second);
    }
}

#[test]
fn code_of_one_text() {
    let dash = compile("%Y-%m-%d").unwrap();
    assert_eq!(code(Conversion::Date, "2021-01-01", &dash), Some(18628));
    assert_eq!(code(Conversion::Date, "2021-1-1", &dash), Some(18628));
    assert_eq!(code(Conversion::Date, "2021-01-32", &dash), None);
    assert_eq!(
        code(Conversion::Datetime(TimeUnit::Milliseconds), "2021-01-01", &dash),
        Some(1_609_459_200_000)
    );
    assert_eq!(code(Conversion::Datetime(TimeUnit::Nanoseconds), "2300-01-01", &dash), None);
    assert_eq!(code(Conversion::Time, "2021-01-01", &dash), None);
    let clock = compile("%T").unwrap();
    assert_eq!(code(Conversion::Time, "00:00:01", &clock), Some(1_000_000_000));
    let offset = compile("%Y-%m-%d %H:%M %z").unwrap();
    assert_eq!(
        code(Conversion::OffsetDatetime(TimeUnit::Milliseconds), "1970-01-01 01:00 +0100", &offset),
        Some(0)
    );
    let scan_date = Conversion::Scan(Parser::NaiveDate, TimeUnit::Milliseconds);
    assert_eq!(code(scan_date, "<<2021-01-01>>", &CompiledFormat::verbatim("%Y-%m-%d")), Some(18628));
    let scan_moment = Conversion::Scan(Parser::NaiveDateTime, TimeUnit::Milliseconds);
    assert_eq!(
        code(scan_moment, "<<1970-01-02 00:00>>", &CompiledFormat::verbatim("%Y-%m-%d %H:%M")),
        Some(86_400_000)
    );
}

#[test]
fn a_format_taken_verbatim_is_measured_but_not_rewritten() {
    let format = CompiledFormat::verbatim("%F");
    assert_eq!(format.format(), "%F");
    assert_eq!(format.fixed_len(), None);
    let format = CompiledFormat::verbatim("%Y-%m-%d");
    assert_eq!(format.format(), "%Y-%m-%d");
    assert_eq!(format.fixed_len(), Some(10));
}

#[test]
fn code_of_a_parsed_value() {
    let date = CalendarValue::Date(CalendarDate { year: 1970, month: 1, day: 11 });
    assert_eq!(code_of_value(date, TimeUnit::Nanoseconds), Some(10));
}
