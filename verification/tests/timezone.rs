use utf8_temporal::calendar::TimeUnit;
use utf8_temporal::column::StringColumn;
use utf8_temporal::error::ConversionError;
use utf8_temporal::error::ZoneFailure;
use utf8_temporal::timezone::attach_zone;
use utf8_temporal::timezone::check_zone_range;
use utf8_temporal::timezone::value_in_zone_range;
use utf8_temporal::timezone::zone_mode;
use utf8_temporal::timezone::AmbiguousResolution;
use utf8_temporal::timezone::MAX_COLUMN_LEN;
use utf8_temporal::timezone::ZoneMode;
use utf8_temporal::utf8::Utf8Methods;

const FMT: &str = "%Y-%m-%d %H:%M:%S";

fn local_times(values: &[Option<&str>]) -> StringColumn {
    StringColumn::new("t", values.iter().map(|v| v.map(|s| s.to_string())).collect())
}

#[test]
fn the_three_zone_modes() {
    assert_eq!(zone_mode(true, false), ZoneMode::ExplicitOffset);
    assert_eq!(zone_mode(true, true), ZoneMode::ExplicitOffset);
    assert_eq!(zone_mode(false, true), ZoneMode::AttachZone);
    assert_eq!(zone_mode(false, false), ZoneMode::Naive);
}

#[test]
fn timezone_ambiguity() {
    let ca = local_times(&[Some("2021-10-31 02:30:00")]);
    let earliest = ca
        .as_datetime(
            Some(FMT),
            TimeUnit::Milliseconds,
            false,
            false,
            Some("Europe/Amsterdam"),
            Some(AmbiguousResolution::Earliest),
        )
        .unwrap();
    let latest = ca
        .as_datetime(
            Some(FMT),
            TimeUnit::Milliseconds,
            false,
            false,
            Some("Europe/Amsterdam"),
            Some(AmbiguousResolution::Latest),
        )
        .unwrap();
    assert_eq!(earliest.values, vec![Some(1_635_640_200_000)]);
    assert_eq!(latest.values, vec![Some(1_635_643_800_000)]);
    assert_ne!(earliest.values, latest.values);
    assert_eq!(earliest.time_zone, Some("Europe/Amsterdam".to_string()));
    assert_eq!(latest.time_zone, Some("Europe/Amsterdam".to_string()));
    let again = ca
        .as_datetime(
            Some(FMT),
            TimeUnit::Milliseconds,
            false,
            false,
            Some("Europe/Amsterdam"),
            Some(AmbiguousResolution::Earliest),
        )
        .unwrap();
    assert_eq!(again, earliest);
}

#[test]
fn an_ambiguous_time_without_a_preference_fails() {
    let ca = local_times(&[Some("2021-10-31 02:30:00")]);
    let out = ca.as_datetime(
        Some(FMT),
        TimeUnit::Milliseconds,
        false,
        false,
        Some("Europe/Amsterdam"),
        None,
    );
    match out {
        Err(ConversionError::ZoneAttachment(ZoneFailure::Refused(message))) => {
            assert!(message.contains("ambiguous"), "{}", message)
        }
        other => panic!("{:?}", other),
    }
}

#[test]
fn the_preference_only_matters_for_ambiguous_times() {
    let ca = local_times(&[Some("2021-07-01 12:00:00"), None, Some("2021-01-01 12:00:00")]);
    for ambiguous in [None, Some(AmbiguousResolution::Earliest), Some(AmbiguousResolution::Latest)] {
        let out = ca
            .as_datetime(
                Some(FMT),
                TimeUnit::Microseconds,
                false,
                false,
                Some("Europe/Amsterdam"),
                ambiguous,
            )
            .unwrap();
        assert_eq!(
            out.values,
            vec![Some(1_625_133_600_000_000), None, Some(1_609_498_800_000_000)]
        );
        assert_eq!(out.name, "t");
        assert_eq!(out.time_unit, TimeUnit::Microseconds);
    }
}

#[test]
fn a_time_that_the_clocks_skipped_fails() {
    let ca = local_times(&[Some("2021-03-28 02:30:00")]);
    let out = ca.as_datetime(
        Some(FMT),
        TimeUnit::Milliseconds,
        false,
        false,
        Some("Europe/Amsterdam"),
        Some(AmbiguousResolution::Earliest),
    );
    match out {
        Err(ConversionError::ZoneAttachment(ZoneFailure::Refused(message))) => {
            assert!(message.contains("non-existent"), "{}", message)
        }
        other => panic!("{:?}", other),
    }
}

#[test]
fn an_unknown_zone_fails() {
    let ca = local_times(&[Some("2021-07-01 12:00:00")]);
    let out =
        ca.as_datetime(Some(FMT), TimeUnit::Milliseconds, false, false, Some("Mars/Olympus"), None);
    assert_eq!(out, Err(ConversionError::ZoneAttachment(ZoneFailure::UnknownZone)));
    let out =
        ca.as_datetime(Some(FMT), TimeUnit::Milliseconds, false, false, Some("europe/amsterdam"), None);
    assert_eq!(out, Err(ConversionError::ZoneAttachment(ZoneFailure::UnknownZone)));
    let out = ca.as_datetime(Some(FMT), TimeUnit::Milliseconds, false, false, Some(""), None);
    assert_eq!(out, Err(ConversionError::ZoneAttachment(ZoneFailure::UnknownZone)));
}

#[test]
fn naive_times_stay_untagged() {
    let ca = local_times(&[Some("2021-07-01 12:00:00")]);
    let out = ca.as_datetime(Some(FMT), TimeUnit::Milliseconds, false, false, None, None).unwrap();
    assert_eq!(out.values, vec![Some(1_625_140_800_000)]);
    assert_eq!(out.time_zone, None);
}

#[test]
fn texts_with_an_offset_become_utc() {
    let ca = local_times(&[
        Some("2021-07-01 12:00:00 +0200"),
        Some("2021-07-01 12:00:00 -0500"),
        Some("2021-07-01 12:00:00"),
        None,
    ]);
    let out = ca
        .as_datetime(
            Some("%Y-%m-%d %H:%M:%S %z"),
            TimeUnit::Milliseconds,
            false,
            true,
            Some("Europe/Amsterdam"),
            None,
        )
        .unwrap();
    assert_eq!(out.values, vec![Some(1_625_133_600_000), Some(1_625_158_800_000), None, None]);
    assert_eq!(out.time_zone, Some("UTC".to_string()));
}

#[test]
fn values_at_the_ends_of_the_range_get_no_zone() {
    let ca = local_times(&[Some("2262-04-11 00:00:00")]);
    let out = ca.as_datetime(
        Some(FMT),
        TimeUnit::Nanoseconds,
        false,
        false,
        Some("Europe/Amsterdam"),
        None,
    );
    assert_eq!(out, Err(ConversionError::ZoneAttachment(ZoneFailure::ValueOutOfRange)));
    let out = ca.as_datetime(Some(FMT), TimeUnit::Nanoseconds, false, false, None, None).unwrap();
    assert_eq!(out.values, vec![Some(9_223_286_400_000_000_000)]);
    let out = ca
        .as_datetime(Some(FMT), TimeUnit::Milliseconds, false, false, Some("UTC"), None)
        .unwrap();
    assert_eq!(out.values, vec![Some(9_223_286_400_000)]);
}

#[test]
fn the_zone_range_of_each_unit() {
    assert!(value_in_zone_range(0, TimeUnit::Nanoseconds));
    assert!(value_in_zone_range(9_223_199_236_854_775_807, TimeUnit::Nanoseconds));
    assert!(!value_in_zone_range(9_223_199_236_854_775_808, TimeUnit::Nanoseconds));
    assert!(value_in_zone_range(-9_223_199_236_854_775_808, TimeUnit::Nanoseconds));
    assert!(!value_in_zone_range(-9_223_199_236_854_775_809, TimeUnit::Nanoseconds));
    assert!(value_in_zone_range(8_210_266_704_000_000_000, TimeUnit::Microseconds));
    assert!(!value_in_zone_range(8_210_266_704_000_000_001, TimeUnit::Microseconds));
    assert!(value_in_zone_range(-8_334_601_056_000_000, TimeUnit::Milliseconds));
    assert!(!value_in_zone_range(-8_334_601_056_000_001, TimeUnit::Milliseconds));
    assert!(check_zone_range(&vec![None, Some(0), Some(1)], TimeUnit::Milliseconds));
    assert!(!check_zone_range(&vec![None, Some(0), Some(i64::MAX)], TimeUnit::Milliseconds));
    assert!(check_zone_range(&vec![], TimeUnit::Milliseconds));
}

#[test]
fn attach_zone_to_plain_values() {
    let values = vec![Some(0), None, Some(1_625_140_800_000)];
    let out = attach_zone(&values, TimeUnit::Milliseconds, "America/New_York", None);
    assert_eq!(out, Ok(vec![Some(18_000_000), None, Some(1_625_155_200_000)]));
    let out = attach_zone(&values, TimeUnit::Milliseconds, "UTC", None);
    assert_eq!(out, Ok(values.clone()));
    let out = attach_zone(&values, TimeUnit::Milliseconds, "Nowhere", None);
    assert_eq!(out, Err(ZoneFailure::UnknownZone));
    let out = attach_zone(&vec![Some(i64::MAX)], TimeUnit::Milliseconds, "UTC", None);
    assert_eq!(out, Err(ZoneFailure::ValueOutOfRange));
    let out = attach_zone(&vec![Some(i64::MAX)], TimeUnit::Milliseconds, "Nowhere", None);
    assert_eq!(out, Err(ZoneFailure::UnknownZone));
    let out = attach_zone(&vec![], TimeUnit::Milliseconds, "UTC", None);
    assert_eq!(out, Ok(vec![]));
    assert_eq!(MAX_COLUMN_LEN, u32::MAX as usize);
}

#[test]
fn attach_zone_at_the_ends_of_the_range() {
    let edge = vec![Some(8_210_266_704_000_000), Some(-8_334_601_056_000_000)];
    for zone in ["Asia/Tokyo", "Pacific/Kiritimati", "Pacific/Niue", "America/Juneau"] {
        let out = attach_zone(&edge, TimeUnit::Milliseconds, zone, None);
        assert!(matches!(out, Ok(_)), "{}", zone);
    }
    let edge = vec![Some(8_210_266_704_000_000_000), Some(-8_334_601_056_000_000_000)];
    for zone in ["Asia/Tokyo", "Pacific/Kiritimati", "Pacific/Niue", "America/Juneau"] {
        let out = attach_zone(&edge, TimeUnit::Microseconds, zone, None);
        assert!(matches!(out, Ok(_)), "{}", zone);
    }
    let edge = vec![Some(9_223_199_236_854_775_807), Some(-9_223_199_236_854_775_808)];
    for zone in ["Asia/Tokyo", "Pacific/Kiritimati", "Pacific/Niue", "America/Juneau"] {
        let out = attach_zone(&edge, TimeUnit::Nanoseconds, zone, None);
        assert!(matches!(out, Ok(_)), "{}", zone);
    }
}
