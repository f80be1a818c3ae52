//! What a zone means for a column of date-times.
//!
//! A text either carries its own numeric offset, and is then moved to UTC as
//! it is parsed, or it is a local time without a zone. To such a column a zone
//! can be attached afterwards: each local time is replaced by the instant at
//! which the clocks of that zone showed it. Where the clocks showed it twice,
//! the caller's preference decides.

use chrono_tz::Tz;
use crate::calendar::TimeUnit;
use crate::error::ZoneFailure;
use polars_core::prelude::Int64Chunked;
use polars_core::prelude::NewChunkedArray;
use vstd::prelude::*;

verus! {

/// Which of two instants to take for a local time that the clocks showed twice.
#[derive(Clone, Copy, Debug, PartialEq, Eq, Structural)]
pub enum AmbiguousResolution {
    Earliest,
    Latest,
}

/// How the zone of a column of date-times is found.
#[derive(Clone, Copy, Debug, PartialEq, Eq, Structural)]
pub enum ZoneMode {
    /// Each text carries a numeric offset; the values are instants, tagged UTC.
    ExplicitOffset,
    /// The texts are local times and the caller names the zone they are in.
    AttachZone,
    /// The texts are local times and stay so; the column is not tagged.
    Naive,
}

/// The mode that the caller's settings ask for. An offset in the text wins over
/// a zone named beside it.
pub open spec fn zone_mode_spec(tz_aware: bool, zone_given: bool) -> ZoneMode {
    if tz_aware {
        ZoneMode::ExplicitOffset
    } else if zone_given {
        ZoneMode::AttachZone
    } else {
        ZoneMode::Naive
    }
}

/// A value that is far enough from the ends of what the unit can count, and of
/// what the calendar reaches, for a zone's offset to be applied to it.
pub open spec fn in_zone_range(value: i64, unit: TimeUnit) -> bool {
    match unit {
        TimeUnit::Nanoseconds => -9_223_199_236_854_775_808 <= value <= 9_223_199_236_854_775_807,
        TimeUnit::Microseconds => -8_334_601_056_000_000_000 <= value <= 8_210_266_704_000_000_000,
        TimeUnit::Milliseconds => -8_334_601_056_000_000 <= value <= 8_210_266_704_000_000,
    }
}

/// A value that is absent or in the range.
pub open spec fn absent_or_in_zone_range(value: Option<i64>, unit: TimeUnit) -> bool {
    match value {
        Some(v) => in_zone_range(v, unit),
        None => true,
    }
}

/// Every value of the column that is present is in the range.
pub open spec fn all_in_zone_range(values: Seq<Option<i64>>, unit: TimeUnit) -> bool {
    forall|i: int| 0 <= i < values.len() ==> absent_or_in_zone_range(#[trigger] values[i], unit)
}

/// The number of values that a column must stay under for the zone-attachment
/// service to take it.
pub const MAX_COLUMN_LEN: usize = 4_294_967_295;

/// Whether a name parses as a `chrono_tz::Tz`: whether the zone database that
/// `chrono-tz` was built with knows it.
pub uninterp spec fn zone_known(zone: Seq<char>) -> bool;

/// Two columns have as many values, absent at the same positions.
pub open spec fn same_nulls(a: Seq<Option<i64>>, b: Seq<Option<i64>>) -> bool {
    a.len() == b.len() && forall|i: int| 0 <= i < a.len() ==> (a[i] is None <==> b[i] is None)
}

/// What `polars_ops`' `replace_time_zone` makes of a column of local times
/// without a zone, for a zone's name and a preference: the instants, or the
/// message of its error.
pub uninterp spec fn zone_attached(
    values: Seq<Option<i64>>,
    unit: TimeUnit,
    zone: Seq<char>,
    use_earliest: Option<bool>,
) -> Result<Seq<Option<i64>>, Seq<char>>;

/// The preference as the zone-attachment service takes it.
pub open spec fn use_earliest_spec(ambiguous: Option<AmbiguousResolution>) -> Option<bool> {
    match ambiguous {
        Some(AmbiguousResolution::Earliest) => Some(true),
        Some(AmbiguousResolution::Latest) => Some(false),
        None => None,
    }
}

/// What `attach_zone` owes: the checks in their order, then what the service
/// made of the values.
pub open spec fn attached(
    values: Seq<Option<i64>>,
    unit: TimeUnit,
    zone: Seq<char>,
    ambiguous: Option<AmbiguousResolution>,
    r: Result<Vec<Option<i64>>, ZoneFailure>,
) -> bool {
    if values.len() >= MAX_COLUMN_LEN {
        r matches Err(ZoneFailure::ColumnTooLong)
    } else if !zone_known(zone) {
        r matches Err(ZoneFailure::UnknownZone)
    } else if !all_in_zone_range(values, unit) {
        r matches Err(ZoneFailure::ValueOutOfRange)
    } else {
        match zone_attached(values, unit, zone, use_earliest_spec(ambiguous)) {
            Ok(instants) => r matches Ok(v) && v@ == instants && same_nulls(instants, values),
            Err(message) => r matches Err(ZoneFailure::Refused(m)) && m@ == message,
        }
    }
}

/// Parses the name as a `chrono_tz::Tz`, which looks it up in the zone
/// database that `chrono-tz` was built with. Trusted: the answer is the one
/// named `zone_known`.
#[verifier::external_body]
fn is_known_zone(zone: &str) -> (known: bool)
    ensures
        known == zone_known(zone@),
{
    zone.parse::<Tz>().is_ok()
}

/// Builds a column of date-times without a zone from the values and calls
/// `polars_ops::prelude::replace_time_zone` on it with the zone's name.
/// Trusted: the result is the one named `zone_attached`; it has a value for
/// each value given, absent exactly where that one is. The call panics on a
/// column of `MAX_COLUMN_LEN` values or more and on some values out of
/// `in_zone_range`, and on a name that the zone database does not know it
/// panics or fails as the process's environment has it: all of these are kept
/// away.
#[verifier::external_body]
fn replace_time_zone(
    values: &Vec<Option<i64>>,
    unit: TimeUnit,
    zone: &str,
    use_earliest: Option<bool>,
) -> (r: Result<Vec<Option<i64>>, String>)
    requires
        values@.len() < MAX_COLUMN_LEN,
        zone_known(zone@),
        all_in_zone_range(values@, unit),
    ensures
        match r {
            Ok(v) => zone_attached(values@, unit, zone@, use_earliest) == Ok::<_, Seq<char>>(v@),
            Err(m) => zone_attached(values@, unit, zone@, use_earliest) == Err::<Seq<Option<i64>>, _>(m@),
        },
        r matches Ok(v) ==> same_nulls(v@, values@),
{
    let unit = match unit {
        TimeUnit::Nanoseconds => polars_core::prelude::TimeUnit::Nanoseconds,
        TimeUnit::Microseconds => polars_core::prelude::TimeUnit::Microseconds,
        TimeUnit::Milliseconds => polars_core::prelude::TimeUnit::Milliseconds,
    };
    let naive = Int64Chunked::from_slice_options("", values).into_datetime(unit, None);
    polars_ops::prelude::replace_time_zone(&naive, Some(zone), use_earliest)
        .map(|zoned| zoned.into_iter().collect())
        .map_err(|e| e.to_string())
}

/// Decides how the zone of a column is found.
pub fn zone_mode(tz_aware: bool, zone_given: bool) -> (mode: ZoneMode)
    ensures
        mode == zone_mode_spec(tz_aware, zone_given),
{
    if tz_aware {
        ZoneMode::ExplicitOffset
    } else if zone_given {
        ZoneMode::AttachZone
    } else {
        ZoneMode::Naive
    }
}

/// Decides whether a zone's offset can be applied to a value.
pub fn value_in_zone_range(value: i64, unit: TimeUnit) -> (ok: bool)
    ensures
        ok == in_zone_range(value, unit),
{
    match unit {
        TimeUnit::Nanoseconds => -9_223_199_236_854_775_808 <= value && value
            <= 9_223_199_236_854_775_807,
        TimeUnit::Microseconds => -8_334_601_056_000_000_000 <= value && value
            <= 8_210_266_704_000_000_000,
        TimeUnit::Milliseconds => -8_334_601_056_000_000 <= value && value
            <= 8_210_266_704_000_000,
    }
}

/// Decides whether a zone's offset can be applied to every value.
pub fn check_zone_range(values: &Vec<Option<i64>>, unit: TimeUnit) -> (ok: bool)
    ensures
        ok == all_in_zone_range(values@, unit),
{
    let mut i: usize = 0;
    while i < values.len()
        invariant
            i <= values@.len(),
            forall|j: int| 0 <= j < i ==> absent_or_in_zone_range(#[trigger] values@[j], unit),
        decreases values@.len() - i,
    {
        let value: Option<i64> = values[i];
        match value {
            Some(v) => {
                if !value_in_zone_range(v, unit) {
                    assert(!absent_or_in_zone_range(values@[i as int], unit));
                    return false;
                }
            },
            None => {},
        }
        assert(absent_or_in_zone_range(values@[i as int], unit));
        i = i + 1;
    }
    true
}

/// Attaches a zone to local times: each becomes the instant at which the
/// clocks of the zone showed it. Nothing is attached to a column of
/// `MAX_COLUMN_LEN` values or more, under a name that the zone database does
/// not know, or where a value is out of `in_zone_range`. The service refuses,
/// with its message, where the clocks never showed one of the local times, and
/// where they showed one twice and no preference was given. A null stays a
/// null, but the service reads it as the local time 1970-01-01T00:00:00 and
/// refuses the column if it would refuse that.
pub fn attach_zone(
    values: &Vec<Option<i64>>,
    unit: TimeUnit,
    zone: &str,
    ambiguous: Option<AmbiguousResolution>,
) -> (r: Result<Vec<Option<i64>>, ZoneFailure>)
    ensures
        attached(values@, unit, zone@, ambiguous, r),
{
    if values.len() >= MAX_COLUMN_LEN {
        return Err(ZoneFailure::ColumnTooLong);
    }
    if !is_known_zone(zone) {
        return Err(ZoneFailure::UnknownZone);
    }
    if !check_zone_range(values, unit) {
        return Err(ZoneFailure::ValueOutOfRange);
    }
    let use_earliest: Option<bool> = match ambiguous {
        Some(AmbiguousResolution::Earliest) => Some(true),
        Some(AmbiguousResolution::Latest) => Some(false),
        None => None,
    };
    match replace_time_zone(values, unit, zone, use_earliest) {
        Ok(instants) => Ok(instants),
        Err(message) => Err(ZoneFailure::Refused(message)),
    }
}

} // verus!
