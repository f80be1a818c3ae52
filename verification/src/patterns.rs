//! The catalog of candidate formats.
//!
//! The formats are grouped by what they describe and by the order of their
//! fields, so that one column is never read under two orders. Within a group
//! the order is the order of trial.

use vstd::prelude::*;

verus! {

/// A group of the catalog.
#[derive(Clone, Copy, Debug, PartialEq, Eq, Hash, Structural)]
pub enum Pattern {
    /// Dates that put the year first.
    DateYMD,
    /// Dates that put the day first.
    DateDMY,
    /// Date-times that put the year first.
    DatetimeYMD,
    /// Date-times that put the day first.
    DatetimeDMY,
    /// Times of day, with and without a fraction of the second.
    Time,
}

/// The texts of a list of format strings.
pub open spec fn texts(formats: Seq<&'static str>) -> Seq<Seq<char>> {
    Seq::new(formats.len(), |i: int| formats[i]@)
}

/// The formats of a group, in the order of trial.
pub open spec fn catalog(group: Pattern) -> Seq<Seq<char>> {
    match group {
        Pattern::DateYMD => seq![
            "%Y/%m/%d"@,
            "%Y-%m-%d"@,
        ],
        Pattern::DateDMY => seq![
            "%d-%m-%Y"@,
            "%d/%m/%Y"@,
        ],
        Pattern::DatetimeYMD => seq![
            "%Y/%m/%dT%H:%M:%S"@,
            "%Y-%m-%dT%H:%M:%S"@,
            "%Y/%m/%d %H:%M:%S"@,
            "%Y-%m-%d %H:%M:%S"@,
            "%Y/%m/%dT%H:%M"@,
            "%Y-%m-%dT%H:%M"@,
            "%Y/%m/%d %H:%M"@,
            "%Y-%m-%d %H:%M"@,
            "%Y/%m/%dT%H:%M:%S.%9f"@,
            "%Y-%m-%dT%H:%M:%S.%9f"@,
            "%Y/%m/%dT%H:%M:%S.%6f"@,
            "%Y-%m-%dT%H:%M:%S.%6f"@,
            "%Y/%m/%dT%H:%M:%S.%3f"@,
            "%Y-%m-%dT%H:%M:%S.%3f"@,
            "%Y/%m/%d %H:%M:%S.%9f"@,
            "%Y-%m-%d %H:%M:%S.%9f"@,
            "%Y/%m/%d %H:%M:%S.%6f"@,
            "%Y-%m-%d %H:%M:%S.%6f"@,
            "%Y/%m/%d %H:%M:%S.%3f"@,
            "%Y-%m-%d %H:%M:%S.%3f"@,
            "%Y-%m-%dT%H:%M:%S%.f"@,
            "%Y-%m-%d %H:%M:%S%.f"@,
        ],
        Pattern::DatetimeDMY => seq![
            "%d/%m/%Y %H:%M:%S"@,
            "%d-%m-%Y %H:%M"@,
            "%d-%m-%Y %H:%M:%S"@,
            "%d-%m-%YT%H:%M:%S.%3f"@,
            "%d-%m-%YT%H:%M:%S%.3f"@,
            "%d-%m-%YT%H:%M:%S.%6f"@,
            "%d-%m-%YT%H:%M:%S%.6f"@,
            "%d-%m-%YT%H:%M:%S.%9f"@,
            "%d-%m-%YT%H:%M:%S%.9f"@,
        ],
        Pattern::Time => seq![
            "%T"@,
            "%T%.3f"@,
            "%T%.6f"@,
            "%T%.9f"@,
        ],
    }
}

/// The formats of a group, in the order of trial.
pub fn patterns(group: Pattern) -> (formats: Vec<&'static str>)
    ensures
        texts(formats@) == catalog(group),
{
    let formats: Vec<&'static str> = match group {
        Pattern::DateYMD => vec![
            "%Y/%m/%d",
            "%Y-%m-%d",
        ],
        Pattern::DateDMY => vec![
            "%d-%m-%Y",
            "%d/%m/%Y",
        ],
        Pattern::DatetimeYMD => vec![
            "%Y/%m/%dT%H:%M:%S",
            "%Y-%m-%dT%H:%M:%S",
            "%Y/%m/%d %H:%M:%S",
            "%Y-%m-%d %H:%M:%S",
            "%Y/%m/%dT%H:%M",
            "%Y-%m-%dT%H:%M",
            "%Y/%m/%d %H:%M",
            "%Y-%m-%d %H:%M",
            "%Y/%m/%dT%H:%M:%S.%9f",
            "%Y-%m-%dT%H:%M:%S.%9f",
            "%Y/%m/%dT%H:%M:%S.%6f",
            "%Y-%m-%dT%H:%M:%S.%6f",
            "%Y/%m/%dT%H:%M:%S.%3f",
            "%Y-%m-%dT%H:%M:%S.%3f",
            "%Y/%m/%d %H:%M:%S.%9f",
            "%Y-%m-%d %H:%M:%S.%9f",
            "%Y/%m/%d %H:%M:%S.%6f",
            "%Y-%m-%d %H:%M:%S.%6f",
            "%Y/%m/%d %H:%M:%S.%3f",
            "%Y-%m-%d %H:%M:%S.%3f",
            "%Y-%m-%dT%H:%M:%S%.f",
            "%Y-%m-%d %H:%M:%S%.f",
        ],
        Pattern::DatetimeDMY => vec![
            "%d/%m/%Y %H:%M:%S",
            "%d-%m-%Y %H:%M",
            "%d-%m-%Y %H:%M:%S",
            "%d-%m-%YT%H:%M:%S.%3f",
            "%d-%m-%YT%H:%M:%S%.3f",
            "%d-%m-%YT%H:%M:%S.%6f",
            "%d-%m-%YT%H:%M:%S%.6f",
            "%d-%m-%YT%H:%M:%S.%9f",
            "%d-%m-%YT%H:%M:%S%.9f",
        ],
        Pattern::Time => vec![
            "%T",
            "%T%.3f",
            "%T%.6f",
            "%T%.9f",
        ],
    };
    assert(texts(formats@) =~= catalog(group));
    formats
}

} // verus!
