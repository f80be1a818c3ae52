//! The structured parser.
//!
//! Under a fixed-width format every field of a text lies at a known offset. The
//! structured parser walks the format and the text in lock-step and reads each
//! field straight from its digits. It reads less than the general parser does,
//! and where it declines the general parser is asked: it never reads a sign, a
//! blank in place of a digit or a leap second, it reads no field twice, and it
//! wants a whole date, with either no field of the time or at least the hour
//! and the minute.

use crate::calendar::CalendarDate;
use crate::calendar::CalendarDateTime;
use crate::calendar::ClockTime;
use crate::format::field_width;
use crate::format::fixed_width_from;
use crate::format::item_at;
use crate::format::next_item;
use crate::format::width_of;
use crate::format::Field;
use vstd::prelude::*;

verus! {

/// The byte `0`.
pub const ZERO: u8 = 48;

/// The byte `9`.
pub const NINE: u8 = 57;

/// The fields read so far. A field is read at most once.
#[derive(Clone, Copy, Debug, PartialEq, Eq, Structural)]
pub struct Fields {
    pub year: Option<i32>,
    pub month: Option<u32>,
    pub day: Option<u32>,
    pub hour: Option<u32>,
    pub minute: Option<u32>,
    pub second: Option<u32>,
    pub nanosecond: Option<u32>,
}

/// Whether a byte is one of `0` to `9`.
pub open spec fn is_digit(b: u8) -> bool {
    ZERO <= b <= NINE
}

/// The number that a run of digits writes, in base ten.
pub open spec fn digits_value(digits: Seq<u8>) -> nat
    decreases digits.len(),
{
    if digits.len() == 0 {
        0
    } else {
        digits_value(digits.drop_last()) * 10 + (digits.last() - ZERO) as nat
    }
}

/// Whether every byte is a digit.
pub open spec fn all_digits(bytes: Seq<u8>) -> bool {
    forall|k: int| 0 <= k < bytes.len() ==> is_digit(#[trigger] bytes[k])
}

/// No field read yet.
pub open spec fn no_fields() -> Fields {
    Fields {
        year: None,
        month: None,
        day: None,
        hour: None,
        minute: None,
        second: None,
        nanosecond: None,
    }
}

/// The fields with one more of them read. Nothing where that field was read
/// before, or where the item is a literal.
pub open spec fn store(fields: Fields, field: Field, value: nat) -> Option<Fields> {
    match field {
        Field::Year => if fields.year is None {
            Some(Fields { year: Some(value as i32), ..fields })
        } else {
            None
        },
        Field::ShortYear => if fields.year is None {
            Some(
                Fields {
                    year: Some(
                        if value < 70 {
                            (2000 + value) as i32
                        } else {
                            (1900 + value) as i32
                        },
                    ),
                    ..fields
                },
            )
        } else {
            None
        },
        Field::Month => if fields.month is None {
            Some(Fields { month: Some(value as u32), ..fields })
        } else {
            None
        },
        Field::Day => if fields.day is None {
            Some(Fields { day: Some(value as u32), ..fields })
        } else {
            None
        },
        Field::Hour => if fields.hour is None {
            Some(Fields { hour: Some(value as u32), ..fields })
        } else {
            None
        },
        Field::Minute => if fields.minute is None {
            Some(Fields { minute: Some(value as u32), ..fields })
        } else {
            None
        },
        Field::Second => if fields.second is None {
            Some(Fields { second: Some(value as u32), ..fields })
        } else {
            None
        },
        Field::Millis => if fields.nanosecond is None {
            Some(Fields { nanosecond: Some((value * 1_000_000) as u32), ..fields })
        } else {
            None
        },
        Field::Micros => if fields.nanosecond is None {
            Some(Fields { nanosecond: Some((value * 1_000) as u32), ..fields })
        } else {
            None
        },
        Field::Nanos => if fields.nanosecond is None {
            Some(Fields { nanosecond: Some(value as u32), ..fields })
        } else {
            None
        },
        Field::Literal(_) => None,
    }
}

/// The fields after one item is read at offset `off` of the text: a literal
/// must be the byte there, a field must be digits over its whole width.
pub open spec fn read_item(bytes: Seq<u8>, off: int, field: Field, fields: Fields) -> Option<
    Fields,
> {
    match field {
        Field::Literal(b) => if off < bytes.len() && bytes[off] == b {
            Some(fields)
        } else {
            None
        },
        _ => {
            let end = off + field_width(field);
            if end <= bytes.len() && all_digits(bytes.subrange(off, end)) {
                store(fields, field, digits_value(bytes.subrange(off, end)))
            } else {
                None
            }
        },
    }
}

/// The fields after the format from byte `i` on is read against the text from
/// byte `off` on, in lock-step; nothing where an item does not match, the
/// format has an item without a known width, or text is left over.
pub open spec fn fields_from(bytes: Seq<u8>, fmt: Seq<u8>, i: int, off: int, fields: Fields)
    -> Option<Fields>
    decreases fmt.len() - i,
{
    if i >= fmt.len() {
        if off == bytes.len() {
            Some(fields)
        } else {
            None
        }
    } else {
        match item_at(fmt, i) {
            Some((field, n)) => if n > 0 {
                match read_item(bytes, off, field, fields) {
                    Some(next) => fields_from(bytes, fmt, i + n, off + field_width(field), next),
                    None => None,
                }
            } else {
                None
            },
            None => None,
        }
    }
}

/// The date that the fields name: year, month and day were all read and that
/// day exists.
pub open spec fn resolve_date(fields: Fields) -> Option<CalendarDate> {
    match (fields.year, fields.month, fields.day) {
        (Some(year), Some(month), Some(day)) => if (CalendarDate { year, month, day }).wf() {
            Some(CalendarDate { year, month, day })
        } else {
            None
        },
        _ => None,
    }
}

/// The time of day that the fields name. No field of the time read is
/// midnight. Otherwise the hour and the minute were read; the second counts as
/// zero where it was not, and a fraction needs its second.
pub open spec fn resolve_time(fields: Fields) -> Option<ClockTime> {
    if fields.hour is None && fields.minute is None && fields.second is None
        && fields.nanosecond is None {
        Some(ClockTime { hour: 0, minute: 0, second: 0, nanosecond: 0 })
    } else {
        match (fields.hour, fields.minute, fields.second, fields.nanosecond) {
            (Some(hour), Some(minute), Some(second), Some(nanosecond)) => if hour < 24 && minute
                < 60 && second < 60 && nanosecond < 1_000_000_000 {
                Some(ClockTime { hour, minute, second, nanosecond })
            } else {
                None
            },
            (Some(hour), Some(minute), Some(second), None) => if hour < 24 && minute < 60
                && second < 60 {
                Some(ClockTime { hour, minute, second, nanosecond: 0 })
            } else {
                None
            },
            (Some(hour), Some(minute), None, None) => if hour < 24 && minute < 60 {
                Some(ClockTime { hour, minute, second: 0, nanosecond: 0 })
            } else {
                None
            },
            _ => None,
        }
    }
}

/// The date-time that the fields name.
pub open spec fn resolve(fields: Fields) -> Option<CalendarDateTime> {
    match (resolve_date(fields), resolve_time(fields)) {
        (Some(date), Some(time)) => Some(CalendarDateTime { date, time }),
        _ => None,
    }
}

/// What the structured parser makes of a text under a format.
pub open spec fn fast_parse_spec(bytes: Seq<u8>, fmt: Seq<u8>) -> Option<CalendarDateTime> {
    match fields_from(bytes, fmt, 0, 0, no_fields()) {
        Some(fields) => resolve(fields),
        None => None,
    }
}

/// Ten to the power `k`, for the widths that a field can have.
pub open spec fn pow10(k: int) -> nat {
    if k <= 0 {
        1
    } else if k == 1 {
        10
    } else if k == 2 {
        100
    } else if k == 3 {
        1_000
    } else if k == 4 {
        10_000
    } else if k == 5 {
        100_000
    } else if k == 6 {
        1_000_000
    } else if k == 7 {
        10_000_000
    } else if k == 8 {
        100_000_000
    } else {
        1_000_000_000
    }
}

/// A text that the structured parser reads has the width of the format.
pub proof fn lemma_fields_width(bytes: Seq<u8>, fmt: Seq<u8>, i: int, off: int, fields: Fields)
    requires
        0 <= i,
        0 <= off <= bytes.len(),
        fields_from(bytes, fmt, i, off, fields) is Some,
    ensures
        fixed_width_from(fmt, i) == Some((bytes.len() - off) as nat),
    decreases fmt.len() - i,
{
    if i < fmt.len() {
        let (field, n) = item_at(fmt, i)->0;
        let next = read_item(bytes, off, field, fields)->0;
        lemma_fields_width(bytes, fmt, i + n, off + field_width(field), next);
    }
}

/// Reads `width` digits at offset `off` as a number in base ten.
fn parse_digits(bytes: &[u8], off: usize, width: usize) -> (r: Option<u32>)
    requires
        off + width <= bytes@.len(),
        width <= 9,
    ensures
        match r {
            Some(v) => all_digits(bytes@.subrange(off as int, off + width)) && v == digits_value(
                bytes@.subrange(off as int, off + width),
            ) && v < pow10(width as int),
            None => !all_digits(bytes@.subrange(off as int, off + width)),
        },
{
    let len: usize = bytes.len();
    let mut k: usize = 0;
    let mut acc: u32 = 0;
    while k < width
        invariant
            k <= width <= 9,
            off + width <= len == bytes@.len(),
            all_digits(bytes@.subrange(off as int, off + k)),
            acc == digits_value(bytes@.subrange(off as int, off + k)),
            acc < pow10(k as int),
        decreases width - k,
    {
        let b: u8 = bytes[off + k];
        if b < ZERO || b > NINE {
            assert(!is_digit(bytes@.subrange(off as int, off + width)[k as int]));
            return None;
        }
        proof {
            let longer = bytes@.subrange(off as int, off + k + 1);
            assert(longer.drop_last() =~= bytes@.subrange(off as int, off + k));
            assert(longer.last() == b);
            assert forall|j: int| 0 <= j < longer.len() implies is_digit(#[trigger] longer[j]) by {
                if j < k {
                    assert(longer[j] == bytes@.subrange(off as int, off + k)[j]);
                }
            }
        }
        acc = acc * 10 + (b - ZERO) as u32;
        k = k + 1;
    }
    Some(acc)
}

/// Records the value of a field, unless that field was read before.
fn store_field(fields: Fields, field: Field, value: u32) -> (r: Option<Fields>)
    requires
        value < pow10(field_width(field) as int),
    ensures
        r == store(fields, field, value as nat),
{
    match field {
        Field::Year => if fields.year.is_none() {
            Some(Fields { year: Some(value as i32), ..fields })
        } else {
            None
        },
        Field::ShortYear => if fields.year.is_none() {
            let year: i32 = if value < 70 {
                2000 + value as i32
            } else {
                1900 + value as i32
            };
            Some(Fields { year: Some(year), ..fields })
        } else {
            None
        },
        Field::Month => if fields.month.is_none() {
            Some(Fields { month: Some(value), ..fields })
        } else {
            None
        },
        Field::Day => if fields.day.is_none() {
            Some(Fields { day: Some(value), ..fields })
        } else {
            None
        },
        Field::Hour => if fields.hour.is_none() {
            Some(Fields { hour: Some(value), ..fields })
        } else {
            None
        },
        Field::Minute => if fields.minute.is_none() {
            Some(Fields { minute: Some(value), ..fields })
        } else {
            None
        },
        Field::Second => if fields.second.is_none() {
            Some(Fields { second: Some(value), ..fields })
        } else {
            None
        },
        Field::Millis => if fields.nanosecond.is_none() {
            Some(Fields { nanosecond: Some(value * 1_000_000), ..fields })
        } else {
            None
        },
        Field::Micros => if fields.nanosecond.is_none() {
            Some(Fields { nanosecond: Some(value * 1_000), ..fields })
        } else {
            None
        },
        Field::Nanos => if fields.nanosecond.is_none() {
            Some(Fields { nanosecond: Some(value), ..fields })
        } else {
            None
        },
        Field::Literal(_) => None,
    }
}

/// The date that the fields name, if they name one.
fn date_of(fields: &Fields) -> (r: Option<CalendarDate>)
    ensures
        r == resolve_date(*fields),
        r matches Some(d) ==> d.wf(),
{
    match (fields.year, fields.month, fields.day) {
        (Some(year), Some(month), Some(day)) => CalendarDate::new(year, month, day),
        _ => None,
    }
}

/// The time of day that the fields name, if they name one.
fn time_of(fields: &Fields) -> (r: Option<ClockTime>)
    ensures
        r == resolve_time(*fields),
        r matches Some(t) ==> t.wf(),
{
    if fields.hour.is_none() && fields.minute.is_none() && fields.second.is_none()
        && fields.nanosecond.is_none() {
        return Some(ClockTime::midnight());
    }
    match (fields.hour, fields.minute) {
        (Some(hour), Some(minute)) => {
            if hour >= 24 || minute >= 60 {
                return None;
            }
            match fields.second {
                Some(second) => {
                    let nanosecond: u32 = match fields.nanosecond {
                        Some(n) => n,
                        None => 0,
                    };
                    ClockTime::new(hour, minute, second, nanosecond)
                },
                None => if fields.nanosecond.is_none() {
                    ClockTime::new(hour, minute, 0, 0)
                } else {
                    None
                },
            }
        },
        _ => None,
    }
}

/// Reads a text of `fixed_len` bytes field by field, as the format lays the
/// fields out. Nothing comes back where the text has another length, where a
/// byte is not what the format has at its place, where a field is read twice or
/// is out of its range, or where the fields do not make a date with, if any of
/// its fields was read, a time.
pub fn try_fast_parse(bytes: &[u8], fmt: &[u8], fixed_len: usize) -> (r: Option<CalendarDateTime>)
    ensures
        r == (if bytes@.len() == fixed_len {
            fast_parse_spec(bytes@, fmt@)
        } else {
            None
        }),
        r matches Some(value) ==> value.wf(),
{
    if bytes.len() != fixed_len {
        return None;
    }
    let mut fields: Fields = Fields {
        year: None,
        month: None,
        day: None,
        hour: None,
        minute: None,
        second: None,
        nanosecond: None,
    };
    let mut i: usize = 0;
    let mut off: usize = 0;
    while i < fmt.len()
        invariant
            i <= fmt@.len(),
            off <= bytes@.len(),
            fields_from(bytes@, fmt@, 0, 0, no_fields()) == fields_from(
                bytes@,
                fmt@,
                i as int,
                off as int,
                fields,
            ),
        decreases fmt@.len() - i,
    {
        match next_item(fmt, i) {
            Some((field, n)) => {
                match field {
                    Field::Literal(b) => {
                        if off < bytes.len() && bytes[off] == b {
                            off = off + 1;
                        } else {
                            return None;
                        }
                    },
                    _ => {
                        let width: usize = width_of(field);
                        if bytes.len() - off < width {
                            return None;
                        }
                        match parse_digits(bytes, off, width) {
                            Some(value) => match store_field(fields, field, value) {
                                Some(next) => {
                                    fields = next;
                                    off = off + width;
                                },
                                None => {
                                    return None;
                                },
                            },
                            None => {
                                return None;
                            },
                        }
                    },
                }
                i = i + n;
            },
            None => {
                return None;
            },
        }
    }
    if off != bytes.len() {
        return None;
    }
    match (date_of(&fields), time_of(&fields)) {
        (Some(date), Some(time)) => Some(CalendarDateTime { date, time }),
        _ => None,
    }
}

} // verus!
