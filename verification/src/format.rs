//! The format compiler.
//!
//! A format string is a run of items: a `%` and a letter stand for a field, any
//! other byte stands for itself. Compiling a format writes out its shorthand
//! directives and measures it: where every item has a width known in advance
//! the format is fixed-width, and a text of that width can be read field by
//! field at known offsets. The items with a known width are `%Y` (four
//! digits), `%y`, `%m`, `%d`, `%H`, `%M`, `%S` (two digits each), `%3f`, `%6f`,
//! `%9f` (that many digits of the fraction of the second), `%%` (a percent
//! sign) and every byte that stands for itself.

use crate::error::ConversionError;
use vstd::prelude::*;
use vstd::string::StrSliceExecFns;
use vstd::string::StringExecFns;
use vstd::utf8::encode_utf8;

verus! {

/// The byte `%`.
pub const PERCENT: u8 = 37;

/// One item of a format.
#[derive(Clone, Copy, Debug, PartialEq, Eq, Structural)]
pub enum Field {
    /// `%Y`: the year, four digits.
    Year,
    /// `%y`: the year within its century, two digits; below 70 it is in the
    /// 2000s, from 70 on in the 1900s.
    ShortYear,
    /// `%m`: the month, two digits.
    Month,
    /// `%d`: the day of the month, two digits.
    Day,
    /// `%H`: the hour, two digits.
    Hour,
    /// `%M`: the minute, two digits.
    Minute,
    /// `%S`: the second, two digits.
    Second,
    /// `%3f`: the milliseconds of the second, three digits.
    Millis,
    /// `%6f`: the microseconds of the second, six digits.
    Micros,
    /// `%9f`: the nanoseconds of the second, nine digits.
    Nanos,
    /// A byte that stands for itself.
    Literal(u8),
}

/// A format string made ready for a conversion: the format, and its width in
/// bytes where it is fixed-width.
#[derive(Debug, PartialEq, Eq)]
pub struct CompiledFormat {
    format: String,
    fixed_len: Option<usize>,
}

/// The number of bytes of text that an item takes.
pub open spec fn field_width(field: Field) -> nat {
    match field {
        Field::Year => 4,
        Field::Millis => 3,
        Field::Micros => 6,
        Field::Nanos => 9,
        Field::Literal(_) => 1,
        _ => 2,
    }
}

/// The field that a letter after `%` stands for, for the two-byte directives.
pub open spec fn directive(letter: u8) -> Option<Field> {
    if letter == 89 {
        Some(Field::Year)
    } else if letter == 121 {
        Some(Field::ShortYear)
    } else if letter == 109 {
        Some(Field::Month)
    } else if letter == 100 {
        Some(Field::Day)
    } else if letter == 72 {
        Some(Field::Hour)
    } else if letter == 77 {
        Some(Field::Minute)
    } else if letter == 83 {
        Some(Field::Second)
    } else if letter == PERCENT {
        Some(Field::Literal(PERCENT))
    } else {
        None
    }
}

/// The field that a digit after `%` stands for, once an `f` follows it.
pub open spec fn fraction(digit: u8) -> Option<Field> {
    if digit == 51 {
        Some(Field::Millis)
    } else if digit == 54 {
        Some(Field::Micros)
    } else if digit == 57 {
        Some(Field::Nanos)
    } else {
        None
    }
}

/// The item that starts at byte `i` of a format, with the number of bytes of
/// the format that it takes; nothing where the bytes there are no item with a
/// width known in advance.
pub open spec fn item_at(fmt: Seq<u8>, i: int) -> Option<(Field, int)> {
    if fmt[i] != PERCENT {
        Some((Field::Literal(fmt[i]), 1))
    } else if i + 1 >= fmt.len() {
        None
    } else if fraction(fmt[i + 1]) is Some {
        if i + 2 < fmt.len() && fmt[i + 2] == 102 {
            Some((fraction(fmt[i + 1])->0, 3))
        } else {
            None
        }
    } else {
        match directive(fmt[i + 1]) {
            Some(field) => Some((field, 2)),
            None => None,
        }
    }
}

/// The width in bytes of the texts that the format reads from byte `i` on,
/// where every item from there on has a width known in advance.
pub open spec fn fixed_width_from(fmt: Seq<u8>, i: int) -> Option<nat>
    decreases fmt.len() - i,
{
    if i >= fmt.len() {
        Some(0)
    } else {
        match item_at(fmt, i) {
            Some((field, n)) => if n > 0 {
                match fixed_width_from(fmt, i + n) {
                    Some(w) => Some(field_width(field) + w),
                    None => None,
                }
            } else {
                None
            },
            None => None,
        }
    }
}

/// The width in bytes of the texts that a format reads, where it is fixed-width.
pub open spec fn fixed_width(fmt: Seq<u8>) -> Option<nat> {
    fixed_width_from(fmt, 0)
}

/// The fixed width as a machine integer; a width that no `usize` holds counts
/// as not fixed.
pub open spec fn fixed_len_spec(fmt: Seq<u8>) -> Option<usize> {
    match fixed_width(fmt) {
        Some(w) => if w <= usize::MAX {
            Some(w as usize)
        } else {
            None
        },
        None => None,
    }
}

/// What a shorthand directive is written out as.
pub open spec fn expansion(letter: char) -> Option<Seq<char>> {
    if letter == 'D' {
        Some("%m/%d/%y"@)
    } else if letter == 'F' {
        Some("%Y-%m-%d"@)
    } else if letter == 'R' {
        Some("%H:%M"@)
    } else if letter == 'T' {
        Some("%H:%M:%S"@)
    } else {
        None
    }
}

/// The format from character `i` on with its shorthand directives written
/// out. Nothing where it ends in a `%` that introduces nothing.
pub open spec fn normalize_from(fmt: Seq<char>, i: int) -> Option<Seq<char>>
    decreases fmt.len() - i,
{
    if i >= fmt.len() {
        Some(Seq::empty())
    } else if fmt[i] != '%' {
        match normalize_from(fmt, i + 1) {
            Some(rest) => Some(fmt.subrange(i, i + 1) + rest),
            None => None,
        }
    } else if i + 1 >= fmt.len() {
        None
    } else {
        match normalize_from(fmt, i + 2) {
            Some(rest) => Some(
                (match expansion(fmt[i + 1]) {
                    Some(written) => written,
                    None => fmt.subrange(i, i + 2),
                }) + rest,
            ),
            None => None,
        }
    }
}

/// A format with its shorthand directives written out.
pub open spec fn normalize(fmt: Seq<char>) -> Option<Seq<char>> {
    normalize_from(fmt, 0)
}

impl View for CompiledFormat {
    type V = Seq<char>;

    /// The format.
    closed spec fn view(&self) -> Seq<char> {
        self.format@
    }
}

impl CompiledFormat {
    /// The recorded width is the width that the format has.
    #[verifier::type_invariant]
    spec fn measured(&self) -> bool {
        self.fixed_len == fixed_len_spec(encode_utf8(self.format@))
    }
}

/// The field that a letter after `%` stands for.
fn directive_of(letter: u8) -> (r: Option<Field>)
    ensures
        r == directive(letter),
{
    if letter == 89 {
        Some(Field::Year)
    } else if letter == 121 {
        Some(Field::ShortYear)
    } else if letter == 109 {
        Some(Field::Month)
    } else if letter == 100 {
        Some(Field::Day)
    } else if letter == 72 {
        Some(Field::Hour)
    } else if letter == 77 {
        Some(Field::Minute)
    } else if letter == 83 {
        Some(Field::Second)
    } else if letter == PERCENT {
        Some(Field::Literal(PERCENT))
    } else {
        None
    }
}

/// The field that a digit after `%` stands for.
fn fraction_of(digit: u8) -> (r: Option<Field>)
    ensures
        r == fraction(digit),
{
    if digit == 51 {
        Some(Field::Millis)
    } else if digit == 54 {
        Some(Field::Micros)
    } else if digit == 57 {
        Some(Field::Nanos)
    } else {
        None
    }
}

/// The number of bytes of text that an item takes.
pub(crate) fn width_of(field: Field) -> (w: usize)
    ensures
        w == field_width(field),
        1 <= w <= 9,
{
    match field {
        Field::Year => 4,
        Field::Millis => 3,
        Field::Micros => 6,
        Field::Nanos => 9,
        Field::Literal(_) => 1,
        _ => 2,
    }
}

/// Reads the item that starts at byte `i` of a format.
pub(crate) fn next_item(fmt: &[u8], i: usize) -> (r: Option<(Field, usize)>)
    requires
        i < fmt@.len(),
    ensures
        match r {
            Some((field, n)) => item_at(fmt@, i as int) == Some((field, n as int)) && 1 <= n <= 3
                && i + n <= fmt@.len() && field_width(field) <= 3 * n,
            None => item_at(fmt@, i as int) is None,
        },
{
    if fmt[i] != PERCENT {
        return Some((Field::Literal(fmt[i]), 1));
    }
    if fmt.len() - i < 2 {
        return None;
    }
    match fraction_of(fmt[i + 1]) {
        Some(field) => {
            if fmt.len() - i > 2 && fmt[i + 2] == 102 {
                Some((field, 3))
            } else {
                None
            }
        },
        None => match directive_of(fmt[i + 1]) {
            Some(field) => Some((field, 2)),
            None => None,
        },
    }
}

/// The width in bytes of the texts that a format reads, where every item of
/// the format has a width known in advance.
pub fn fmt_len(fmt: &[u8]) -> (r: Option<usize>)
    ensures
        r == fixed_len_spec(fmt@),
{
    let mut i: usize = 0;
    let mut total: u128 = 0;
    while i < fmt.len()
        invariant
            i <= fmt@.len(),
            total <= 3 * i,
            fixed_width_from(fmt@, 0) == (match fixed_width_from(fmt@, i as int) {
                Some(w) => Some(total as nat + w),
                None => None,
            }),
        decreases fmt@.len() - i,
    {
        match next_item(fmt, i) {
            Some((field, n)) => {
                total = total + width_of(field) as u128;
                i = i + n;
            },
            None => {
                return None;
            },
        }
    }
    if total > usize::MAX as u128 {
        None
    } else {
        Some(total as usize)
    }
}

/// Writes out the shorthand directives of a format string (`%D`, `%F`, `%R`
/// and `%T`) and measures the result. Fails where the format ends in a `%` that
/// introduces nothing.
pub fn compile(fmt: &str) -> (r: Result<CompiledFormat, ConversionError>)
    ensures
        match r {
            Ok(compiled) => normalize(fmt@) == Some(compiled@),
            Err(e) => normalize(fmt@) is None && e == ConversionError::InvalidFormat,
        },
{
    let n: usize = fmt.unicode_len();
    let mut out: String = String::new();
    let mut i: usize = 0;
    while i < n
        invariant
            i <= n,
            n == fmt@.len(),
            normalize_from(fmt@, 0) == (match normalize_from(fmt@, i as int) {
                Some(rest) => Some(out@ + rest),
                None => None,
            }),
        decreases n - i,
    {
        let ghost before = out@;
        let c: char = fmt.get_char(i);
        if c != '%' {
            out.append(fmt.substring_char(i, i + 1));
            proof {
                match normalize_from(fmt@, i + 1) {
                    Some(rest) => {
                        assert(before + (fmt@.subrange(i as int, i + 1) + rest) =~= out@ + rest);
                    },
                    None => {},
                }
            }
            i = i + 1;
        } else if n - i < 2 {
            return Err(ConversionError::InvalidFormat);
        } else {
            let d: char = fmt.get_char(i + 1);
            if d == 'D' {
                out.append("%m/%d/%y");
            } else if d == 'F' {
                out.append("%Y-%m-%d");
            } else if d == 'R' {
                out.append("%H:%M");
            } else if d == 'T' {
                out.append("%H:%M:%S");
            } else {
                out.append(fmt.substring_char(i, i + 2));
            }
            proof {
                let written = match expansion(d) {
                    Some(w) => w,
                    None => fmt@.subrange(i as int, i + 2),
                };
                assert(out@ == before + written);
                match normalize_from(fmt@, i + 2) {
                    Some(rest) => {
                        assert(before + (written + rest) =~= out@ + rest);
                    },
                    None => {},
                }
            }
            i = i + 2;
        }
    }
    assert(out@ + Seq::<char>::empty() =~= out@);
    let fixed_len: Option<usize> = fmt_len(out.as_str().as_bytes());
    Ok(CompiledFormat { format: out, fixed_len })
}

impl CompiledFormat {
    /// A format taken as it stands, measured but not rewritten.
    pub fn verbatim(fmt: &str) -> (compiled: CompiledFormat)
        ensures
            compiled@ == fmt@,
    {
        let fixed_len: Option<usize> = fmt_len(fmt.as_bytes());
        CompiledFormat { format: fmt.to_owned(), fixed_len }
    }

    /// The format.
    pub fn format(&self) -> (s: &str)
        ensures
            s@ == self@,
    {
        self.format.as_str()
    }

    /// The width in bytes of the texts that the format reads, where it is
    /// fixed-width.
    pub fn fixed_len(&self) -> (r: Option<usize>)
        ensures
            r == fixed_len_spec(encode_utf8(self@)),
    {
        proof {
            use_type_invariant(self);
        }
        self.fixed_len
    }
}

} // verus!
