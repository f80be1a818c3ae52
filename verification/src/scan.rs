//! Finding a date or a date-time somewhere inside a longer text.
//!
//! The scan keeps a window on the text and hands it to the general parser. A
//! window that the parser finds too long loses its last byte; one that it
//! turns down for any other reason loses its first. The number of tries is
//! bounded by how much longer the text is than the format string, so a text no
//! longer than the format is never read, and a match that needs more tries
//! than that is not found.
//!
//! The window moves by bytes. An edge that falls inside a character of more
//! than one byte counts as garbage on its side: the window is not parsed, and
//! that edge moves on.
//!
//! The general parser reads a `-` before a year as the year's sign. Inside a
//! longer text such a byte is far more often a separator, as in
//! `foo-2021-01-01-bar`. So a value before the year 0 is not taken for a match:
//! the window that gave it loses its first byte, like one that did not parse.

use crate::calendar::CalendarValue;
use crate::general_parser::general_parse;
use crate::general_parser::general_parse_spec;
use crate::general_parser::made_by;
use crate::general_parser::FailureClassification;
use crate::general_parser::Parser;
use vstd::prelude::*;
use vstd::string::StringSliceAdditionalSpecFns;
use vstd::utf8::decode_utf8;
use vstd::utf8::encode_utf8;
use vstd::utf8::is_char_boundary;

verus! {

/// What the scan does to its window after a failure.
#[derive(Clone, Copy, Debug, PartialEq, Eq, Structural)]
pub enum ScanStep {
    /// Drop the last byte: the tail is taken for trailing garbage.
    ShrinkRight,
    /// Drop the first byte: it is taken for leading garbage.
    AdvanceLeft,
}

/// The part of a text that the scan is looking at: the bytes from `start` up
/// to `end`.
#[derive(Clone, Copy, Debug, PartialEq, Eq, Structural)]
pub struct Window {
    pub start: usize,
    pub end: usize,
}

/// How a scan ended.
#[derive(Clone, Copy, Debug, PartialEq, Eq, Structural)]
pub enum ScanOutcome {
    /// A window parsed, to this value.
    Matched(CalendarValue),
    /// The tries ran out, or the window became empty.
    Exhausted,
}

/// The step that a failure asks for.
pub open spec fn step_for(failure: FailureClassification) -> ScanStep {
    if failure == FailureClassification::TooLong {
        ScanStep::ShrinkRight
    } else {
        ScanStep::AdvanceLeft
    }
}

/// The window after a step.
pub open spec fn step_window(start: int, end: int, step: ScanStep) -> (int, int) {
    match step {
        ScanStep::ShrinkRight => (start, end - 1),
        ScanStep::AdvanceLeft => (start + 1, end),
    }
}

/// Whether a value lies before the year 0.
pub open spec fn before_year_zero(value: CalendarValue) -> bool {
    match value {
        CalendarValue::Date(d) => d.year < 0,
        CalendarValue::Time(_) => false,
        CalendarValue::DateTime(dt) => dt.date.year < 0,
    }
}

/// What comes of one window: the general parser's result on it, where both
/// its edges lie between characters and the value is not before the year 0.
pub open spec fn window_result(
    parser: Parser,
    text: Seq<u8>,
    fmt: Seq<char>,
    start: int,
    end: int,
) -> Result<CalendarValue, FailureClassification> {
    if !is_char_boundary(text, start) {
        Err(FailureClassification::Invalid)
    } else if !is_char_boundary(text, end) {
        Err(FailureClassification::TooLong)
    } else {
        match general_parse_spec(parser, decode_utf8(text.subrange(start, end)), fmt) {
            Ok(value) => if before_year_zero(value) {
                Err(FailureClassification::Invalid)
            } else {
                Ok(value)
            },
            Err(failure) => Err(failure),
        }
    }
}

/// How the scan ends from a window, with `budget` tries left.
pub open spec fn scan_from(
    parser: Parser,
    text: Seq<u8>,
    fmt: Seq<char>,
    start: int,
    end: int,
    budget: nat,
) -> ScanOutcome
    decreases budget,
{
    if budget == 0 || start >= end {
        ScanOutcome::Exhausted
    } else {
        match window_result(parser, text, fmt, start, end) {
            Ok(value) => ScanOutcome::Matched(value),
            Err(failure) => {
                let (next_start, next_end) = step_window(start, end, step_for(failure));
                scan_from(parser, text, fmt, next_start, next_end, (budget - 1) as nat)
            },
        }
    }
}

/// The number of tries that a text gets: the bytes by which it is longer than
/// the format string.
pub open spec fn scan_budget(text: Seq<char>, fmt: Seq<char>) -> nat {
    if encode_utf8(text).len() > encode_utf8(fmt).len() {
        (encode_utf8(text).len() - encode_utf8(fmt).len()) as nat
    } else {
        0
    }
}

/// How the scan of a whole text ends.
pub open spec fn scan_spec(parser: Parser, text: Seq<char>, fmt: Seq<char>) -> ScanOutcome {
    scan_from(
        parser,
        encode_utf8(text),
        fmt,
        0,
        encode_utf8(text).len() as int,
        scan_budget(text, fmt),
    )
}

/// Chooses the step after a failure.
pub fn next_step(failure: FailureClassification) -> (step: ScanStep)
    ensures
        step == step_for(failure),
{
    match failure {
        FailureClassification::TooLong => ScanStep::ShrinkRight,
        _ => ScanStep::AdvanceLeft,
    }
}

/// Moves a window by one step.
pub fn advance(window: Window, step: ScanStep) -> (next: Window)
    requires
        window.start < window.end,
    ensures
        (next.start as int, next.end as int) == step_window(
            window.start as int,
            window.end as int,
            step,
        ),
{
    match step {
        ScanStep::ShrinkRight => Window { start: window.start, end: (window.end - 1) as usize },
        ScanStep::AdvanceLeft => Window { start: (window.start + 1) as usize, end: window.end },
    }
}

/// Hands one window of a text to the general parser.
fn parse_window(parser: Parser, text: &str, fmt: &str, window: Window) -> (r: Result<
    CalendarValue,
    FailureClassification,
>)
    requires
        window.start <= window.end <= text.spec_bytes().len(),
    ensures
        r == window_result(parser, text.spec_bytes(), fmt@, window.start as int, window.end as int),
        r matches Ok(value) ==> value.wf() && made_by(parser, value),
{
    if !text.is_char_boundary(window.start) {
        return Err(FailureClassification::Invalid);
    }
    if !text.is_char_boundary(window.end) {
        return Err(FailureClassification::TooLong);
    }
    let (_, tail) = text.split_at(window.start);
    proof {
        let bytes = text.spec_bytes();
        vstd::utf8::encode_utf8_valid_utf8(text@);
        vstd::utf8::valid_utf8_split(bytes, window.start as int);
        vstd::utf8::encode_utf8_valid_utf8(tail@);
        if window.end < bytes.len() {
            vstd::utf8::is_char_boundary_iff_not_is_continuation_byte(bytes, window.end as int);
            vstd::utf8::is_char_boundary_iff_not_is_continuation_byte(
                tail.spec_bytes(),
                window.end - window.start,
            );
        } else {
            vstd::utf8::is_char_boundary_start_end_of_seq(tail.spec_bytes());
        }
    }
    let (inner, _) = tail.split_at(window.end - window.start);
    proof {
        assert(inner.spec_bytes() =~= text.spec_bytes().subrange(
            window.start as int,
            window.end as int,
        ));
        vstd::utf8::encode_utf8_decode_utf8(inner@);
    }
    match general_parse(parser, inner, fmt) {
        Ok(value) => {
            let year: i32 = match value {
                CalendarValue::Date(d) => d.year,
                CalendarValue::Time(_) => 0,
                CalendarValue::DateTime(dt) => dt.date.year,
            };
            if year < 0 {
                Err(FailureClassification::Invalid)
            } else {
                Ok(value)
            }
        },
        Err(failure) => Err(failure),
    }
}

/// Looks for a value of the format somewhere inside a text.
pub fn scan(parser: Parser, text: &str, fmt: &str) -> (outcome: ScanOutcome)
    ensures
        outcome == scan_spec(parser, text@, fmt@),
        outcome matches ScanOutcome::Matched(value) ==> value.wf() && made_by(parser, value),
{
    let len: usize = text.as_bytes().len();
    let fmt_len: usize = fmt.as_bytes().len();
    let mut budget: usize = if len > fmt_len {
        len - fmt_len
    } else {
        0
    };
    let mut window: Window = Window { start: 0, end: len };
    while budget > 0 && window.start < window.end
        invariant
            window.start <= window.end <= len == text.spec_bytes().len(),
            scan_spec(parser, text@, fmt@) == scan_from(
                parser,
                text.spec_bytes(),
                fmt@,
                window.start as int,
                window.end as int,
                budget as nat,
            ),
        decreases budget,
    {
        match parse_window(parser, text, fmt, window) {
            Ok(value) => {
                return ScanOutcome::Matched(value);
            },
            Err(failure) => {
                window = advance(window, next_step(failure));
            },
        }
        budget = budget - 1;
    }
    ScanOutcome::Exhausted
}

} // verus!
