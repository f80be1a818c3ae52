//! Conversion of columns of text into dates, times of day and date-times.
//!
//! A column of text becomes a column of numbers: days from 1970-01-01,
//! nanoseconds from midnight, or ticks from the epoch. The format of the texts
//! is given or is sniffed from the first text. Each text is read by a
//! structured parser where the format allows it and by the general parser of
//! `chrono` where it does not, and a text that cannot be read becomes a null.

pub mod cache;
pub mod calendar;
pub mod column;
pub mod convert;
pub mod error;
pub mod format;
pub mod general_parser;
pub mod laws;
pub mod patterns;
pub mod scan;
pub mod sniff;
pub mod strptime;
pub mod timezone;
pub mod utf8;

pub use crate::patterns::Pattern;
pub use crate::utf8::AsUtf8;
pub use crate::utf8::Utf8Methods;
