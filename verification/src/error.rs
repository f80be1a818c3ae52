//! The ways a whole conversion can fail. A value that does not parse is no
//! failure: it becomes a null.

use vstd::prelude::*;

verus! {

/// Why a zone could not be attached to a column.
#[derive(Clone, Debug, PartialEq, Eq)]
pub enum ZoneFailure {
    /// The column has more values than the zone-attachment service takes.
    ColumnTooLong,
    /// The zone's name is not in the zone database.
    UnknownZone,
    /// A value lies too close to the ends of what the unit can count, or of
    /// what the calendar reaches, for the zone's offset to be applied to it.
    ValueOutOfRange,
    /// The service refused: the clocks of the zone never showed one of the
    /// local times, or showed one twice and no preference was given. The
    /// message is the service's own.
    Refused(String),
}

/// A failure of a whole conversion.
#[derive(Clone, Debug, PartialEq, Eq)]
pub enum ConversionError {
    /// No format was given and none could be found: every value is null, or no
    /// format of the catalog reads the first value that is not.
    FormatUndeterminable,
    /// The format string ends in a `%` that introduces nothing.
    InvalidFormat,
    /// A zone was to be attached to the values and could not be.
    ZoneAttachment(ZoneFailure),
}

} // verus!
