//! The failures that the position engine reports to its callers.

use vstd::prelude::*;
use vstd::string::StringExecFns;

verus! {

/// Every way in which an operation of this library can fail.
#[derive(Clone, Copy, Debug, PartialEq, Eq, Structural)]
pub enum Error {
    /// An entry order was raised on a position whose entry has already filled.
    AlreadyOpen,
    /// An exit order was raised on a position whose entry has not filled yet.
    NotOpenYet,
    /// An exit order was raised on a position whose exit has already filled.
    AlreadyClosed,
    /// A fill carried an action that does not fit the transition it was applied to.
    InvalidTransition,
    /// No position of the default slot is new or open.
    NoActivePosition,
    /// The operation needs the latest candle and none has been received.
    NoCandleAvailable,
    /// A wire token names no variant of the enumeration it was read for.
    InvalidEnumValue,
    /// A batch of candles was empty.
    EmptyCandleBatch,
    /// A wire timestamp is not a date and time this library can hold.
    InvalidTimestamp,
    /// A wire identifier is not a UUID.
    InvalidId,
    /// The position sequence counter cannot be incremented any further.
    SequenceExhausted,
    /// The code derived for a new position is already taken.
    DuplicateCode,
    /// The strategy has no indicator value to decide on.
    MissingIndicator,
    /// The strategy type is known but has no rules yet.
    NotImplemented,
}

impl Error {
    /// The text of the message, as a sequence of characters.
    pub open spec fn message_text(self) -> Seq<char> {
        match self {
            Error::AlreadyOpen => "Position is already open"@,
            Error::NotOpenYet => "Position is not open"@,
            Error::AlreadyClosed => "Position is already closed"@,
            Error::InvalidTransition => "Invalid action for this transition"@,
            Error::NoActivePosition => "No active position"@,
            Error::NoCandleAvailable => "No candle found"@,
            Error::InvalidEnumValue => "Invalid enum value"@,
            Error::EmptyCandleBatch => "candles is empty"@,
            Error::InvalidTimestamp => "Invalid timestamp"@,
            Error::InvalidId => "Invalid position id"@,
            Error::SequenceExhausted => "Position sequence exhausted"@,
            Error::DuplicateCode => "Position code already exists"@,
            Error::MissingIndicator => "Indicator result is missing"@,
            Error::NotImplemented => "Strategy not implemented"@,
        }
    }

    /// A human-readable message for the error.
    pub fn message(&self) -> (text: String)
        ensures
            text@ == self.message_text(),
    {
        match self {
            Error::AlreadyOpen => String::from_str("Position is already open"),
            Error::NotOpenYet => String::from_str("Position is not open"),
            Error::AlreadyClosed => String::from_str("Position is already closed"),
            Error::InvalidTransition => String::from_str("Invalid action for this transition"),
            Error::NoActivePosition => String::from_str("No active position"),
            Error::NoCandleAvailable => String::from_str("No candle found"),
            Error::InvalidEnumValue => String::from_str("Invalid enum value"),
            Error::EmptyCandleBatch => String::from_str("candles is empty"),
            Error::InvalidTimestamp => String::from_str("Invalid timestamp"),
            Error::InvalidId => String::from_str("Invalid position id"),
            Error::SequenceExhausted => String::from_str("Position sequence exhausted"),
            Error::DuplicateCode => String::from_str("Position code already exists"),
            Error::MissingIndicator => String::from_str("Indicator result is missing"),
            Error::NotImplemented => String::from_str("Strategy not implemented"),
        }
    }
}

} // verus!
