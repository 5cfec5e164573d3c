//! Errors reported across the binding boundary.

use vstd::prelude::*;
use vstd::string::*;

verus! {

/// Failure of one binding call. Each variant carries the text of the
/// underlying failure, or the identifier that was looked up.
#[derive(Debug, Clone, PartialEq, Eq)]
pub enum BinaryErrorJs {
    BinaryOptionsError(String),
    PocketOptionError(String),
    Uninitialized(String),
    DeserializingError(String),
    UuidParsingError(String),
    TradeNotFound(String),
    NotAllowed(String),
    InvalidRegexError(String),
}

impl BinaryErrorJs {
    /// The text shown to the caller for this error.
    pub open spec fn message(self) -> Seq<char> {
        match self {
            BinaryErrorJs::BinaryOptionsError(cause) => "BinaryOptionsError, "@ + cause@,
            BinaryErrorJs::PocketOptionError(cause) => "PocketOptionError, "@ + cause@,
            BinaryErrorJs::Uninitialized(what) => "Uninitialized, "@ + what@,
            BinaryErrorJs::DeserializingError(cause) => "Error descerializing data, "@ + cause@,
            BinaryErrorJs::UuidParsingError(cause) => "UUID parsing error, "@ + cause@,
            BinaryErrorJs::TradeNotFound(id) => "Trade not found, haven't found trade for id '"@
                + id@ + "'"@,
            BinaryErrorJs::NotAllowed(_) => "Operation not allowed"@,
            BinaryErrorJs::InvalidRegexError(cause) => "Invalid Regex pattern, "@ + cause@,
        }
    }

    /// Renders the error as the text shown to the caller.
    pub fn to_string(&self) -> (text: String)
        ensures
            text@ == self.message(),
    {
        match self {
            BinaryErrorJs::BinaryOptionsError(cause) => {
                String::from_str("BinaryOptionsError, ").concat(cause.as_str())
            },
            BinaryErrorJs::PocketOptionError(cause) => {
                String::from_str("PocketOptionError, ").concat(cause.as_str())
            },
            BinaryErrorJs::Uninitialized(what) => {
                String::from_str("Uninitialized, ").concat(what.as_str())
            },
            BinaryErrorJs::DeserializingError(cause) => {
                String::from_str("Error descerializing data, ").concat(cause.as_str())
            },
            BinaryErrorJs::UuidParsingError(cause) => {
                String::from_str("UUID parsing error, ").concat(cause.as_str())
            },
            BinaryErrorJs::TradeNotFound(id) => {
                String::from_str("Trade not found, haven't found trade for id '").concat(
                    id.as_str(),
                ).concat("'")
            },
            BinaryErrorJs::NotAllowed(_) => String::from_str("Operation not allowed"),
            BinaryErrorJs::InvalidRegexError(cause) => {
                String::from_str("Invalid Regex pattern, ").concat(cause.as_str())
            },
        }
    }
}

} // verus!
