//! The ways in which modem text can fail to be read.

use vstd::prelude::*;

verus! {

/// The parts of a modem reply that the parsers look for.
#[derive(Clone, Copy, Debug, PartialEq, Eq, Structural)]
pub enum Field {
    Year,
    Month,
    Day,
    Hour,
    Minute,
    Second,
    TimeZone,
    MemoryIndex,
    Address,
    Timestamp,
    Content,
    Category,
    Code,
    Value,
}

/// Why a piece of modem text could not be turned into a value.
#[derive(Clone, Copy, Debug, PartialEq, Eq, Structural)]
pub enum ParseFailure {
    /// A pattern was not accepted by the pattern compiler.
    InvalidPattern,
    /// The text does not contain the expected grammar.
    NoMatch,
    /// The grammar matched, but the named part took no part in the match.
    MissingField(Field),
    /// A numeric part is not a decimal number of its range.
    InvalidNumber,
    /// A field is not a string of hex digit pairs.
    InvalidHex,
    /// The converted timestamp is no valid date and time.
    InvalidTimestamp,
    /// A status keyword or status code that the modem does not define.
    UnknownStatus,
    /// A message format code other than `0` and `1`.
    UnknownFormat,
    /// An error category other than `CME` and `CMS`.
    UnknownCategory,
}

/// Why a text is no valid IMEI.
#[derive(Clone, Copy, Debug, PartialEq, Eq, Structural)]
pub enum ImeiError {
    /// The text does not have fifteen characters.
    WrongLength,
    /// A character of the text is no decimal digit.
    NotADigit,
    /// The last digit is not the check digit of the digits before it.
    WrongCheckDigit,
}

/// The view of a parse result whose value is a text.
pub open spec fn text_result(r: Result<String, ParseFailure>) -> Result<Seq<char>, ParseFailure> {
    match r {
        Ok(s) => Ok(s@),
        Err(e) => Err(e),
    }
}

} // verus!
