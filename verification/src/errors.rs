//! The errors of the library.
//!
//! Errors that answer for bad input are returned to the caller. Errors that
//! can only come from broken metadata (a pattern the engine refuses) are kept
//! apart in the `...Internal` types.

use crate::regexp_cache::ErrorInvalidRegex;
use vstd::pervasive::unreached;
use vstd::prelude::*;
use vstd::std_specs::convert::FromSpecImpl;

verus! {

/// Metadata for a region that is listed as supported was not found.
#[derive(Debug, Clone, PartialEq, Eq)]
pub struct InvalidMetadataForValidRegionError;

/// Errors that point at broken metadata rather than at bad input.
#[derive(Debug, Clone, PartialEq, Eq)]
pub enum InternalLogicError {
    /// A pattern in the metadata is not a valid regular expression.
    InvalidRegex(ErrorInvalidRegex),
    /// A supported region has no metadata.
    InvalidMetadataForValidRegion(InvalidMetadataForValidRegionError),
}

/// Why a digit string could not be read as an unsigned 64-bit integer.
#[derive(Debug, Clone, Copy, PartialEq, Eq, Structural)]
pub enum IntegerParseError {
    /// The string is empty.
    Empty,
    /// The string holds a character that is not an ASCII digit.
    InvalidDigit,
    /// The value does not fit.
    Overflow,
}

/// Why no phone number could be cut out of a text.
#[derive(Debug, Clone, Copy, PartialEq, Eq, Structural)]
pub enum ExtractNumberError {
    /// The text holds no character a phone number can start with.
    NoValidStartCharacter,
    /// Nothing is left after the trailing characters are trimmed.
    NotANumber,
}

/// The ways in which a text can fail to be a phone number at all.
#[derive(Debug, Clone, Copy, PartialEq, Eq, Structural)]
pub enum NotANumberError {
    /// The text does not follow the grammar of viable phone numbers.
    NotMatchedValidNumberPattern,
    /// The `phone-context` parameter of a `tel:` URI is malformed.
    InvalidPhoneContext,
    /// The digits of the national number do not form an integer.
    FailedToParseNumberAsInt(IntegerParseError),
    /// No candidate number could be cut out of the text.
    FailedToExtractNumber(ExtractNumberError),
}

/// Why a text could not be parsed into a phone number.
#[derive(Debug, Clone, Copy, PartialEq, Eq, Structural)]
pub enum ParseError {
    /// The calling code is unknown, or none was given and the default region
    /// is unknown.
    InvalidCountryCode,
    NotANumber(NotANumberError),
    /// What follows the international dialling prefix is too short.
    TooShortAfterIdd,
    /// The national significant number is too short.
    TooShortNsn,
    /// The national significant number is too long.
    TooLongNsn,
}

/// A parse failure, or a broken pattern met while parsing.
#[derive(Debug, Clone, PartialEq, Eq)]
pub enum ParseErrorInternal {
    FailedToParse(ParseError),
    RegexError(ErrorInvalidRegex),
}

/// Why no example number could be produced.
#[derive(Debug, Clone, Copy, PartialEq, Eq, Structural)]
pub enum GetExampleNumberError {
    /// The example held in the metadata does not parse.
    FailedToParse(ParseError),
    /// The metadata holds no example for the region or type.
    NoExampleNumber,
    /// No number with the wanted property could be derived.
    CouldNotGetNumber,
    /// The region is not supported.
    InvalidRegionCode,
}

/// A failure to produce an example number, or a broken pattern met on the way.
#[derive(Debug, Clone, PartialEq, Eq)]
pub enum GetExampleNumberErrorInternal {
    FailedToGetExampleNumber(GetExampleNumberError),
    RegexError(ErrorInvalidRegex),
}

/// The text given where a number was required does not parse.
#[derive(Debug, Clone, Copy, PartialEq, Eq, Structural)]
pub struct InvalidNumberError(pub ParseError);

/// An unparsable number, or a broken pattern met while parsing it.
#[derive(Debug, Clone, PartialEq, Eq)]
pub enum InvalidNumberErrorInternal {
    InvalidNumber(InvalidNumberError),
    InvalidRegex(ErrorInvalidRegex),
}

/// Why a phone number is not a possible one.
#[derive(Debug, Clone, Copy, PartialEq, Eq, Hash, Structural)]
pub enum ValidationError {
    /// The calling code belongs to no known region.
    InvalidCountryCode,
    /// Shorter than every valid number of the region.
    TooShort,
    /// Between the shortest and the longest valid length of the region, but
    /// not itself a valid length; or the region has no numbers of the
    /// requested type.
    InvalidLength,
    /// Longer than every valid number of the region.
    TooLong,
}

impl From<ParseErrorInternal> for GetExampleNumberErrorInternal {
    fn from(value: ParseErrorInternal) -> (r: Self) {
        match value {
            ParseErrorInternal::FailedToParse(err) => {
                GetExampleNumberErrorInternal::FailedToGetExampleNumber(
                    GetExampleNumberError::FailedToParse(err),
                )
            },
            ParseErrorInternal::RegexError(err) => GetExampleNumberErrorInternal::RegexError(err),
        }
    }
}

impl FromSpecImpl<ParseErrorInternal> for GetExampleNumberErrorInternal {
    open spec fn obeys_from_spec() -> bool {
        true
    }

    open spec fn from_spec(value: ParseErrorInternal) -> Self {
        match value {
            ParseErrorInternal::FailedToParse(err) => {
                GetExampleNumberErrorInternal::FailedToGetExampleNumber(
                    GetExampleNumberError::FailedToParse(err),
                )
            },
            ParseErrorInternal::RegexError(err) => GetExampleNumberErrorInternal::RegexError(err),
        }
    }
}

impl From<ParseErrorInternal> for InvalidNumberErrorInternal {
    fn from(value: ParseErrorInternal) -> (r: Self) {
        match value {
            ParseErrorInternal::FailedToParse(err) => {
                InvalidNumberErrorInternal::InvalidNumber(InvalidNumberError(err))
            },
            ParseErrorInternal::RegexError(err) => InvalidNumberErrorInternal::InvalidRegex(err),
        }
    }
}

impl FromSpecImpl<ParseErrorInternal> for InvalidNumberErrorInternal {
    open spec fn obeys_from_spec() -> bool {
        true
    }

    open spec fn from_spec(value: ParseErrorInternal) -> Self {
        match value {
            ParseErrorInternal::FailedToParse(err) => {
                InvalidNumberErrorInternal::InvalidNumber(InvalidNumberError(err))
            },
            ParseErrorInternal::RegexError(err) => InvalidNumberErrorInternal::InvalidRegex(err),
        }
    }
}

impl From<ExtractNumberError> for ParseError {
    fn from(value: ExtractNumberError) -> (r: Self) {
        ParseError::NotANumber(NotANumberError::FailedToExtractNumber(value))
    }
}

impl FromSpecImpl<ExtractNumberError> for ParseError {
    open spec fn obeys_from_spec() -> bool {
        true
    }

    open spec fn from_spec(value: ExtractNumberError) -> Self {
        ParseError::NotANumber(NotANumberError::FailedToExtractNumber(value))
    }
}

impl GetExampleNumberErrorInternal {
    /// The error to show to a caller. A broken pattern is not one: it is a
    /// defect of the metadata, and such a value must not reach this point.
    pub fn into_public(self) -> (err: GetExampleNumberError)
        requires
            self is FailedToGetExampleNumber,
        ensures
            self == GetExampleNumberErrorInternal::FailedToGetExampleNumber(err),
    {
        match self {
            GetExampleNumberErrorInternal::FailedToGetExampleNumber(err) => err,
            GetExampleNumberErrorInternal::RegexError(_) => unreached(),
        }
    }
}

impl ParseErrorInternal {
    /// The error to show to a caller. A broken pattern is not one: it is a
    /// defect of the metadata, and such a value must not reach this point.
    pub fn into_public(self) -> (err: ParseError)
        requires
            self is FailedToParse,
        ensures
            self == ParseErrorInternal::FailedToParse(err),
    {
        match self {
            ParseErrorInternal::FailedToParse(err) => err,
            ParseErrorInternal::RegexError(_) => unreached(),
        }
    }
}

impl InvalidNumberErrorInternal {
    /// The error to show to a caller. A broken pattern is not one: it is a
    /// defect of the metadata, and such a value must not reach this point.
    pub fn into_public(self) -> (err: InvalidNumberError)
        requires
            self is InvalidNumber,
        ensures
            self == InvalidNumberErrorInternal::InvalidNumber(err),
    {
        match self {
            InvalidNumberErrorInternal::InvalidNumber(err) => err,
            InvalidNumberErrorInternal::InvalidRegex(_) => unreached(),
        }
    }
}

} // verus!
