//! Constants of the number grammar.

use vstd::prelude::*;

verus! {

/// The shortest national significant number.
pub const MIN_LENGTH_FOR_NSN: usize = 2;

/// The longest national significant number. The ITU says 15, but longer
/// numbers exist in Germany.
pub const MAX_LENGTH_FOR_NSN: usize = 17;

/// The longest calling code.
pub const MAX_LENGTH_COUNTRY_CODE: usize = 3;

/// The characters that count as a plus sign.
pub const PLUS_CHARS: &'static str = "+\u{FF0B}";

/// The punctuation that may stand inside a phone number, as the inside of a
/// character class: dashes, white space, full stops, slashes, brackets,
/// parentheses and tildes, with their full-width forms, and the letter `x`,
/// which is used as a placeholder for carrier codes.
pub const VALID_PUNCTUATION: &'static str =
    "-x\u{2010}-\u{2015}\u{2212}\u{30FC}\u{FF0D}-\u{FF0F} \u{00A0}\u{00AD}\u{200B}\u{2060}\u{3000}()\u{FF08}\u{FF09}\u{FF3B}\u{FF3D}.\\[\\]/~\u{2053}\u{223C}";

/// A pattern that captures what stands before the start of a second number,
/// as in `(530) 583-6985 x302/x2303`.
pub const CAPTURE_UP_TO_SECOND_NUMBER_START: &'static str = "(.*)[\\\\/] *x";

/// The region code of the non-geographical entities.
pub const REGION_CODE_FOR_NON_GEO_ENTITY: &'static str = "001";

pub const PLUS_SIGN: &'static str = "+";

pub const STAR_SIGN: &'static str = "*";

pub const RFC3966_EXTN_PREFIX: &'static str = ";ext=";

pub const RFC3966_PREFIX: &'static str = "tel:";

pub const RFC3966_PHONE_CONTEXT: &'static str = ";phone-context=";

pub const RFC3966_ISDN_SUBADDRESS: &'static str = ";isub=";

pub const RFC3966_VISUAL_SEPARATOR: &'static str = "[\\-\\.\\(\\)]?";

/// The character class of decimal digits in any script.
pub const DIGITS: &'static str = "\\p{Nd}";

pub const VALID_ALPHA: &'static str = "a-z";

pub const VALID_ALPHA_INCL_UPPERCASE: &'static str = "A-Za-z";

/// What is put before an extension when the region states no prefix of its
/// own.
pub const DEFAULT_EXTN_PREFIX: &'static str = " ext. ";

pub const POSSIBLE_SEPARATORS_BETWEEN_NUMBER_AND_EXT_LABEL: &'static str = "[ \u{00A0}\\t,]*";

/// An optional full stop or colon, then any number of spaces, tabs, commas
/// and dashes.
pub const POSSIBLE_CHARS_AFTER_EXT_LABEL: &'static str = "[:\\.\u{FF0E}]?[ \u{00A0}\\t,-]*";

pub const OPTIONAL_EXT_SUFFIX: &'static str = "#?";

/// The calling code of the North American Numbering Plan.
pub const NANPA_COUNTRY_CODE: i32 = 1;

} // verus!
