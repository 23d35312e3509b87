//! The character tables of the number grammar.

use crate::text::{ascii_upper, is_ascii_digit, to_ascii_upper};
use vstd::prelude::*;

verus! {

/// The tables that `normalize_helper` can map a number through.
#[derive(Debug, Clone, Copy, PartialEq, Eq, Structural)]
pub enum CharMapping {
    /// Keypad letters to their digits.
    Alpha,
    /// Keypad letters to their digits, and ASCII digits to themselves.
    AlphaPhone,
    /// The characters that matter when dialling: ASCII digits, `+`, `*`, `#`.
    Diallable,
    /// What is kept when an alpha number is formatted: letters (in upper
    /// case), ASCII digits, and grouping symbols in their plain form.
    AllPlusNumberGrouping,
}

/// The keypad digit of an upper-case letter.
pub open spec fn alpha_digit(c: char) -> Option<char> {
    if 'A' <= c <= 'C' {
        Some('2')
    } else if 'D' <= c <= 'F' {
        Some('3')
    } else if 'G' <= c <= 'I' {
        Some('4')
    } else if 'J' <= c <= 'L' {
        Some('5')
    } else if 'M' <= c <= 'O' {
        Some('6')
    } else if 'P' <= c <= 'S' {
        Some('7')
    } else if 'T' <= c <= 'V' {
        Some('8')
    } else if 'W' <= c <= 'Z' {
        Some('9')
    } else {
        None
    }
}

/// The plain form of a grouping symbol: dashes of every kind give `-`,
/// slashes `/`, spaces a space, full stops `.`.
pub open spec fn grouping_symbol(c: char) -> Option<char> {
    if c == '-' || c == '\u{FF0D}' || ('\u{2010}' <= c <= '\u{2015}') || c == '\u{2212}' {
        Some('-')
    } else if c == '/' || c == '\u{FF0F}' {
        Some('/')
    } else if c == ' ' || c == '\u{3000}' || c == '\u{2060}' {
        Some(' ')
    } else if c == '.' || c == '\u{FF0E}' {
        Some('.')
    } else {
        None
    }
}

impl CharMapping {
    /// What the table holds under a key.
    pub open spec fn entry(self, key: char) -> Option<char> {
        match self {
            CharMapping::Alpha => alpha_digit(key),
            CharMapping::AlphaPhone => if is_ascii_digit(key) {
                Some(key)
            } else {
                alpha_digit(key)
            },
            CharMapping::Diallable => if is_ascii_digit(key) || key == '+' || key == '*' || key
                == '#' {
                Some(key)
            } else {
                None
            },
            CharMapping::AllPlusNumberGrouping => if is_ascii_digit(key) || ('A' <= key <= 'Z') {
                Some(key)
            } else {
                grouping_symbol(key)
            },
        }
    }

    /// What a character of a number is replaced by: the table is consulted
    /// under the upper-case form of the character.
    pub open spec fn replacement(self, c: char) -> Option<char> {
        self.entry(ascii_upper(c))
    }

    pub fn get(self, key: char) -> (r: Option<char>)
        ensures
            r == self.entry(key),
    {
        match self {
            CharMapping::Alpha => alpha_char_digit(key),
            CharMapping::AlphaPhone => if '0' <= key && key <= '9' {
                Some(key)
            } else {
                alpha_char_digit(key)
            },
            CharMapping::Diallable => if ('0' <= key && key <= '9') || key == '+' || key == '*'
                || key == '#' {
                Some(key)
            } else {
                None
            },
            CharMapping::AllPlusNumberGrouping => if ('0' <= key && key <= '9') || ('A' <= key
                && key <= 'Z') {
                Some(key)
            } else if key == '-' || key == '\u{FF0D}' || ('\u{2010}' <= key && key <= '\u{2015}')
                || key == '\u{2212}' {
                Some('-')
            } else if key == '/' || key == '\u{FF0F}' {
                Some('/')
            } else if key == ' ' || key == '\u{3000}' || key == '\u{2060}' {
                Some(' ')
            } else if key == '.' || key == '\u{FF0E}' {
                Some('.')
            } else {
                None
            },
        }
    }

    pub fn replace(self, c: char) -> (r: Option<char>)
        ensures
            r == self.replacement(c),
    {
        self.get(to_ascii_upper(c))
    }
}

pub fn alpha_char_digit(c: char) -> (r: Option<char>)
    ensures
        r == alpha_digit(c),
{
    if 'A' <= c && c <= 'C' {
        Some('2')
    } else if 'D' <= c && c <= 'F' {
        Some('3')
    } else if 'G' <= c && c <= 'I' {
        Some('4')
    } else if 'J' <= c && c <= 'L' {
        Some('5')
    } else if 'M' <= c && c <= 'O' {
        Some('6')
    } else if 'P' <= c && c <= 'S' {
        Some('7')
    } else if 'T' <= c && c <= 'V' {
        Some('8')
    } else if 'W' <= c && c <= 'Z' {
        Some('9')
    } else {
        None
    }
}

/// Whether a character counts as a plus sign.
pub open spec fn is_plus_char(c: char) -> bool {
    c == '+' || c == '\u{FF0B}'
}

pub fn char_is_plus(c: char) -> (b: bool)
    ensures
        b == is_plus_char(c),
{
    c == '+' || c == '\u{FF0B}'
}

/// Whether a character is punctuation that may stand inside a phone number.
pub open spec fn is_valid_punctuation(c: char) -> bool {
    c == '-' || c == 'x' || ('\u{2010}' <= c <= '\u{2015}') || c == '\u{2212}' || c == '\u{30FC}'
        || ('\u{FF0D}' <= c <= '\u{FF0F}') || c == ' ' || c == '\u{00A0}' || c == '\u{00AD}' || c
        == '\u{200B}' || c == '\u{2060}' || c == '\u{3000}' || c == '(' || c == ')' || c
        == '\u{FF08}' || c == '\u{FF09}' || c == '\u{FF3B}' || c == '\u{FF3D}' || c == '.' || c
        == '[' || c == ']' || c == '/' || c == '~' || c == '\u{2053}' || c == '\u{223C}'
}

pub fn char_is_valid_punctuation(c: char) -> (b: bool)
    ensures
        b == is_valid_punctuation(c),
{
    c == '-' || c == 'x' || ('\u{2010}' <= c && c <= '\u{2015}') || c == '\u{2212}' || c
        == '\u{30FC}' || ('\u{FF0D}' <= c && c <= '\u{FF0F}') || c == ' ' || c == '\u{00A0}' || c
        == '\u{00AD}' || c == '\u{200B}' || c == '\u{2060}' || c == '\u{3000}' || c == '(' || c
        == ')' || c == '\u{FF08}' || c == '\u{FF09}' || c == '\u{FF3B}' || c == '\u{FF3D}' || c
        == '.' || c == '[' || c == ']' || c == '/' || c == '~' || c == '\u{2053}' || c
        == '\u{223C}'
}

/// The value that `DecimalExtended::to_decimal_utf8` gives for a character:
/// the digit it stands for if it is a decimal digit of any script.
pub uninterp spec fn decimal_value(c: char) -> Option<u8>;

/// Asks `DecimalExtended::to_decimal_utf8` of the crate `dec_from_char` for
/// the digit that a character stands for.
#[verifier::external_body]
fn to_decimal(c: char) -> (r: Option<u8>)
    ensures
        r == decimal_value(c),
{
    dec_from_char::DecimalExtended::to_decimal_utf8(&c)
}

/// The ASCII digit that a character stands for: an ASCII digit stands for
/// itself, a decimal digit of another script for the ASCII digit of the same
/// value.
pub open spec fn normalized_digit(c: char) -> Option<char> {
    if is_ascii_digit(c) {
        Some(c)
    } else {
        match decimal_value(c) {
            Some(d) => if d <= 9 {
                Some(crate::text::digit_char(d as nat))
            } else {
                None
            },
            None => None,
        }
    }
}

pub fn normalize_digit(c: char) -> (r: Option<char>)
    ensures
        r == normalized_digit(c),
        r matches Some(d) ==> is_ascii_digit(d),
{
    if '0' <= c && c <= '9' {
        Some(c)
    } else {
        match to_decimal(c) {
            Some(d) => if d <= 9 {
                Some(crate::text::digit_to_char(d))
            } else {
                None
            },
            None => None,
        }
    }
}

/// The token that mobile numbers of a calling code carry before the area
/// code.
pub open spec fn mobile_token(country_calling_code: i32) -> Option<char> {
    if country_calling_code == 54 {
        Some('9')
    } else {
        None
    }
}

pub fn get_mobile_token(country_calling_code: i32) -> (r: Option<char>)
    ensures
        r == mobile_token(country_calling_code),
{
    if country_calling_code == 54 {
        Some('9')
    } else {
        None
    }
}

/// Calling codes whose numbers have area codes but no national prefix.
pub open spec fn is_country_without_national_prefix_with_area_codes(code: i32) -> bool {
    code == 52
}

/// Calling codes with geographically assigned mobile numbers that are not
/// based on area codes.
pub open spec fn is_geo_mobile_country_without_mobile_area_codes(code: i32) -> bool {
    code == 86
}

/// Calling codes with geographically assigned mobile numbers.
pub open spec fn is_geo_mobile_country(code: i32) -> bool {
    code == 52 || code == 54 || code == 55 || code == 62
        || is_geo_mobile_country_without_mobile_area_codes(code)
}

pub fn country_without_national_prefix_with_area_codes(code: i32) -> (b: bool)
    ensures
        b == is_country_without_national_prefix_with_area_codes(code),
{
    code == 52
}

pub fn geo_mobile_country_without_mobile_area_codes(code: i32) -> (b: bool)
    ensures
        b == is_geo_mobile_country_without_mobile_area_codes(code),
{
    code == 86
}

pub fn geo_mobile_country(code: i32) -> (b: bool)
    ensures
        b == is_geo_mobile_country(code),
{
    code == 52 || code == 54 || code == 55 || code == 62 || code == 86
}

} // verus!
