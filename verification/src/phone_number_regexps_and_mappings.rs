//! The patterns of the number grammar that do not depend on any region,
//! compiled once, and the cache for the patterns of the metadata.

use crate::helper_constants::{
    CAPTURE_UP_TO_SECOND_NUMBER_START, DIGITS, MIN_LENGTH_FOR_NSN, PLUS_CHARS, PLUS_SIGN,
    RFC3966_VISUAL_SEPARATOR, STAR_SIGN, VALID_ALPHA, VALID_ALPHA_INCL_UPPERCASE, VALID_PUNCTUATION,
};
use crate::helper_functions::{create_extn_pattern, extn_pattern_text};
use crate::regex_util::CompiledPattern;
use crate::regexp_cache::{ErrorInvalidRegex, RegexCache};
use crate::text::{decimal_repr, decimal_string};
use vstd::prelude::*;
use vstd::string::*;

verus! {

/// A character that may not end a phone number: anything but a letter, a
/// number or a hash.
pub const UNWANTED_END_CHAR: &'static str = "[^\\p{N}\\p{L}#]";

/// An international prefix that is a single prefix and not a choice of
/// several: digits, possibly with a tilde (wait for the tone) among them.
pub const SINGLE_INTERNATIONAL_PREFIX: &'static str =
    "[\\d]+(?:[~\u{2053}\u{223C}\u{FF5E}][\\d]+)?";

/// A national prefix formatting rule that consists of the first group alone,
/// possibly in parentheses.
pub const FORMATTING_RULE_HAS_FIRST_GROUP_ONLY: &'static str = "\\(?\\$1\\)?";

/// A reference to a capture group in a template.
pub const FIRST_GROUP_CAPTURING: &'static str = "(\\$\\d)";

/// The place of the carrier code in a formatting rule.
pub const CARRIER_CODE: &'static str = "\\$CC";

/// A number written with letters, cut into the digits it starts with and the
/// rest.
pub const FIRST_DIGITS_AND_REST: &'static str = "(\\d+)(.*)";

/// The grammar of viable phone numbers, without extension: plus signs, then
/// at least three digits with punctuation among them, then digits,
/// punctuation and letters; or exactly two digits.
pub open spec fn valid_phone_number_text() -> Seq<char> {
    "["@ + PLUS_CHARS@ + "]*(?:["@ + VALID_PUNCTUATION@ + STAR_SIGN@ + "]*"@ + DIGITS@
        + "){3,}["@ + VALID_PUNCTUATION@ + STAR_SIGN@ + DIGITS@ + VALID_ALPHA@ + "]*|"@ + DIGITS@
        + "{"@ + decimal_repr(MIN_LENGTH_FOR_NSN as int) + "}"@
}

/// The grammar of viable phone numbers with an optional extension, anchored
/// at both ends, ignoring case.
pub open spec fn valid_phone_number_pattern_text() -> Seq<char> {
    "(?i)^(?:"@ + valid_phone_number_text() + ")(?:"@ + extn_pattern_text(true) + ")?$"@
}

/// An extension at the end of a text, ignoring case.
pub open spec fn extn_pattern_at_end_text() -> Seq<char> {
    "(?i)(?:"@ + extn_pattern_text(true) + ")$"@
}

/// A digit or a visual separator of RFC3966.
pub open spec fn rfc3966_phone_digit_text() -> Seq<char> {
    "("@ + DIGITS@ + "|"@ + RFC3966_VISUAL_SEPARATOR@ + ")"@
}

/// The global-number-digits of RFC3966: a plus sign and digits with visual
/// separators among them, at least one digit.
pub open spec fn rfc3966_global_number_digits_text() -> Seq<char> {
    "^\\"@ + PLUS_SIGN@ + rfc3966_phone_digit_text() + "*"@ + DIGITS@
        + rfc3966_phone_digit_text() + "*$"@
}

pub open spec fn alphanum_text() -> Seq<char> {
    VALID_ALPHA_INCL_UPPERCASE@ + DIGITS@
}

pub open spec fn rfc3966_domainlabel_text() -> Seq<char> {
    "["@ + alphanum_text() + "]+((\\-)*["@ + alphanum_text() + "])*"@
}

pub open spec fn rfc3966_toplabel_text() -> Seq<char> {
    "["@ + VALID_ALPHA_INCL_UPPERCASE@ + "]+((\\-)*["@ + alphanum_text() + "])*"@
}

/// The domain names of RFC3966: labels separated by full stops, the last one
/// starting with a letter.
pub open spec fn rfc3966_domainname_text() -> Seq<char> {
    "^("@ + rfc3966_domainlabel_text() + "\\.)*"@ + rfc3966_toplabel_text() + "\\.?$"@
}

/// The compiled patterns of the number grammar, and the cache in which the
/// patterns of the metadata are compiled on demand.
pub struct PhoneNumberRegExpsAndMappings {
    pub regexp_cache: RegexCache,
    pub capture_up_to_second_number_start_pattern: CompiledPattern,
    pub unwanted_end_char_pattern: CompiledPattern,
    pub extn_pattern: CompiledPattern,
    pub valid_phone_number_pattern: CompiledPattern,
    pub single_international_prefix: CompiledPattern,
    pub rfc3966_global_number_digits_pattern: CompiledPattern,
    pub rfc3966_domainname_pattern: CompiledPattern,
    pub formatting_rule_has_first_group_only_regex: CompiledPattern,
    pub first_group_capturing_pattern: CompiledPattern,
    pub carrier_code_pattern: CompiledPattern,
    pub first_digits_and_rest_pattern: CompiledPattern,
}

/// Compiles a pattern that is part of the grammar.
fn compiled(pattern: &str) -> (r: Result<CompiledPattern, ErrorInvalidRegex>)
    ensures
        r matches Ok(p) ==> p@ == pattern@,
        r matches Err(e) ==> e.pattern@ == pattern@,
        r is Ok <==> crate::regex_util::pattern_compiles(pattern@),
{
    match CompiledPattern::compile(pattern) {
        Ok(p) => Ok(p),
        Err(_) => Err(ErrorInvalidRegex { pattern: pattern.to_owned() }),
    }
}

fn valid_phone_number() -> (pattern: String)
    ensures
        pattern@ == valid_phone_number_text(),
{
    let min_length = decimal_string(MIN_LENGTH_FOR_NSN as i128);
    let mut pattern = String::from_str("[");
    pattern.append(PLUS_CHARS);
    pattern.append("]*(?:[");
    pattern.append(VALID_PUNCTUATION);
    pattern.append(STAR_SIGN);
    pattern.append("]*");
    pattern.append(DIGITS);
    pattern.append("){3,}[");
    pattern.append(VALID_PUNCTUATION);
    pattern.append(STAR_SIGN);
    pattern.append(DIGITS);
    pattern.append(VALID_ALPHA);
    pattern.append("]*|");
    pattern.append(DIGITS);
    pattern.append("{");
    pattern.append(min_length.as_str());
    pattern.append("}");
    pattern
}

fn rfc3966_phone_digit() -> (pattern: String)
    ensures
        pattern@ == rfc3966_phone_digit_text(),
{
    let mut pattern = String::from_str("(");
    pattern.append(DIGITS);
    pattern.append("|");
    pattern.append(RFC3966_VISUAL_SEPARATOR);
    pattern.append(")");
    pattern
}

fn rfc3966_global_number_digits() -> (pattern: String)
    ensures
        pattern@ == rfc3966_global_number_digits_text(),
{
    let phone_digit = rfc3966_phone_digit();
    let mut pattern = String::from_str("^\\");
    pattern.append(PLUS_SIGN);
    pattern.append(phone_digit.as_str());
    pattern.append("*");
    pattern.append(DIGITS);
    pattern.append(phone_digit.as_str());
    pattern.append("*$");
    pattern
}

fn alphanum() -> (pattern: String)
    ensures
        pattern@ == alphanum_text(),
{
    let mut pattern = String::from_str(VALID_ALPHA_INCL_UPPERCASE);
    pattern.append(DIGITS);
    pattern
}

fn rfc3966_domainname() -> (pattern: String)
    ensures
        pattern@ == rfc3966_domainname_text(),
{
    let alphanum = alphanum();
    let mut domainlabel = String::from_str("[");
    domainlabel.append(alphanum.as_str());
    domainlabel.append("]+((\\-)*[");
    domainlabel.append(alphanum.as_str());
    domainlabel.append("])*");
    let mut toplabel = String::from_str("[");
    toplabel.append(VALID_ALPHA_INCL_UPPERCASE);
    toplabel.append("]+((\\-)*[");
    toplabel.append(alphanum.as_str());
    toplabel.append("])*");
    let mut pattern = String::from_str("^(");
    pattern.append(domainlabel.as_str());
    pattern.append("\\.)*");
    pattern.append(toplabel.as_str());
    pattern.append("\\.?$");
    pattern
}

impl PhoneNumberRegExpsAndMappings {
    /// Every compiled pattern is the one that the grammar names.
    pub open spec fn wf(&self) -> bool {
        &&& Self::grammar_compiles()
        &&& self.capture_up_to_second_number_start_pattern@ == CAPTURE_UP_TO_SECOND_NUMBER_START@
        &&& self.unwanted_end_char_pattern@ == UNWANTED_END_CHAR@
        &&& self.extn_pattern@ == extn_pattern_at_end_text()
        &&& self.valid_phone_number_pattern@ == valid_phone_number_pattern_text()
        &&& self.single_international_prefix@ == SINGLE_INTERNATIONAL_PREFIX@
        &&& self.rfc3966_global_number_digits_pattern@ == rfc3966_global_number_digits_text()
        &&& self.rfc3966_domainname_pattern@ == rfc3966_domainname_text()
        &&& self.formatting_rule_has_first_group_only_regex@
            == FORMATTING_RULE_HAS_FIRST_GROUP_ONLY@
        &&& self.first_group_capturing_pattern@ == FIRST_GROUP_CAPTURING@
        &&& self.carrier_code_pattern@ == CARRIER_CODE@
        &&& self.first_digits_and_rest_pattern@ == FIRST_DIGITS_AND_REST@
    }

    /// Whether the engine accepts every pattern of the grammar.
    pub open spec fn grammar_compiles() -> bool {
        &&& crate::regex_util::pattern_compiles(CAPTURE_UP_TO_SECOND_NUMBER_START@)
        &&& crate::regex_util::pattern_compiles(UNWANTED_END_CHAR@)
        &&& crate::regex_util::pattern_compiles(extn_pattern_at_end_text())
        &&& crate::regex_util::pattern_compiles(valid_phone_number_pattern_text())
        &&& crate::regex_util::pattern_compiles(SINGLE_INTERNATIONAL_PREFIX@)
        &&& crate::regex_util::pattern_compiles(rfc3966_global_number_digits_text())
        &&& crate::regex_util::pattern_compiles(rfc3966_domainname_text())
        &&& crate::regex_util::pattern_compiles(FORMATTING_RULE_HAS_FIRST_GROUP_ONLY@)
        &&& crate::regex_util::pattern_compiles(FIRST_GROUP_CAPTURING@)
        &&& crate::regex_util::pattern_compiles(CARRIER_CODE@)
        &&& crate::regex_util::pattern_compiles(FIRST_DIGITS_AND_REST@)
    }

    /// Compiles the patterns of the grammar. Fails only if the engine refuses
    /// one of them.
    pub fn new() -> (r: Result<PhoneNumberRegExpsAndMappings, ErrorInvalidRegex>)
        ensures
            r matches Ok(regexps) ==> regexps.wf(),
            r is Ok <==> Self::grammar_compiles(),
            r matches Err(e) ==> !crate::regex_util::pattern_compiles(e.pattern@),
    {
        let extn_patterns_for_parsing = create_extn_pattern(true);
        let valid_phone_number = valid_phone_number();

        let mut extn_at_end = String::from_str("(?i)(?:");
        extn_at_end.append(extn_patterns_for_parsing.as_str());
        extn_at_end.append(")$");

        let mut valid_number = String::from_str("(?i)^(?:");
        valid_number.append(valid_phone_number.as_str());
        valid_number.append(")(?:");
        valid_number.append(extn_patterns_for_parsing.as_str());
        valid_number.append(")?$");

        let global_number_digits = rfc3966_global_number_digits();
        let domainname = rfc3966_domainname();

        let capture_up_to_second_number_start_pattern = match compiled(CAPTURE_UP_TO_SECOND_NUMBER_START) {
            Ok(pattern) => pattern,
            Err(e) => {
                return Err(e);
            },
        };
        let unwanted_end_char_pattern = match compiled(UNWANTED_END_CHAR) {
            Ok(pattern) => pattern,
            Err(e) => {
                return Err(e);
            },
        };
        let extn_pattern = match compiled(extn_at_end.as_str()) {
            Ok(pattern) => pattern,
            Err(e) => {
                return Err(e);
            },
        };
        let valid_phone_number_pattern = match compiled(valid_number.as_str()) {
            Ok(pattern) => pattern,
            Err(e) => {
                return Err(e);
            },
        };
        let single_international_prefix = match compiled(SINGLE_INTERNATIONAL_PREFIX) {
            Ok(pattern) => pattern,
            Err(e) => {
                return Err(e);
            },
        };
        let rfc3966_global_number_digits_pattern = match compiled(global_number_digits.as_str()) {
            Ok(pattern) => pattern,
            Err(e) => {
                return Err(e);
            },
        };
        let rfc3966_domainname_pattern = match compiled(domainname.as_str()) {
            Ok(pattern) => pattern,
            Err(e) => {
                return Err(e);
            },
        };
        let formatting_rule_has_first_group_only_regex = match compiled(FORMATTING_RULE_HAS_FIRST_GROUP_ONLY) {
            Ok(pattern) => pattern,
            Err(e) => {
                return Err(e);
            },
        };
        let first_group_capturing_pattern = match compiled(FIRST_GROUP_CAPTURING) {
            Ok(pattern) => pattern,
            Err(e) => {
                return Err(e);
            },
        };
        let carrier_code_pattern = match compiled(CARRIER_CODE) {
            Ok(pattern) => pattern,
            Err(e) => {
                return Err(e);
            },
        };
        let first_digits_and_rest_pattern = match compiled(FIRST_DIGITS_AND_REST) {
            Ok(pattern) => pattern,
            Err(e) => {
                return Err(e);
            },
        };
        Ok(
            PhoneNumberRegExpsAndMappings {
                regexp_cache: RegexCache::with_capacity(128),
                capture_up_to_second_number_start_pattern,
                unwanted_end_char_pattern,
                extn_pattern,
                valid_phone_number_pattern,
                single_international_prefix,
                rfc3966_global_number_digits_pattern,
                rfc3966_domainname_pattern,
                formatting_rule_has_first_group_only_regex,
                first_group_capturing_pattern,
                carrier_code_pattern,
                first_digits_and_rest_pattern,
            },
        )
    }
}

} // verus!
