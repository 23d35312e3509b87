//! Matching national numbers against the patterns of number descriptors.

use crate::phonemetadata::PhoneNumberDesc;
use crate::regex_util::{
    matches_at_start, matches_fully, pattern_compiles, RegexConsume, RegexFullMatch,
};
use crate::regexp_cache::{ErrorInvalidRegex, RegexCache};
use crate::text::text_of;
use vstd::prelude::*;
use vstd::string::*;

verus! {

/// Whether a number matches a pattern, as a whole or with its start.
pub open spec fn number_matches_pattern(number: Seq<char>, pattern: Seq<char>, allow_prefix_match: bool)
    -> bool {
    if allow_prefix_match {
        matches_at_start(pattern, number)
    } else {
        matches_fully(pattern, number)
    }
}

/// Whether a national number matches the pattern of a descriptor. A
/// descriptor without a pattern matches nothing, and neither does one whose
/// pattern the engine refuses.
pub open spec fn matches_national_number(
    number: Seq<char>,
    number_desc: PhoneNumberDesc,
    allow_prefix_match: bool,
) -> bool {
    let pattern = text_of(number_desc.national_number_pattern);
    pattern.len() > 0 && pattern_compiles(pattern) && number_matches_pattern(
        number,
        pattern,
        allow_prefix_match,
    )
}

/// A matcher of national numbers that compiles descriptor patterns with the
/// regular-expression engine and keeps them in a cache of its own.
pub struct RegexBasedMatcher {
    cache: RegexCache,
}

impl RegexBasedMatcher {
    pub fn new() -> (matcher: RegexBasedMatcher) {
        RegexBasedMatcher { cache: RegexCache::with_capacity(128) }
    }

    /// Whether a number matches a pattern, as a whole or with its start.
    /// Fails exactly when the engine refuses the pattern.
    pub fn match_number(&self, phone_number: &str, number_pattern: &str, allow_prefix_match: bool)
        -> (r: Result<bool, ErrorInvalidRegex>)
        ensures
            r is Ok <==> pattern_compiles(number_pattern@),
            r matches Ok(b) ==> b == number_matches_pattern(
                phone_number@,
                number_pattern@,
                allow_prefix_match,
            ),
            r matches Err(e) ==> e.pattern@ == number_pattern@,
    {
        let regexp = self.cache.get_regex(number_pattern)?;
        if allow_prefix_match {
            Ok(regexp.matches_start(phone_number))
        } else {
            Ok(regexp.full_match(phone_number))
        }
    }

    /// Whether a national number, a string of decimal digits, matches the
    /// pattern of a descriptor.
    pub fn match_national_number(
        &self,
        number: &str,
        number_desc: &PhoneNumberDesc,
        allow_prefix_match: bool,
    ) -> (r: bool)
        ensures
            r == matches_national_number(number@, *number_desc, allow_prefix_match),
    {
        let national_number_pattern = number_desc.national_number_pattern();
        // An empty pattern would match the start of any number.
        if national_number_pattern.unicode_len() == 0 {
            return false;
        }
        match self.match_number(number, national_number_pattern, allow_prefix_match) {
            Ok(res) => res,
            Err(_) => false,
        }
    }
}

/// Whether a national number matches the pattern of a descriptor as a whole.
/// Lengths are not looked at.
pub fn is_match(matcher_api: &RegexBasedMatcher, number: &str, number_desc: &PhoneNumberDesc) -> (r:
    bool)
    ensures
        r == matches_national_number(number@, *number_desc, false),
{
    matcher_api.match_national_number(number, number_desc, false)
}

} // verus!
