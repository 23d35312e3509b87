//! Parsing: from a text to a phone number, by way of the candidate number,
//! the extension, the calling code, and the national prefix.

use crate::char_mappings::{char_is_plus, is_plus_char};
use crate::enums::{CountryCodeSource, NumberLengthType, PhoneNumberType};
use crate::errors::{NotANumberError, ParseError, ValidationError};
use crate::helper_constants::{
    MAX_LENGTH_COUNTRY_CODE, MAX_LENGTH_FOR_NSN, MIN_LENGTH_FOR_NSN, RFC3966_ISDN_SUBADDRESS,
    RFC3966_PHONE_CONTEXT, RFC3966_PREFIX,
};
use crate::helper_functions::{number_length_class, test_number_length_with_unknown_type};
use crate::helper_types::{CountryCodeExtraction, PhoneNumberWithCountryCodeSource};
use crate::metadata_store::{first_index, lemma_first_index_found, lemma_first_index_none};
use crate::normalization::{group_text, is_viable, normalized, possible_number, without_extension};
use crate::phone_number_regexps_and_mappings::{
    rfc3966_domainname_text, rfc3966_global_number_digits_text,
};
use crate::phonemetadata::{optional_pattern_compiles, PhoneMetadata};
use crate::phonenumber::{PhoneNumber, PhoneNumberModel};
use crate::phonenumberutil_internal::PhoneNumberUtilInternal;
use crate::regex_based_matcher::matches_national_number;
use crate::regex_util::{
    captures_at_start, group_view, match_at_start, matches_fully, pattern_compiles, replaced_first,
    RegexFullMatch,
};
use crate::text::{
    all_ascii_digits, chars_of, decimal_digits, decimal_repr, decimal_string, digits_value, find,
    first_occurrence, parse_u64, parsed_u64, starts_with, string_of, substring, subvec,
};
use vstd::prelude::*;
use vstd::string::*;

verus! {

/// A text without the plus signs it starts with.
pub open spec fn without_leading_plus(s: Seq<char>) -> Seq<char>
    decreases s.len(),
{
    if s.len() > 0 && is_plus_char(s[0]) {
        without_leading_plus(s.skip(1))
    } else {
        s
    }
}

/// A normalized number without the international prefix it starts with.
/// The prefix is only taken off where the digit that follows is not a zero:
/// no calling code starts with one.
pub open spec fn without_idd(idd_pattern: Seq<char>, number: Seq<char>) -> Option<Seq<char>> {
    match match_at_start(idd_pattern, number) {
        Some(m) => if m.1.len() > 0 && m.1[0] == '0' {
            None
        } else {
            Some(m.1)
        },
        None => None,
    }
}

/// A number in normal form with its international prefix taken off, and
/// where the calling code is to come from. A number that starts with a plus
/// sign loses the plus sign. Any other number is tried against the
/// international prefix of the region it is dialled from, where that region
/// is known.
pub open spec fn without_international_prefix(
    number: Seq<char>,
    possible_idd_prefix: Option<Seq<char>>,
) -> (Seq<char>, CountryCodeSource) {
    if number.len() == 0 {
        (number, CountryCodeSource::FROM_DEFAULT_COUNTRY)
    } else if is_plus_char(number[0]) {
        (normalized(without_leading_plus(number)), CountryCodeSource::FROM_NUMBER_WITH_PLUS_SIGN)
    } else {
        let digits = normalized(number);
        match possible_idd_prefix {
            Some(idd) => match without_idd(idd, digits) {
                Some(rest) => (rest, CountryCodeSource::FROM_NUMBER_WITH_IDD),
                None => (digits, CountryCodeSource::FROM_DEFAULT_COUNTRY),
            },
            None => (digits, CountryCodeSource::FROM_DEFAULT_COUNTRY),
        }
    }
}

/// The carrier code that a match of the national prefix holds.
pub open spec fn carrier_code_of(groups: Seq<Option<Seq<char>>>, transformed: bool) -> Option<
    Seq<char>,
> {
    let group_count = groups.len() - 1;
    if transformed {
        if group_count > 1 {
            group_text(groups, 1)
        } else {
            None
        }
    } else if group_count > 0 && group_text(groups, group_count) is Some {
        group_text(groups, 1)
    } else {
        None
    }
}

/// A national number without its national prefix, and the carrier code that
/// stood with the prefix.
///
/// Nothing is taken off where the region has no pattern for the prefix or
/// the pattern does not match the start of the number. Where it matches, the
/// number is rewritten by the transform rule of the region if there is one
/// and the last capture group took part in the match, and loses the matched
/// part otherwise. Either way the result is only kept if it still fits the
/// general descriptor of the region, or the number did not fit it to begin
/// with.
pub open spec fn without_national_prefix(metadata: PhoneMetadata, number: Seq<char>) -> (
    Seq<char>,
    Option<Seq<char>>,
) {
    let prefix_pattern = metadata.spec_national_prefix_for_parsing();
    if number.len() == 0 || prefix_pattern.len() == 0 {
        (number, None)
    } else {
        match captures_at_start(prefix_pattern, number) {
            None => (number, None),
            Some(c) => {
                let viable = matches_national_number(number, metadata.general_desc, false);
                let transform_rule = metadata.spec_national_prefix_transform_rule();
                let transformed = transform_rule.len() > 0 && group_text(c.0, c.0.len() - 1)
                    is Some;
                let candidate = if transformed {
                    replaced_first(prefix_pattern, number, transform_rule)
                } else {
                    c.1
                };
                if viable && !matches_national_number(candidate, metadata.general_desc, false) {
                    (number, None)
                } else {
                    (candidate, carrier_code_of(c.0, transformed))
                }
            },
        }
    }
}

/// Stripping the national prefix never turns a number that fits the general
/// descriptor of its region into one that does not.
pub proof fn lemma_prefix_stripping_is_safe(metadata: PhoneMetadata, number: Seq<char>)
    requires
        matches_national_number(number, metadata.general_desc, false),
    ensures
        matches_national_number(
            without_national_prefix(metadata, number).0,
            metadata.general_desc,
            false,
        ),
{
}

/// The run of zeros at the start of a digit string, from position `k` on,
/// leaving the last digit out.
pub open spec fn leading_zero_run(s: Seq<char>, k: int) -> int
    decreases s.len() - k,
{
    if 0 <= k < s.len() - 1 && s[k] == '0' {
        leading_zero_run(s, k + 1)
    } else {
        k
    }
}

/// A run of zeros before a digit string does not change the number that
/// the string writes.
pub proof fn lemma_zeros_before_digits(k: nat, digits: Seq<char>)
    requires
        all_ascii_digits(digits),
    ensures
        all_ascii_digits(Seq::new(k, |i: int| '0') + digits),
        digits_value(Seq::new(k, |i: int| '0') + digits) == digits_value(digits),
    decreases digits.len(), k,
{
    let zeros = Seq::new(k, |i: int| '0');
    if digits.len() > 0 {
        lemma_zeros_before_digits(k, digits.drop_last());
        assert((zeros + digits).drop_last() == zeros + digits.drop_last());
        assert((zeros + digits).last() == digits.last());
    } else if k > 0 {
        let fewer = Seq::new((k - 1) as nat, |i: int| '0');
        lemma_zeros_before_digits((k - 1) as nat, digits);
        assert(zeros + digits == zeros);
        assert(fewer + digits == fewer);
        assert(zeros.drop_last() == fewer);
        assert(zeros.last() == '0');
    } else {
        assert(zeros + digits == digits);
    }
}

/// The decimal digits of a positive number do not start with a zero.
pub proof fn lemma_decimal_digits_start(n: nat)
    requires
        n > 0,
    ensures
        decimal_digits(n).len() > 0,
        decimal_digits(n)[0] != '0',
    decreases n,
{
    if n >= 10 {
        lemma_decimal_digits_start(n / 10);
    }
}

/// The run of zeros in front of a digit string that does not start with a
/// zero, or that is the single digit zero, is counted in full.
pub proof fn lemma_leading_zero_run(k: nat, digits: Seq<char>, from: int)
    requires
        0 <= from <= k,
        digits.len() > 0,
        digits[0] != '0' || digits.len() == 1,
    ensures
        leading_zero_run(Seq::new(k, |i: int| '0') + digits, from) == k,
    decreases k - from,
{
    let s = Seq::new(k, |i: int| '0') + digits;
    if from < k {
        assert(s[from] == '0');
        lemma_leading_zero_run(k, digits, from + 1);
    } else {
        assert(s[k as int] == digits[0]);
    }
}

/// The national significant number of a phone number holds the national
/// number and the leading zeros of the number: read back as the last stage
/// of parsing reads it, it gives both again.
pub proof fn lemma_national_significant_number_reads_back(number: PhoneNumberModel)
    ensures
        parsed_u64(crate::validation::national_significant_number(number)) == Ok::<
            u64,
            crate::errors::IntegerParseError,
        >(number.spec_national_number()),
        leading_zero_run(crate::validation::national_significant_number(number), 0)
            == crate::validation::leading_zero_count(number),
{
    let n = number.spec_national_number() as nat;
    let k = crate::validation::leading_zero_count(number);
    let digits = decimal_digits(n);
    crate::text::lemma_decimal_digits_are_digits(n);
    crate::text::lemma_digits_value_of_decimal_digits(n);
    lemma_zeros_before_digits(k, digits);
    if n > 0 {
        lemma_decimal_digits_start(n);
    }
    lemma_leading_zero_run(k, digits, 0);
}

/// The phone number that the digits of a national significant number stand
/// for. The digits must be at least two and at most seventeen. The zeros
/// they start with are counted, up to the last digit, which always belongs
/// to the national number; the rest is read as an integer. The source of the
/// calling code and the carrier code are only kept together with the raw
/// input.
pub open spec fn number_from_digits(
    country_code: i32,
    national_number: Seq<char>,
    extension: Option<Seq<char>>,
    raw_input: Option<Seq<char>>,
    source: CountryCodeSource,
    carrier_code: Option<Seq<char>>,
) -> Result<PhoneNumberModel, ParseError> {
    if national_number.len() < MIN_LENGTH_FOR_NSN {
        Err(ParseError::TooShortNsn)
    } else if national_number.len() > MAX_LENGTH_FOR_NSN {
        Err(ParseError::TooLongNsn)
    } else {
        match parsed_u64(national_number) {
            Err(e) => Err(ParseError::NotANumber(NotANumberError::FailedToParseNumberAsInt(e))),
            Ok(value) => {
                let zeros = leading_zero_run(national_number, 0);
                let flagged = national_number.len() > 1 && national_number[0] == '0';
                Ok(
                    PhoneNumberModel {
                        country_code: Some(country_code),
                        national_number: Some(value),
                        extension: extension,
                        italian_leading_zero: if flagged {
                            Some(true)
                        } else {
                            None
                        },
                        number_of_leading_zeros: if flagged && zeros != 1 {
                            Some(zeros as i32)
                        } else {
                            None
                        },
                        raw_input: raw_input,
                        country_code_source: if raw_input is Some {
                            Some(source)
                        } else {
                            None
                        },
                        preferred_domestic_carrier_code: match carrier_code {
                            Some(code) => if raw_input is Some && code.len() > 0 {
                                Some(code)
                            } else {
                                None
                            },
                            None => None,
                        },
                    },
                )
            },
        }
    }
}

/// A digit string that does not start with a superfluous zero is the decimal
/// form of the number it writes.
pub proof fn lemma_decimal_digits_of_digits_value(digits: Seq<char>)
    requires
        all_ascii_digits(digits),
        digits.len() > 0,
        digits[0] != '0' || digits.len() == 1,
    ensures
        decimal_digits(digits_value(digits)) == digits,
    decreases digits.len(),
{
    let last = digits.last();
    assert(crate::text::is_ascii_digit(last));
    assert(crate::text::digit_char(crate::text::digit_value(last)) == last);
    if digits.len() == 1 {
        assert(digits.drop_last().len() == 0);
        assert(digits_value(digits.drop_last()) == 0);
        assert(decimal_digits(digits_value(digits)) =~= digits);
    } else {
        let front = digits.drop_last();
        lemma_decimal_digits_of_digits_value(front);
        if digits_value(front) == 0 {
            assert(decimal_digits(0)[0] == '0');
        }
        let v = digits_value(digits);
        assert(v == digits_value(front) * 10 + crate::text::digit_value(last));
        assert(v / 10 == digits_value(front) && v % 10 == crate::text::digit_value(last));
        assert(decimal_digits(v) =~= digits);
    }
}

/// The zeros that a digit string starts with, up to its last digit.
pub proof fn lemma_leading_zero_run_splits(digits: Seq<char>, from: int)
    requires
        0 <= from < digits.len(),
        forall|i: int| 0 <= i < from ==> digits[i] == '0',
    ensures
        from <= leading_zero_run(digits, from) < digits.len(),
        forall|i: int| 0 <= i < leading_zero_run(digits, from) ==> digits[i] == '0',
        digits[leading_zero_run(digits, from)] != '0' || leading_zero_run(digits, from)
            == digits.len() - 1,
    decreases digits.len() - from,
{
    if from < digits.len() - 1 && digits[from] == '0' {
        lemma_leading_zero_run_splits(digits, from + 1);
    }
}

/// A phone number that was read from the digits of a national significant
/// number has those digits as its national significant number: at least two
/// and at most seventeen ASCII digits.
pub proof fn lemma_number_from_digits_keeps_the_digits(
    country_code: i32,
    national_number: Seq<char>,
    extension: Option<Seq<char>>,
    raw_input: Option<Seq<char>>,
    source: CountryCodeSource,
    carrier_code: Option<Seq<char>>,
)
    ensures
        number_from_digits(
            country_code,
            national_number,
            extension,
            raw_input,
            source,
            carrier_code,
        ) matches Ok(number) ==> {
            &&& crate::validation::national_significant_number(number) == national_number
            &&& MIN_LENGTH_FOR_NSN <= national_number.len() <= MAX_LENGTH_FOR_NSN
            &&& all_ascii_digits(national_number)
            &&& number.country_code == Some(country_code)
        },
{
    let r = number_from_digits(
        country_code,
        national_number,
        extension,
        raw_input,
        source,
        carrier_code,
    );
    if let Ok(number) = r {
        let run = leading_zero_run(national_number, 0);
        lemma_leading_zero_run_splits(national_number, 0);
        let rest = national_number.skip(run);
        let zeros = Seq::new(run as nat, |i: int| '0');
        assert(national_number =~= zeros + rest);
        assert(all_ascii_digits(rest)) by {
            assert forall|i: int| 0 <= i < rest.len() implies crate::text::is_ascii_digit(
                #[trigger] rest[i],
            ) by {
                assert(rest[i] == national_number[run + i]);
            }
        }
        lemma_zeros_before_digits(run as nat, rest);
        lemma_decimal_digits_of_digits_value(rest);
        assert(crate::validation::leading_zero_count(number) == run);
        assert(number.spec_national_number() == digits_value(rest));
    }
}

/// A phone number in the form that parsing gives to it: the calling code,
/// the national number and the extension as they are; the leading-zero flag
/// set only where the number has leading zeros, and their count stated only
/// where it is not one; nothing that records how the number was written.
pub open spec fn canonical_form(number: PhoneNumberModel) -> PhoneNumberModel {
    let zeros = crate::validation::leading_zero_count(number);
    PhoneNumberModel {
        country_code: Some(number.spec_country_code()),
        national_number: Some(number.spec_national_number()),
        extension: number.extension,
        italian_leading_zero: if zeros > 0 {
            Some(true)
        } else {
            None
        },
        number_of_leading_zeros: if zeros > 1 {
            Some(zeros as i32)
        } else {
            None
        },
        raw_input: None,
        country_code_source: None,
        preferred_domestic_carrier_code: None,
    }
}

/// The digits of a phone number pass through the last stage of parsing
/// unchanged: the national significant number of a number, if it has at least
/// two and at most seventeen digits, is read back as the number in its
/// canonical form.
pub proof fn lemma_digits_of_a_number_read_back_as_the_number(number: PhoneNumberModel)
    requires
        MIN_LENGTH_FOR_NSN <= crate::validation::national_significant_number(number).len()
            <= MAX_LENGTH_FOR_NSN,
    ensures
        number_from_digits(
            number.spec_country_code(),
            crate::validation::national_significant_number(number),
            number.extension,
            None,
            CountryCodeSource::UNSPECIFIED,
            None,
        ) == Ok::<PhoneNumberModel, ParseError>(canonical_form(number)),
{
    lemma_national_significant_number_reads_back(number);
    let digits = crate::validation::national_significant_number(number);
    let zeros = crate::validation::leading_zero_count(number);
    let n = number.spec_national_number() as nat;
    if zeros == 0 {
        assert(digits =~= decimal_digits(n));
        if n > 0 {
            lemma_decimal_digits_start(n);
        }
    } else {
        assert(digits[0] == '0');
    }
}

/// The text of the parameter `phone-context` that starts at the given
/// position: what stands between the `=` and the next semicolon.
pub open spec fn phone_context_at(s: Seq<char>, index: int) -> Seq<char> {
    let start = index + RFC3966_PHONE_CONTEXT@.len();
    if start >= s.len() {
        Seq::empty()
    } else {
        let rest = s.skip(start);
        match first_index(rest, |c: char| c == ';') {
            Some(end) => rest.take(end),
            None => rest,
        }
    }
}

/// Whether a `phone-context` is well formed: a global number or a domain
/// name.
pub open spec fn is_phone_context_valid(context: Seq<char>) -> bool {
    context.len() > 0 && (matches_fully(rfc3966_global_number_digits_text(), context)
        || matches_fully(rfc3966_domainname_text(), context))
}

/// A text cut off before an ISDN subaddress.
pub open spec fn without_isdn_subaddress(s: Seq<char>) -> Seq<char> {
    match first_occurrence(s, RFC3966_ISDN_SUBADDRESS@) {
        Some(at) => s.take(at),
        None => s,
    }
}

/// The text that the stages of parsing work on. For a text with a
/// `phone-context`, the context (where it is a global number) and what
/// stands between `tel:` and the context; for any other, the candidate
/// number in it. An ISDN subaddress is cut off.
pub open spec fn national_number_for_parsing(s: Seq<char>) -> Result<Seq<char>, ParseError> {
    match first_occurrence(s, RFC3966_PHONE_CONTEXT@) {
        Some(index) => {
            let context = phone_context_at(s, index);
            if !is_phone_context_valid(context) {
                Err(ParseError::NotANumber(NotANumberError::InvalidPhoneContext))
            } else {
                let prefix = if context[0] == '+' {
                    context
                } else {
                    Seq::empty()
                };
                let start = match first_occurrence(s, RFC3966_PREFIX@) {
                    Some(at) => at + RFC3966_PREFIX@.len(),
                    None => 0,
                };
                let body = if start <= index {
                    s.subrange(start, index)
                } else {
                    Seq::empty()
                };
                Ok(without_isdn_subaddress(prefix + body))
            }
        },
        None => match possible_number(s) {
            Ok(number) => Ok(without_isdn_subaddress(number)),
            Err(e) => Err(ParseError::NotANumber(NotANumberError::FailedToExtractNumber(e))),
        },
    }
}

impl PhoneNumberUtilInternal {
    /// Takes the international prefix off a number and normalizes the number.
    pub fn maybe_strip_international_prefix_and_normalize(
        &self,
        phone_number: &str,
        possible_idd_prefix: Option<&str>,
    ) -> (r: PhoneNumberWithCountryCodeSource)
        requires
            possible_idd_prefix matches Some(idd) ==> pattern_compiles(idd@),
        ensures
            (r.phone_number@, r.country_code_source) == without_international_prefix(
                phone_number@,
                match possible_idd_prefix {
                    Some(idd) => Some(idd@),
                    None => None,
                },
            ),
    {
        let chars = chars_of(phone_number);
        if chars.len() == 0 {
            return PhoneNumberWithCountryCodeSource::new(
                phone_number.to_owned(),
                CountryCodeSource::FROM_DEFAULT_COUNTRY,
            );
        }
        if char_is_plus(chars[0]) {
            let mut i: usize = 0;
            assert(chars@.skip(0) == chars@);
            while i < chars.len() && char_is_plus(chars[i])
                invariant
                    i <= chars@.len(),
                    without_leading_plus(chars@) == without_leading_plus(chars@.skip(i as int)),
                decreases chars@.len() - i,
            {
                assert(chars@.skip(i as int).skip(1) == chars@.skip(i + 1));
                i += 1;
            }
            assert(chars@.skip(i as int) == chars@.subrange(i as int, chars@.len() as int));
            let rest = substring(&chars, i, chars.len());
            return PhoneNumberWithCountryCodeSource::new(
                self.normalize(rest.as_str()),
                CountryCodeSource::FROM_NUMBER_WITH_PLUS_SIGN,
            );
        }
        let digits = self.normalize(phone_number);
        match possible_idd_prefix {
            Some(idd) => {
                match self.reg_exps.regexp_cache.find_start(idd, digits.as_str()) {
                    Some(m) => {
                        let rest = chars_of(m.after.as_str());
                        if rest.len() > 0 && rest[0] == '0' {
                            PhoneNumberWithCountryCodeSource::new(
                                digits,
                                CountryCodeSource::FROM_DEFAULT_COUNTRY,
                            )
                        } else {
                            PhoneNumberWithCountryCodeSource::new(
                                m.after,
                                CountryCodeSource::FROM_NUMBER_WITH_IDD,
                            )
                        }
                    },
                    None => PhoneNumberWithCountryCodeSource::new(
                        digits,
                        CountryCodeSource::FROM_DEFAULT_COUNTRY,
                    ),
                }
            },
            None => PhoneNumberWithCountryCodeSource::new(
                digits,
                CountryCodeSource::FROM_DEFAULT_COUNTRY,
            ),
        }
    }

    /// The calling code that the first `length` digits of a number spell, if
    /// they spell one that some region has; otherwise the same for one digit
    /// more, up to three.
    pub open spec fn code_of_length(&self, number: Seq<char>, length: int) -> Option<
        (i32, Seq<char>),
    >
        decreases MAX_LENGTH_COUNTRY_CODE + 1 - length,
    {
        if length < 1 || length > MAX_LENGTH_COUNTRY_CODE || length > number.len() {
            None
        } else {
            let prefix = number.take(length);
            if all_ascii_digits(prefix) && digits_value(prefix) <= 999
                && self.spec_has_valid_country_calling_code(digits_value(prefix) as i32) {
                Some((digits_value(prefix) as i32, number.skip(length)))
            } else {
                self.code_of_length(number, length + 1)
            }
        }
    }

    /// The calling code at the start of a number, and the number that
    /// follows it. A number that is empty or starts with a zero has none.
    /// The shortest calling code wins.
    pub open spec fn spec_extract_country_code(&self, number: Seq<char>) -> Option<
        (i32, Seq<char>),
    > {
        if number.len() == 0 || number[0] == '0' {
            None
        } else {
            self.code_of_length(number, 1)
        }
    }

    /// The calling code at the start of a number, and the number that
    /// follows it.
    pub fn extract_country_code(&self, national_number: &str) -> (r: Option<(i32, String)>)
        requires
            self.wf(),
        ensures
            match r {
                Some(found) => self.spec_extract_country_code(national_number@) == Some(
                    (found.0, found.1@),
                ),
                None => self.spec_extract_country_code(national_number@) is None,
            },
    {
        let chars = chars_of(national_number);
        if chars.len() == 0 || chars[0] == '0' {
            return None;
        }
        let mut length: usize = 1;
        while length <= MAX_LENGTH_COUNTRY_CODE && length <= chars.len()
            invariant
                1 <= length <= MAX_LENGTH_COUNTRY_CODE + 1,
                self.wf(),
                chars@ == national_number@,
                chars@.len() > 0,
                chars@[0] != '0',
                self.code_of_length(chars@, 1) == self.code_of_length(chars@, length as int),
            decreases MAX_LENGTH_COUNTRY_CODE + 1 - length,
        {
            let prefix = subvec(&chars, 0, length);
            assert(prefix@ == chars@.take(length as int));
            match parse_u64(&prefix) {
                Ok(value) => {
                    if value <= 999 && self.has_valid_country_calling_code(value as i32) {
                        assert(chars@.skip(length as int) == chars@.subrange(
                            length as int,
                            chars@.len() as int,
                        ));
                        let rest = substring(&chars, length, chars.len());
                        return Some((value as i32, rest));
                    }
                },
                Err(_) => {},
            }
            length += 1;
        }
        None
    }

    /// Takes the national prefix, and a carrier code that stands with it,
    /// off a national number.
    pub fn maybe_strip_national_prefix_and_carrier_code(
        &self,
        metadata: &PhoneMetadata,
        phone_number: &str,
    ) -> (r: (String, Option<String>))
        requires
            optional_pattern_compiles(metadata.national_prefix_for_parsing),
        ensures
            r.0@ == without_national_prefix(*metadata, phone_number@).0,
            group_view(r.1) == without_national_prefix(*metadata, phone_number@).1,
            matches_national_number(phone_number@, metadata.general_desc, false)
                ==> matches_national_number(r.0@, metadata.general_desc, false),
    {
        let possible_national_prefix = metadata.national_prefix_for_parsing();
        if phone_number.unicode_len() == 0 || possible_national_prefix.unicode_len() == 0 {
            return (phone_number.to_owned(), None);
        }
        match self.reg_exps.regexp_cache.captures_start(possible_national_prefix, phone_number) {
            None => (phone_number.to_owned(), None),
            Some(c) => {
                let general_desc = &metadata.general_desc;
                let is_viable_original_number = self.matcher_api.match_national_number(
                    phone_number,
                    general_desc,
                    false,
                );
                let group_count: usize = c.groups.len() - 1;
                let transform_rule = metadata.national_prefix_transform_rule();
                assert(c.groups_view()[group_count as int] == group_view(
                    c.groups@[group_count as int],
                ));
                let transformed = transform_rule.unicode_len() > 0
                    && c.groups[group_count].is_some();
                let candidate = if transformed {
                    self.reg_exps.regexp_cache.replace(
                        possible_national_prefix,
                        phone_number,
                        transform_rule,
                    )
                } else {
                    c.after.clone()
                };
                // A number that was viable stays as it is where the result
                // would not be.
                if is_viable_original_number && !self.matcher_api.match_national_number(
                    candidate.as_str(),
                    general_desc,
                    false,
                ) {
                    return (phone_number.to_owned(), None);
                }
                let has_carrier_code = if transformed {
                    group_count > 1
                } else {
                    group_count > 0 && c.groups[group_count].is_some()
                };
                if has_carrier_code {
                    assert(c.groups_view()[1] == group_view(c.groups@[1]));
                    (candidate, c.groups[1].clone())
                } else {
                    (candidate, None)
                }
            },
        }
    }

    /// The calling code of a number, the national number that is left, and
    /// where the code came from.
    ///
    /// A number with a plus sign or an international prefix must spell a
    /// calling code after it. Any other number may start with the calling
    /// code of the default region: the code is taken off if the number
    /// does not fit the region as it stands but fits without the code, or
    /// if it is too long as it stands. Otherwise the number states no
    /// calling code, which is told by the code zero.
    pub open spec fn spec_maybe_extract_country_code(
        &self,
        number: Seq<char>,
        default_region_metadata: Option<PhoneMetadata>,
    ) -> Result<(i32, Seq<char>, CountryCodeSource), ParseError> {
        let stripped = without_international_prefix(
            number,
            match default_region_metadata {
                Some(m) => match m.international_prefix {
                    Some(idd) => Some(idd@),
                    None => None,
                },
                None => None,
            },
        );
        let national_number = stripped.0;
        let source = stripped.1;
        if source != CountryCodeSource::FROM_DEFAULT_COUNTRY {
            if national_number.len() <= MIN_LENGTH_FOR_NSN {
                Err(ParseError::TooShortAfterIdd)
            } else {
                match self.spec_extract_country_code(national_number) {
                    Some(found) => Ok((found.0, found.1, source)),
                    None => Err(ParseError::InvalidCountryCode),
                }
            }
        } else {
            match default_region_metadata {
                Some(m) => {
                    let code_digits = decimal_repr(m.spec_country_code() as int);
                    if code_digits.is_prefix_of(national_number) {
                        let potential = without_national_prefix(
                            m,
                            national_number.skip(code_digits.len() as int),
                        ).0;
                        if (!matches_national_number(national_number, m.general_desc, false)
                            && matches_national_number(potential, m.general_desc, false))
                            || number_length_class(
                            national_number.len() as int,
                            m,
                            PhoneNumberType::Unknown,
                        ) == Err::<NumberLengthType, ValidationError>(ValidationError::TooLong) {
                            Ok(
                                (
                                    m.spec_country_code(),
                                    potential,
                                    CountryCodeSource::FROM_NUMBER_WITHOUT_PLUS_SIGN,
                                ),
                            )
                        } else {
                            Ok((0, national_number, source))
                        }
                    } else {
                        Ok((0, national_number, source))
                    }
                },
                None => Ok((0, national_number, source)),
            }
        }
    }

    /// Looks for the calling code of a number.
    pub fn maybe_extract_country_code(
        &self,
        national_number: &str,
        default_region_metadata: Option<&PhoneMetadata>,
    ) -> (r: Result<CountryCodeExtraction, ParseError>)
        requires
            self.wf(),
            default_region_metadata matches Some(m) ==> m.patterns_compile(),
        ensures
            match r {
                Ok(found) => self.spec_maybe_extract_country_code(
                    national_number@,
                    match default_region_metadata {
                        Some(m) => Some(*m),
                        None => None,
                    },
                ) == Ok::<(i32, Seq<char>, CountryCodeSource), ParseError>(
                    (found.country_code, found.national_number@, found.country_code_source),
                ),
                Err(e) => self.spec_maybe_extract_country_code(
                    national_number@,
                    match default_region_metadata {
                        Some(m) => Some(*m),
                        None => None,
                    },
                ) == Err::<(i32, Seq<char>, CountryCodeSource), ParseError>(e),
            },
    {
        let stripped = match default_region_metadata {
            Some(m) => match &m.international_prefix {
                Some(idd) => self.maybe_strip_international_prefix_and_normalize(
                    national_number,
                    Some(idd.as_str()),
                ),
                None => self.maybe_strip_international_prefix_and_normalize(national_number, None),
            },
            None => self.maybe_strip_international_prefix_and_normalize(national_number, None),
        };
        let number = stripped.phone_number;
        let source = stripped.country_code_source;
        match source {
            CountryCodeSource::FROM_DEFAULT_COUNTRY => {},
            _ => {
                if number.as_str().unicode_len() <= MIN_LENGTH_FOR_NSN {
                    return Err(ParseError::TooShortAfterIdd);
                }
                return match self.extract_country_code(number.as_str()) {
                    Some(found) => Ok(
                        CountryCodeExtraction {
                            country_code: found.0,
                            national_number: found.1,
                            country_code_source: source,
                        },
                    ),
                    None => Err(ParseError::InvalidCountryCode),
                };
            },
        }
        match default_region_metadata {
            Some(m) => {
                // The number may start with the calling code of the default
                // region, written without a plus sign.
                let default_country_code = m.country_code();
                let code_digits = decimal_string(default_country_code as i128);
                let number_chars = chars_of(number.as_str());
                let code_chars = chars_of(code_digits.as_str());
                if starts_with(&number_chars, &code_chars) {
                    assert(number_chars@.skip(code_chars@.len() as int) == number_chars@.subrange(
                        code_chars@.len() as int,
                        number_chars@.len() as int,
                    ));
                    let rest = substring(&number_chars, code_chars.len(), number_chars.len());
                    let potential = self.maybe_strip_national_prefix_and_carrier_code(
                        m,
                        rest.as_str(),
                    ).0;
                    let fits_before = self.matcher_api.match_national_number(
                        number.as_str(),
                        &m.general_desc,
                        false,
                    );
                    let fits_after = self.matcher_api.match_national_number(
                        potential.as_str(),
                        &m.general_desc,
                        false,
                    );
                    let too_long = match test_number_length_with_unknown_type(number.as_str(), m) {
                        Err(ValidationError::TooLong) => true,
                        _ => false,
                    };
                    if (!fits_before && fits_after) || too_long {
                        return Ok(
                            CountryCodeExtraction {
                                country_code: default_country_code,
                                national_number: potential,
                                country_code_source:
                                    CountryCodeSource::FROM_NUMBER_WITHOUT_PLUS_SIGN,
                            },
                        );
                    }
                }
                Ok(
                    CountryCodeExtraction {
                        country_code: 0,
                        national_number: number,
                        country_code_source: source,
                    },
                )
            },
            None => Ok(
                CountryCodeExtraction {
                    country_code: 0,
                    national_number: number,
                    country_code_source: source,
                },
            ),
        }
    }

    /// Whether a `phone-context` is well formed.
    pub fn is_phone_context_valid(&self, phone_context: &str) -> (r: bool)
        requires
            self.reg_exps.wf(),
        ensures
            r == is_phone_context_valid(phone_context@),
    {
        if phone_context.unicode_len() == 0 {
            return false;
        }
        self.reg_exps.rfc3966_global_number_digits_pattern.full_match(phone_context)
            || self.reg_exps.rfc3966_domainname_pattern.full_match(phone_context)
    }

    /// Builds the text that the stages of parsing work on.
    pub fn build_national_number_for_parsing(&self, number_to_parse: &str) -> (r: Result<
        String,
        ParseError,
    >)
        requires
            self.reg_exps.wf(),
        ensures
            match r {
                Ok(number) => national_number_for_parsing(number_to_parse@) == Ok::<
                    Seq<char>,
                    ParseError,
                >(number@),
                Err(e) => national_number_for_parsing(number_to_parse@) == Err::<
                    Seq<char>,
                    ParseError,
                >(e),
            },
    {
        let chars = chars_of(number_to_parse);
        let marker = chars_of(RFC3966_PHONE_CONTEXT);
        let total: usize = chars.len();
        let national_number: Vec<char> = match find(&chars, &marker) {
            Some(index) => {
                assert(index + marker@.len() <= total);
                let start: usize = index + marker.len();
                let context: Vec<char> = if start >= chars.len() {
                    Vec::new()
                } else {
                    let ghost rest = chars@.skip(start as int);
                    let ghost p = |c: char| c == ';';
                    let mut end: usize = start;
                    while end < chars.len() && chars[end] != ';'
                        invariant
                            start <= end <= chars@.len(),
                            rest == chars@.skip(start as int),
                            p == (|c: char| c == ';'),
                            forall|j: int| 0 <= j < end - start ==> !p(rest[j]),
                        decreases chars@.len() - end,
                    {
                        end += 1;
                    }
                    proof {
                        if end < chars@.len() {
                            lemma_first_index_found(rest, p, end - start);
                        } else {
                            lemma_first_index_none(rest, p);
                        }
                        assert(rest.take(end - start) == chars@.subrange(
                            start as int,
                            end as int,
                        ));
                    }
                    subvec(&chars, start, end)
                };
                assert(context@ == phone_context_at(chars@, index as int));
                let context_string = string_of(&context);
                if !self.is_phone_context_valid(context_string.as_str()) {
                    return Err(ParseError::NotANumber(NotANumberError::InvalidPhoneContext));
                }
                let mut number: Vec<char> = if context[0] == '+' {
                    context
                } else {
                    Vec::new()
                };
                let ghost prefix = number@;
                let scheme = chars_of(RFC3966_PREFIX);
                let body_start: usize = match find(&chars, &scheme) {
                    Some(at) => at + scheme.len(),
                    None => 0,
                };
                if body_start <= index {
                    let mut k: usize = body_start;
                    while k < index
                        invariant
                            body_start <= k <= index <= chars@.len(),
                            number@ == prefix + chars@.subrange(body_start as int, k as int),
                        decreases index - k,
                    {
                        number.push(chars[k]);
                        assert(chars@.subrange(body_start as int, k + 1) == chars@.subrange(
                            body_start as int,
                            k as int,
                        ).push(chars@[k as int]));
                        k += 1;
                    }
                } else {
                    assert(number@ == prefix + Seq::<char>::empty());
                }
                number
            },
            None => match self.extract_possible_number(number_to_parse) {
                Ok(number) => chars_of(number.as_str()),
                Err(e) => {
                    return Err(
                        ParseError::NotANumber(NotANumberError::FailedToExtractNumber(e)),
                    );
                },
            },
        };
        let subaddress = chars_of(RFC3966_ISDN_SUBADDRESS);
        match find(&national_number, &subaddress) {
            Some(at) => {
                assert(national_number@.take(at as int) == national_number@.subrange(
                    0,
                    at as int,
                ));
                Ok(substring(&national_number, 0, at))
            },
            None => Ok(string_of(&national_number)),
        }
    }

    /// The phone number that a text stands for.
    ///
    /// The stages, each of which may end the parse with an error: the text
    /// to work on is built; it must be a viable number; the default region
    /// must be known unless the number starts with a plus sign; the
    /// extension is cut off; the calling code is looked for, once more
    /// without the plus sign if the first try found an unknown code; the
    /// national prefix is taken off, unless that leaves a number too short
    /// for the region; the length of what is left must lie within the
    /// bounds of any national number; the leading zeros are counted and the
    /// digits read as an integer.
    pub open spec fn spec_parse_helper(
        &self,
        number_to_parse: Seq<char>,
        default_region: Seq<char>,
        keep_raw_input: bool,
        check_region: bool,
    ) -> Result<PhoneNumberModel, ParseError> {
        match national_number_for_parsing(number_to_parse) {
            Err(e) => Err(e),
            Ok(national_number) => {
                if !is_viable(national_number) {
                    Err(ParseError::NotANumber(NotANumberError::NotMatchedValidNumberPattern))
                } else if check_region && !self.spec_is_valid_region_code(default_region)
                    && !is_plus_char(national_number[0]) {
                    Err(ParseError::InvalidCountryCode)
                } else {
                    let split = without_extension(national_number);
                    let extension = match split.1 {
                        Some(e) => if e.len() > 0 {
                            Some(e)
                        } else {
                            None
                        },
                        None => None,
                    };
                    let default_metadata = self.spec_metadata_for_region(default_region);
                    match self.spec_country_code_resolution(split.0, default_metadata) {
                        Err(e) => Err(e),
                        Ok(found) => self.spec_finish_parse(
                            found,
                            default_region,
                            default_metadata,
                            extension,
                            if keep_raw_input {
                                Some(number_to_parse)
                            } else {
                                None
                            },
                        ),
                    }
                }
            },
        }
    }

    /// The calling code of a number. Where the search finds an unknown
    /// calling code in a number that starts with a plus sign, the search is
    /// made once more on the number without its plus sign; that second
    /// search must find a calling code.
    pub open spec fn spec_country_code_resolution(
        &self,
        number: Seq<char>,
        default_metadata: Option<PhoneMetadata>,
    ) -> Result<(i32, Seq<char>, CountryCodeSource), ParseError> {
        match self.spec_maybe_extract_country_code(number, default_metadata) {
            Ok(found) => Ok(found),
            Err(e) => if e == ParseError::InvalidCountryCode && number.len() > 0 && is_plus_char(
                number[0],
            ) {
                match self.spec_maybe_extract_country_code(
                    without_leading_plus(number),
                    default_metadata,
                ) {
                    Ok(found) => if found.0 == 0 {
                        Err(ParseError::InvalidCountryCode)
                    } else {
                        Ok(found)
                    },
                    Err(e2) => Err(e2),
                }
            } else {
                Err(e)
            },
        }
    }

    /// The last stages of parsing, from the calling code on.
    pub open spec fn spec_finish_parse(
        &self,
        found: (i32, Seq<char>, CountryCodeSource),
        default_region: Seq<char>,
        default_metadata: Option<PhoneMetadata>,
        extension: Option<Seq<char>>,
        raw_input: Option<Seq<char>>,
    ) -> Result<PhoneNumberModel, ParseError> {
        let metadata = if found.0 != 0 {
            let region = self.spec_region_code_for_country_code(found.0);
            if region != default_region {
                self.spec_metadata_for_region_or_calling_code(found.0, region)
            } else {
                default_metadata
            }
        } else {
            default_metadata
        };
        let country_code = if found.0 != 0 {
            found.0
        } else {
            match default_metadata {
                Some(m) => m.spec_country_code(),
                None => 0,
            }
        };
        if found.1.len() < MIN_LENGTH_FOR_NSN {
            Err(ParseError::TooShortNsn)
        } else {
            let stripped = match metadata {
                Some(m) => {
                    let candidate = without_national_prefix(m, found.1);
                    let class = number_length_class(
                        candidate.0.len() as int,
                        m,
                        PhoneNumberType::Unknown,
                    );
                    if class == Err::<NumberLengthType, ValidationError>(ValidationError::TooShort)
                        || class == Err::<NumberLengthType, ValidationError>(
                        ValidationError::InvalidLength,
                    ) || class == Ok::<NumberLengthType, ValidationError>(
                        NumberLengthType::IsPossibleLocalOnly,
                    ) {
                        (found.1, None)
                    } else {
                        candidate
                    }
                },
                None => (found.1, None),
            };
            number_from_digits(
                country_code,
                stripped.0,
                extension,
                raw_input,
                found.2,
                stripped.1,
            )
        }
    }

    /// Looks for the calling code of a number, once more without the plus
    /// sign where the first search ends on an unknown calling code.
    pub fn resolve_country_code(&self, number: &str, default_metadata: Option<&PhoneMetadata>)
        -> (r: Result<CountryCodeExtraction, ParseError>)
        requires
            self.wf(),
            default_metadata matches Some(m) ==> m.patterns_compile(),
        ensures
            match r {
                Ok(found) => self.spec_country_code_resolution(
                    number@,
                    match default_metadata {
                        Some(m) => Some(*m),
                        None => None,
                    },
                ) == Ok::<(i32, Seq<char>, CountryCodeSource), ParseError>(
                    (found.country_code, found.national_number@, found.country_code_source),
                ),
                Err(e) => self.spec_country_code_resolution(
                    number@,
                    match default_metadata {
                        Some(m) => Some(*m),
                        None => None,
                    },
                ) == Err::<(i32, Seq<char>, CountryCodeSource), ParseError>(e),
            },
    {
        match self.maybe_extract_country_code(number, default_metadata) {
            Ok(found) => Ok(found),
            Err(e) => {
                let number_chars = chars_of(number);
                let retry = match e {
                    ParseError::InvalidCountryCode => number_chars.len() > 0 && char_is_plus(
                        number_chars[0],
                    ),
                    _ => false,
                };
                if !retry {
                    return Err(e);
                }
                let mut i: usize = 0;
                assert(number_chars@.skip(0) == number_chars@);
                while i < number_chars.len() && char_is_plus(number_chars[i])
                    invariant
                        i <= number_chars@.len(),
                        without_leading_plus(number_chars@) == without_leading_plus(
                            number_chars@.skip(i as int),
                        ),
                    decreases number_chars@.len() - i,
                {
                    assert(number_chars@.skip(i as int).skip(1) == number_chars@.skip(i + 1));
                    i += 1;
                }
                assert(number_chars@.skip(i as int) == number_chars@.subrange(
                    i as int,
                    number_chars@.len() as int,
                ));
                let rest = substring(&number_chars, i, number_chars.len());
                let second = self.maybe_extract_country_code(rest.as_str(), default_metadata)?;
                if second.country_code == 0 {
                    return Err(ParseError::InvalidCountryCode);
                }
                Ok(second)
            },
        }
    }

    /// The last stages of parsing, from the calling code on.
    pub fn finish_parse(
        &self,
        found: CountryCodeExtraction,
        default_region: &str,
        default_metadata: Option<&PhoneMetadata>,
        extension: Option<String>,
        raw_input: Option<String>,
    ) -> (r: Result<PhoneNumber, ParseError>)
        requires
            self.wf(),
            default_metadata matches Some(m) ==> m.patterns_compile(),
        ensures
            match r {
                Ok(number) => self.spec_finish_parse(
                    (found.country_code, found.national_number@, found.country_code_source),
                    default_region@,
                    match default_metadata {
                        Some(m) => Some(*m),
                        None => None,
                    },
                    group_view(extension),
                    group_view(raw_input),
                ) == Ok::<PhoneNumberModel, ParseError>(number@),
                Err(e) => self.spec_finish_parse(
                    (found.country_code, found.national_number@, found.country_code_source),
                    default_region@,
                    match default_metadata {
                        Some(m) => Some(*m),
                        None => None,
                    },
                    group_view(extension),
                    group_view(raw_input),
                ) == Err::<PhoneNumberModel, ParseError>(e),
            },
    {
        let metadata = if found.country_code != 0 {
            let region = self.get_region_code_for_country_code(found.country_code);
            if !crate::text::str_equal(region, default_region) {
                self.get_metadata_for_region_or_calling_code(found.country_code, region)
            } else {
                default_metadata
            }
        } else {
            default_metadata
        };
        let country_code = if found.country_code != 0 {
            found.country_code
        } else {
            match default_metadata {
                Some(m) => m.country_code(),
                None => 0,
            }
        };
        if found.national_number.as_str().unicode_len() < MIN_LENGTH_FOR_NSN {
            return Err(ParseError::TooShortNsn);
        }
        let keep_raw_input = raw_input.is_some();
        let source = found.country_code_source;
        let stripped = match metadata {
            Some(m) => {
                let candidate = self.maybe_strip_national_prefix_and_carrier_code(
                    m,
                    found.national_number.as_str(),
                );
                // The prefix stays where the number without it would be too
                // short to be a number of the region.
                match test_number_length_with_unknown_type(candidate.0.as_str(), m) {
                    Err(ValidationError::TooShort)
                    | Err(ValidationError::InvalidLength)
                    | Ok(NumberLengthType::IsPossibleLocalOnly) => (found.national_number, None),
                    _ => candidate,
                }
            },
            None => (found.national_number, None),
        };
        let digits = chars_of(stripped.0.as_str());
        if digits.len() < MIN_LENGTH_FOR_NSN {
            return Err(ParseError::TooShortNsn);
        }
        if digits.len() > MAX_LENGTH_FOR_NSN {
            return Err(ParseError::TooLongNsn);
        }
        let value = match parse_u64(&digits) {
            Ok(value) => value,
            Err(e) => {
                return Err(
                    ParseError::NotANumber(NotANumberError::FailedToParseNumberAsInt(e)),
                );
            },
        };
        let mut zeros: usize = 0;
        while zeros + 1 < digits.len() && digits[zeros] == '0'
            invariant
                zeros < digits@.len(),
                digits@.len() <= MAX_LENGTH_FOR_NSN,
                leading_zero_run(digits@, 0) == leading_zero_run(digits@, zeros as int),
            decreases digits@.len() - zeros,
        {
            zeros += 1;
        }
        let flagged = digits.len() > 1 && digits[0] == '0';
        let carrier_code = match stripped.1 {
            Some(code) => if keep_raw_input && code.as_str().unicode_len() > 0 {
                Some(code)
            } else {
                None
            },
            None => None,
        };
        Ok(
            PhoneNumber {
                country_code: Some(country_code),
                national_number: Some(value),
                extension,
                italian_leading_zero: if flagged {
                    Some(true)
                } else {
                    None
                },
                number_of_leading_zeros: if flagged && zeros != 1 {
                    Some(zeros as i32)
                } else {
                    None
                },
                raw_input,
                country_code_source: if keep_raw_input {
                    Some(source)
                } else {
                    None
                },
                preferred_domestic_carrier_code: carrier_code,
            },
        )
    }

    /// Parses a text into a phone number.
    pub fn parse_helper(
        &self,
        number_to_parse: &str,
        default_region: &str,
        keep_raw_input: bool,
        check_region: bool,
    ) -> (r: Result<PhoneNumber, ParseError>)
        requires
            self.wf(),
        ensures
            match r {
                Ok(number) => self.spec_parse_helper(
                    number_to_parse@,
                    default_region@,
                    keep_raw_input,
                    check_region,
                ) == Ok::<PhoneNumberModel, ParseError>(number@),
                Err(e) => self.spec_parse_helper(
                    number_to_parse@,
                    default_region@,
                    keep_raw_input,
                    check_region,
                ) == Err::<PhoneNumberModel, ParseError>(e),
            },
    {
        let national_number = self.build_national_number_for_parsing(number_to_parse)?;
        if !self.is_viable_phone_number(national_number.as_str()) {
            return Err(ParseError::NotANumber(NotANumberError::NotMatchedValidNumberPattern));
        }
        let national_chars = chars_of(national_number.as_str());
        let starts_with_plus = char_is_plus(national_chars[0]);
        if check_region && !self.is_valid_region_code(default_region) && !starts_with_plus {
            return Err(ParseError::InvalidCountryCode);
        }
        let split = self.maybe_strip_extension(national_number.as_str());
        let extension = match split.1 {
            Some(e) => if e.as_str().unicode_len() > 0 {
                Some(e)
            } else {
                None
            },
            None => None,
        };
        let default_metadata = self.get_metadata_for_region(default_region);
        let found = self.resolve_country_code(split.0.as_str(), default_metadata)?;
        let raw_input = if keep_raw_input {
            Some(number_to_parse.to_owned())
        } else {
            None
        };
        self.finish_parse(found, default_region, default_metadata, extension, raw_input)
    }

    /// The phone number that a text stands for, read as a number dialled in
    /// the default region unless it states a calling code.
    pub open spec fn spec_parse(&self, number_to_parse: Seq<char>, default_region: Seq<char>)
        -> Result<PhoneNumberModel, ParseError> {
        self.spec_parse_helper(number_to_parse, default_region, false, true)
    }

    /// Parses a text into a phone number.
    pub fn parse(&self, number_to_parse: &str, default_region: &str) -> (r: Result<
        PhoneNumber,
        ParseError,
    >)
        requires
            self.wf(),
        ensures
            match r {
                Ok(number) => self.spec_parse(number_to_parse@, default_region@) == Ok::<
                    PhoneNumberModel,
                    ParseError,
                >(number@),
                Err(e) => self.spec_parse(number_to_parse@, default_region@) == Err::<
                    PhoneNumberModel,
                    ParseError,
                >(e),
            },
    {
        self.parse_helper(number_to_parse, default_region, false, true)
    }

    /// Parses a text into a phone number that remembers the text, where its
    /// calling code came from, and the carrier code that was dialled.
    pub fn parse_and_keep_raw_input(&self, number_to_parse: &str, default_region: &str) -> (r:
        Result<PhoneNumber, ParseError>)
        requires
            self.wf(),
        ensures
            match r {
                Ok(number) => self.spec_parse_helper(
                    number_to_parse@,
                    default_region@,
                    true,
                    true,
                ) == Ok::<PhoneNumberModel, ParseError>(number@),
                Err(e) => self.spec_parse_helper(number_to_parse@, default_region@, true, true)
                    == Err::<PhoneNumberModel, ParseError>(e),
            },
    {
        self.parse_helper(number_to_parse, default_region, true, true)
    }

    /// Whether a text parses into a phone number of possible length.
    pub open spec fn spec_is_possible_number_for_string(
        &self,
        number: Seq<char>,
        region_dialing_from: Seq<char>,
    ) -> bool {
        match self.spec_parse(number, region_dialing_from) {
            Ok(parsed) => self.spec_is_possible_number_for_type_with_reason(
                parsed,
                PhoneNumberType::Unknown,
            ).is_ok(),
            Err(_) => false,
        }
    }

    /// Whether a text parses into a phone number of possible length.
    pub fn is_possible_number_for_string(&self, phone_number: &str, region_dialing_from: &str)
        -> (r: bool)
        requires
            self.wf(),
        ensures
            r == self.spec_is_possible_number_for_string(phone_number@, region_dialing_from@),
    {
        match self.parse(phone_number, region_dialing_from) {
            Ok(parsed) => self.is_possible_number(&parsed),
            Err(_) => false,
        }
    }
}

/// Every phone number that parsing gives has a calling code, and a national
/// significant number of at least two and at most seventeen ASCII digits.
pub proof fn lemma_parsed_number_is_bounded(
    util: PhoneNumberUtilInternal,
    number_to_parse: Seq<char>,
    default_region: Seq<char>,
    keep_raw_input: bool,
    check_region: bool,
)
    ensures
        util.spec_parse_helper(number_to_parse, default_region, keep_raw_input, check_region)
            matches Ok(number) ==> {
            let digits = crate::validation::national_significant_number(number);
            &&& number.country_code is Some
            &&& number.national_number is Some
            &&& MIN_LENGTH_FOR_NSN <= digits.len() <= MAX_LENGTH_FOR_NSN
            &&& all_ascii_digits(digits)
        },
{
    if let Ok(number) = util.spec_parse_helper(
        number_to_parse,
        default_region,
        keep_raw_input,
        check_region,
    ) {
        let national_number = national_number_for_parsing(number_to_parse)->Ok_0;
        let split = without_extension(national_number);
        let extension = match split.1 {
            Some(e) => if e.len() > 0 {
                Some(e)
            } else {
                None
            },
            None => None,
        };
        let default_metadata = util.spec_metadata_for_region(default_region);
        let found = util.spec_country_code_resolution(split.0, default_metadata)->Ok_0;
        let raw_input = if keep_raw_input {
            Some(number_to_parse)
        } else {
            None
        };
        lemma_finished_number_is_bounded(
            util,
            found,
            default_region,
            default_metadata,
            extension,
            raw_input,
        );
    }
}

/// The last stages of parsing give a number with a calling code and a
/// national significant number of at least two and at most seventeen ASCII
/// digits.
pub proof fn lemma_finished_number_is_bounded(
    util: PhoneNumberUtilInternal,
    found: (i32, Seq<char>, CountryCodeSource),
    default_region: Seq<char>,
    default_metadata: Option<PhoneMetadata>,
    extension: Option<Seq<char>>,
    raw_input: Option<Seq<char>>,
)
    ensures
        util.spec_finish_parse(found, default_region, default_metadata, extension, raw_input)
            matches Ok(number) ==> {
            let digits = crate::validation::national_significant_number(number);
            &&& number.country_code is Some
            &&& number.national_number is Some
            &&& MIN_LENGTH_FOR_NSN <= digits.len() <= MAX_LENGTH_FOR_NSN
            &&& all_ascii_digits(digits)
        },
{
    if let Ok(number) = util.spec_finish_parse(
        found,
        default_region,
        default_metadata,
        extension,
        raw_input,
    ) {
        let metadata = if found.0 != 0 {
            let region = util.spec_region_code_for_country_code(found.0);
            if region != default_region {
                util.spec_metadata_for_region_or_calling_code(found.0, region)
            } else {
                default_metadata
            }
        } else {
            default_metadata
        };
        let country_code = if found.0 != 0 {
            found.0
        } else {
            match default_metadata {
                Some(m) => m.spec_country_code(),
                None => 0,
            }
        };
        let stripped = match metadata {
            Some(m) => {
                let candidate = without_national_prefix(m, found.1);
                let class = number_length_class(
                    candidate.0.len() as int,
                    m,
                    PhoneNumberType::Unknown,
                );
                if class == Err::<NumberLengthType, ValidationError>(ValidationError::TooShort)
                    || class == Err::<NumberLengthType, ValidationError>(
                    ValidationError::InvalidLength,
                ) || class == Ok::<NumberLengthType, ValidationError>(
                    NumberLengthType::IsPossibleLocalOnly,
                ) {
                    (found.1, None)
                } else {
                    candidate
                }
            },
            None => (found.1, None),
        };
        lemma_number_from_digits_keeps_the_digits(
            country_code,
            stripped.0,
            extension,
            raw_input,
            found.2,
            stripped.1,
        );
    }
}

} // verus!
