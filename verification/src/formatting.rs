//! Formatting: from a phone number to a text, in the style asked for.

use crate::char_mappings::{char_is_valid_punctuation, is_valid_punctuation, CharMapping};
use crate::enums::{CountryCodeSource, PhoneNumberFormat};
use crate::helper_constants::{DEFAULT_EXTN_PREFIX, NANPA_COUNTRY_CODE, RFC3966_EXTN_PREFIX};
use crate::helper_functions::{
    normalize_helper, normalized_through, prefix_number_with_country_calling_code,
    with_country_calling_code,
};
use crate::normalization::digits_only;
use crate::phone_number_regexps_and_mappings::{
    CARRIER_CODE, FIRST_DIGITS_AND_REST, FIRST_GROUP_CAPTURING, SINGLE_INTERNATIONAL_PREFIX,
};
use crate::phonemetadata::{formats_compile, NumberFormat, PhoneMetadata};
use crate::phonenumber::{PhoneNumber, PhoneNumberModel};
use crate::phonenumberutil_internal::PhoneNumberUtilInternal;
use crate::regex_util::{
    matches_at_start, matches_fully, pattern_compiles, replaced_first, RegexFullMatch,
};
use crate::text::{
    chars_of, decimal_repr, decimal_string, find, first_occurrence, is_ascii_digit, is_at,
    starts_with, str_equal, string_of, substring, subvec,
};
use crate::validation::national_significant_number;
use vstd::prelude::*;
use vstd::string::*;

verus! {

/// A text with every occurrence of `needle` replaced, from left to right.
pub open spec fn with_all_replaced(s: Seq<char>, needle: Seq<char>, replacement: Seq<char>)
    -> Seq<char>
    decreases s.len(),
{
    if needle.len() == 0 || s.len() < needle.len() {
        s
    } else if s.take(needle.len() as int) == needle {
        replacement + with_all_replaced(s.skip(needle.len() as int), needle, replacement)
    } else {
        seq![s[0]] + with_all_replaced(s.skip(1), needle, replacement)
    }
}

/// Replaces every occurrence of `needle` in a text, from left to right.
pub fn replace_all(s: &str, needle: &str, replacement: &str) -> (r: String)
    ensures
        r@ == with_all_replaced(s@, needle@, replacement@),
{
    let chars = chars_of(s);
    let pattern = chars_of(needle);
    let with = chars_of(replacement);
    if pattern.len() == 0 {
        return s.to_owned();
    }
    let mut out: Vec<char> = Vec::new();
    let mut i: usize = 0;
    assert(chars@.skip(0) == chars@);
    while i < chars.len()
        invariant
            i <= chars@.len(),
            pattern@.len() > 0,
            with_all_replaced(chars@, pattern@, with@) == out@ + with_all_replaced(
                chars@.skip(i as int),
                pattern@,
                with@,
            ),
        decreases chars@.len() - i,
    {
        let ghost rest = chars@.skip(i as int);
        if is_at(&chars, &pattern, i) {
            assert(rest.take(pattern@.len() as int) == chars@.subrange(
                i as int,
                i + pattern@.len(),
            ));
            assert(rest.skip(pattern@.len() as int) == chars@.skip(i + pattern@.len()));
            let mut k: usize = 0;
            let ghost before = out@;
            while k < with.len()
                invariant
                    k <= with@.len(),
                    out@ == before + with@.take(k as int),
                decreases with@.len() - k,
            {
                out.push(with[k]);
                assert(with@.take(k + 1) == with@.take(k as int).push(with@[k as int]));
                k += 1;
            }
            assert(with@.take(k as int) == with@);
            assert(out@ + with_all_replaced(chars@.skip(i + pattern@.len()), pattern@, with@)
                == before + (with@ + with_all_replaced(
                chars@.skip(i + pattern@.len()),
                pattern@,
                with@,
            )));
            i += pattern.len();
        } else {
            proof {
                if rest.len() >= pattern@.len() {
                    assert(rest.take(pattern@.len() as int) == chars@.subrange(
                        i as int,
                        i + pattern@.len(),
                    ));
                }
                assert(rest.skip(1) == chars@.skip(i + 1));
                if rest.len() < pattern@.len() {
                    lemma_short_text_is_unchanged(rest, pattern@, with@);
                    lemma_short_text_is_unchanged(rest.skip(1), pattern@, with@);
                    assert(rest == seq![rest[0]] + rest.skip(1));
                }
            }
            let ghost before = out@;
            out.push(chars[i]);
            assert(out@ + with_all_replaced(chars@.skip(i + 1), pattern@, with@) == before + (
            seq![rest[0]] + with_all_replaced(rest.skip(1), pattern@, with@)));
            i += 1;
        }
    }
    assert(chars@.skip(i as int).len() == 0);
    assert(out@ + Seq::<char>::empty() == out@);
    string_of(&out)
}

pub proof fn lemma_short_text_is_unchanged(s: Seq<char>, needle: Seq<char>, replacement: Seq<char>)
    requires
        s.len() < needle.len(),
    ensures
        with_all_replaced(s, needle, replacement) == s,
{
}

/// A formatting rule with its placeholders filled in: `$NP` stands for the
/// national prefix, `$FG` for the first group.
pub open spec fn rule_filled_in(rule: Seq<char>, national_prefix: Seq<char>) -> Seq<char> {
    with_all_replaced(with_all_replaced(rule, "$NP"@, national_prefix), "$FG"@, "$1"@)
}

/// Fills in the placeholders of a formatting rule.
pub fn fill_in_rule(rule: &str, national_prefix: &str) -> (r: String)
    ensures
        r@ == rule_filled_in(rule@, national_prefix@),
{
    let with_prefix = replace_all(rule, "$NP", national_prefix);
    replace_all(with_prefix.as_str(), "$FG", "$1")
}

/// A formatted number as RFC3966 wants it: without the separators it starts
/// with, and with a single hyphen in place of every other run of separators.
pub open spec fn separators_collapsed(s: Seq<char>) -> Seq<char>
    decreases s.len(),
{
    if s.len() == 0 {
        Seq::empty()
    } else {
        let before = separators_collapsed(s.drop_last());
        let c = s.last();
        if is_valid_punctuation(c) {
            if before.len() == 0 || (s.len() >= 2 && is_valid_punctuation(s[s.len() - 2])) {
                before
            } else {
                before.push('-')
            }
        } else {
            before.push(c)
        }
    }
}

/// Drops the separators that a formatted number starts with, and puts a
/// single hyphen in place of every other run of separators.
pub fn collapse_separators(s: &str) -> (r: String)
    ensures
        r@ == separators_collapsed(s@),
{
    let chars = chars_of(s);
    let mut out: Vec<char> = Vec::new();
    let mut i: usize = 0;
    while i < chars.len()
        invariant
            i <= chars@.len(),
            out@ == separators_collapsed(chars@.take(i as int)),
        decreases chars@.len() - i,
    {
        proof {
            assert(chars@.take(i + 1).drop_last() == chars@.take(i as int));
            assert(chars@.take(i + 1).last() == chars@[i as int]);
            if i >= 1 {
                assert(chars@.take(i + 1)[i - 1] == chars@[i - 1]);
            }
        }
        let c = chars[i];
        if char_is_valid_punctuation(c) {
            if !(out.len() == 0 || (i >= 1 && char_is_valid_punctuation(chars[i - 1]))) {
                out.push('-');
            }
        } else {
            out.push(c);
        }
        i += 1;
    }
    assert(chars@.take(i as int) == chars@);
    string_of(&out)
}

/// The rule among a list of formatting rules that applies to a national
/// significant number: the first, from `from` on, whose last pattern on the
/// leading digits (if it has any) matches the start of the number, and whose
/// pattern matches the number as a whole.
pub open spec fn chosen_format(formats: Seq<NumberFormat>, national_number: Seq<char>, from: int)
    -> Option<int>
    decreases formats.len() - from,
{
    if from < 0 || from >= formats.len() {
        None
    } else if format_applies(formats[from], national_number) {
        Some(from)
    } else {
        chosen_format(formats, national_number, from + 1)
    }
}

/// Whether a formatting rule applies to a national significant number.
pub open spec fn format_applies(format: NumberFormat, national_number: Seq<char>) -> bool {
    let n = format.leading_digits_pattern@.len();
    (n == 0 || matches_at_start(format.leading_digits_pattern@[n - 1]@, national_number))
        && matches_fully(format.spec_pattern(), national_number)
}

/// The template that a national significant number is rewritten by. In the
/// national style, the rule for the carrier code goes in place of the first
/// group where a carrier code is given and the rule exists; else the rule for
/// the national prefix goes there, where there is one.
pub open spec fn format_template(
    template: Seq<char>,
    national_prefix_rule: Seq<char>,
    carrier_code_rule: Seq<char>,
    number_format: PhoneNumberFormat,
    carrier_code: Seq<char>,
) -> Seq<char> {
    if number_format == PhoneNumberFormat::National && carrier_code.len() > 0
        && carrier_code_rule.len() > 0 {
        replaced_first(
            FIRST_GROUP_CAPTURING@,
            template,
            replaced_first(CARRIER_CODE@, carrier_code_rule, carrier_code),
        )
    } else if number_format == PhoneNumberFormat::National && national_prefix_rule.len() > 0 {
        replaced_first(FIRST_GROUP_CAPTURING@, template, national_prefix_rule)
    } else {
        template
    }
}

/// A national significant number rewritten by a pattern and a template.
pub open spec fn nsn_formatted_by(
    national_number: Seq<char>,
    pattern: Seq<char>,
    template: Seq<char>,
    national_prefix_rule: Seq<char>,
    carrier_code_rule: Seq<char>,
    number_format: PhoneNumberFormat,
    carrier_code: Seq<char>,
) -> Seq<char> {
    let formatted = replaced_first(
        pattern,
        national_number,
        format_template(
            template,
            national_prefix_rule,
            carrier_code_rule,
            number_format,
            carrier_code,
        ),
    );
    if number_format == PhoneNumberFormat::RFC3966 {
        separators_collapsed(formatted)
    } else {
        formatted
    }
}

/// The formatting rules of a region that hold for a style: the rules for
/// international use where the region has any and the style is not the
/// national one.
pub open spec fn formats_for(metadata: PhoneMetadata, number_format: PhoneNumberFormat) -> Seq<
    NumberFormat,
> {
    if metadata.intl_number_format@.len() == 0 || number_format == PhoneNumberFormat::National {
        metadata.number_format@
    } else {
        metadata.intl_number_format@
    }
}

/// A national significant number formatted by the rules of a region; the
/// number as it is where no rule applies.
pub open spec fn nsn_formatted(
    national_number: Seq<char>,
    metadata: PhoneMetadata,
    number_format: PhoneNumberFormat,
    carrier_code: Seq<char>,
) -> Seq<char> {
    let formats = formats_for(metadata, number_format);
    match chosen_format(formats, national_number, 0) {
        Some(i) => nsn_formatted_by(
            national_number,
            formats[i].spec_pattern(),
            formats[i].spec_format(),
            rule_filled_in(
                formats[i].spec_national_prefix_formatting_rule(),
                metadata.spec_national_prefix(),
            ),
            rule_filled_in(
                formats[i].spec_domestic_carrier_code_formatting_rule(),
                metadata.spec_national_prefix(),
            ),
            number_format,
            carrier_code,
        ),
        None => national_number,
    }
}

/// A formatted number with the extension of the number behind it: after
/// `;ext=` in RFC3966, else after the prefix the region prefers, else after
/// " ext. ".
pub open spec fn with_extension(
    number: PhoneNumberModel,
    metadata: PhoneMetadata,
    number_format: PhoneNumberFormat,
    formatted: Seq<char>,
) -> Seq<char> {
    if number.spec_extension().len() > 0 {
        if number_format == PhoneNumberFormat::RFC3966 {
            formatted + RFC3966_EXTN_PREFIX@ + number.spec_extension()
        } else if metadata.preferred_extn_prefix is Some {
            formatted + metadata.spec_preferred_extn_prefix() + number.spec_extension()
        } else {
            formatted + DEFAULT_EXTN_PREFIX@ + number.spec_extension()
        }
    } else {
        formatted
    }
}

/// Puts the extension of a number behind a formatted number.
pub fn maybe_append_formatted_extension(
    phone_number: &PhoneNumber,
    metadata: &PhoneMetadata,
    number_format: PhoneNumberFormat,
    formatted_number: &mut String,
)
    ensures
        final(formatted_number)@ == with_extension(
            phone_number@,
            *metadata,
            number_format,
            old(formatted_number)@,
        ),
{
    if phone_number.extension().unicode_len() > 0 {
        match number_format {
            PhoneNumberFormat::RFC3966 => {
                formatted_number.append(RFC3966_EXTN_PREFIX);
            },
            _ => {
                if metadata.has_preferred_extn_prefix() {
                    formatted_number.append(metadata.preferred_extn_prefix());
                } else {
                    formatted_number.append(DEFAULT_EXTN_PREFIX);
                }
            },
        }
        formatted_number.append(phone_number.extension());
    }
}

/// The lengths of the runs of ASCII digits in a text, in order.
pub open spec fn digit_group_lengths(s: Seq<char>) -> Seq<int>
    decreases s.len(),
{
    if s.len() == 0 {
        Seq::empty()
    } else {
        let before = digit_group_lengths(s.drop_last());
        if is_ascii_digit(s.last()) {
            if s.len() >= 2 && is_ascii_digit(s[s.len() - 2]) && before.len() > 0 {
                before.update(before.len() - 1, before.last() + 1)
            } else {
                before.push(1)
            }
        } else {
            before
        }
    }
}

/// The lengths of the runs of ASCII digits in a text, in order.
pub fn digit_groups(s: &str) -> (groups: Vec<usize>)
    ensures
        groups@.len() == digit_group_lengths(s@).len(),
        forall|i: int| 0 <= i < groups@.len() ==> groups@[i] as int == digit_group_lengths(s@)[i],
        forall|i: int| 0 <= i < groups@.len() ==> 1 <= #[trigger] groups@[i] && groups@[i] + i
            <= s@.len() && groups@[i] + i <= usize::MAX,
{
    let chars = chars_of(s);
    let mut groups: Vec<usize> = Vec::new();
    let mut i: usize = 0;
    while i < chars.len()
        invariant
            i <= chars@.len(),
            groups@.len() == digit_group_lengths(chars@.take(i as int)).len(),
            forall|k: int|
                0 <= k < groups@.len() ==> groups@[k] as int == digit_group_lengths(
                    chars@.take(i as int),
                )[k],
            forall|k: int|
                0 <= k < groups@.len() ==> 1 <= #[trigger] groups@[k] && groups@[k] + k <= i,
        decreases chars@.len() - i,
    {
        proof {
            assert(chars@.take(i + 1).drop_last() == chars@.take(i as int));
            assert(chars@.take(i + 1).last() == chars@[i as int]);
            if i >= 1 {
                assert(chars@.take(i + 1)[i - 1] == chars@[i - 1]);
            }
        }
        if crate::text::char_is_ascii_digit(chars[i]) {
            if i >= 1 && crate::text::char_is_ascii_digit(chars[i - 1]) && groups.len() > 0 {
                let last = groups.len() - 1;
                let n = groups[last];
                groups.set(last, n + 1);
            } else {
                proof {
                    if groups@.len() > 0 {
                        assert(groups@[groups@.len() - 1] >= 1);
                    }
                }
                groups.push(1);
            }
        }
        i += 1;
    }
    assert(chars@.take(i as int) == chars@);
    groups
}

impl PhoneNumberUtilInternal {
    /// Picks the rule among a list of formatting rules that applies to a
    /// national significant number.
    pub fn choose_formatting_pattern_for_number(
        &self,
        available_formats: &Vec<NumberFormat>,
        national_number: &str,
    ) -> (r: Option<usize>)
        requires
            formats_compile(available_formats@),
        ensures
            match r {
                Some(i) => chosen_format(available_formats@, national_number@, 0) == Some(
                    i as int,
                ) && i < available_formats@.len(),
                None => chosen_format(available_formats@, national_number@, 0) is None,
            },
    {
        let mut i: usize = 0;
        while i < available_formats.len()
            invariant
                i <= available_formats@.len(),
                formats_compile(available_formats@),
                chosen_format(available_formats@, national_number@, 0) == chosen_format(
                    available_formats@,
                    national_number@,
                    i as int,
                ),
            decreases available_formats@.len() - i,
        {
            let format = &available_formats[i];
            assert(format.patterns_compile());
            let n = format.leading_digits_pattern.len();
            // The last pattern on the leading digits is the most specific
            // one.
            let leading_digits_match = n == 0 || self.reg_exps.regexp_cache.matches_start(
                format.leading_digits_pattern[n - 1].as_str(),
                national_number,
            );
            if leading_digits_match && self.reg_exps.regexp_cache.full_match(
                format.pattern(),
                national_number,
            ) {
                return Some(i);
            }
            i += 1;
        }
        None
    }

    /// Rewrites a national significant number by a pattern and a template.
    pub fn format_nsn_using_pattern_with_carrier(
        &self,
        national_number: &str,
        pattern: &str,
        template: &str,
        national_prefix_rule: &str,
        carrier_code_rule: &str,
        number_format: PhoneNumberFormat,
        carrier_code: &str,
    ) -> (r: String)
        requires
            self.reg_exps.wf(),
            pattern_compiles(pattern@),
        ensures
            r@ == nsn_formatted_by(
                national_number@,
                pattern@,
                template@,
                national_prefix_rule@,
                carrier_code_rule@,
                number_format,
                carrier_code@,
            ),
    {
        let national = match number_format {
            PhoneNumberFormat::National => true,
            _ => false,
        };
        let rule = if national && carrier_code.unicode_len() > 0
            && carrier_code_rule.unicode_len() > 0 {
            // The carrier code goes where the rule has `$CC`, and the rule
            // goes where the template has its first group.
            let with_carrier_code = self.reg_exps.carrier_code_pattern.replace(
                carrier_code_rule,
                carrier_code,
            );
            self.reg_exps.first_group_capturing_pattern.replace(
                template,
                with_carrier_code.as_str(),
            )
        } else if national && national_prefix_rule.unicode_len() > 0 {
            self.reg_exps.first_group_capturing_pattern.replace(template, national_prefix_rule)
        } else {
            template.to_owned()
        };
        let formatted = self.reg_exps.regexp_cache.replace(
            pattern,
            national_number,
            rule.as_str(),
        );
        match number_format {
            PhoneNumberFormat::RFC3966 => collapse_separators(formatted.as_str()),
            _ => formatted,
        }
    }

    /// Formats a national significant number by the rules of a region.
    pub fn format_nsn(
        &self,
        national_number: &str,
        metadata: &PhoneMetadata,
        number_format: PhoneNumberFormat,
        carrier_code: &str,
    ) -> (r: String)
        requires
            self.reg_exps.wf(),
            metadata.patterns_compile(),
        ensures
            r@ == nsn_formatted(national_number@, *metadata, number_format, carrier_code@),
    {
        let national = match number_format {
            PhoneNumberFormat::National => true,
            _ => false,
        };
        let available_formats = if metadata.intl_number_format.len() == 0 || national {
            &metadata.number_format
        } else {
            &metadata.intl_number_format
        };
        match self.choose_formatting_pattern_for_number(available_formats, national_number) {
            Some(i) => {
                let format = &available_formats[i];
                assert(format.patterns_compile());
                let national_prefix_rule = fill_in_rule(
                    format.national_prefix_formatting_rule(),
                    metadata.national_prefix(),
                );
                let carrier_code_rule = fill_in_rule(
                    format.domestic_carrier_code_formatting_rule(),
                    metadata.national_prefix(),
                );
                self.format_nsn_using_pattern_with_carrier(
                    national_number,
                    format.pattern(),
                    format.format(),
                    national_prefix_rule.as_str(),
                    carrier_code_rule.as_str(),
                    number_format,
                    carrier_code,
                )
            },
            None => national_number.to_owned(),
        }
    }

    /// The record that the numbers of a calling code are formatted by: that
    /// of the main region of the code.
    pub open spec fn spec_metadata_for_formatting(&self, country_calling_code: i32) -> Option<
        PhoneMetadata,
    > {
        if !self.spec_has_valid_country_calling_code(country_calling_code) {
            None
        } else {
            self.spec_metadata_for_region_or_calling_code(
                country_calling_code,
                self.spec_region_code_for_country_code(country_calling_code),
            )
        }
    }

    /// The record that the numbers of a calling code are formatted by.
    pub fn get_metadata_for_formatting(&self, country_calling_code: i32) -> (r: Option<
        &PhoneMetadata,
    >)
        requires
            self.wf(),
        ensures
            match r {
                Some(m) => self.spec_metadata_for_formatting(country_calling_code) == Some(*m)
                    && m.patterns_compile(),
                None => self.spec_metadata_for_formatting(country_calling_code) is None,
            },
    {
        if !self.has_valid_country_calling_code(country_calling_code) {
            return None;
        }
        let region_code = self.get_region_code_for_country_code(country_calling_code);
        self.get_metadata_for_region_or_calling_code(country_calling_code, region_code)
    }

    /// A phone number with a national number formatted by the rules of the
    /// main region of its calling code, with a carrier code.
    pub open spec fn spec_formatted_with_carrier(
        &self,
        number: PhoneNumberModel,
        number_format: PhoneNumberFormat,
        carrier_code: Seq<char>,
    ) -> Seq<char> {
        let national_number = national_significant_number(number);
        match self.spec_metadata_for_formatting(number.spec_country_code()) {
            Some(metadata) => with_country_calling_code(
                number.spec_country_code(),
                number_format,
                with_extension(
                    number,
                    metadata,
                    number_format,
                    nsn_formatted(national_number, metadata, number_format, carrier_code),
                ),
            ),
            None => national_number,
        }
    }

    /// A phone number in a style.
    ///
    /// A number whose national number is zero is written as its raw input,
    /// where it has any. E164 is the national significant number behind the
    /// calling code. For the other styles the national significant number is
    /// formatted by the rules of the main region of the calling code, the
    /// extension is put behind it and the calling code before it; a number
    /// with a calling code that no region has is written as its national
    /// significant number.
    pub open spec fn spec_format(&self, number: PhoneNumberModel, number_format: PhoneNumberFormat)
        -> Seq<char> {
        if number.spec_national_number() == 0 && number.spec_raw_input().len() > 0 {
            number.spec_raw_input()
        } else if number_format == PhoneNumberFormat::E164 {
            with_country_calling_code(
                number.spec_country_code(),
                PhoneNumberFormat::E164,
                national_significant_number(number),
            )
        } else {
            self.spec_formatted_with_carrier(number, number_format, Seq::empty())
        }
    }

    /// Formats a phone number whose calling code some region has.
    pub fn format_with_carrier(
        &self,
        phone_number: &PhoneNumber,
        number_format: PhoneNumberFormat,
        carrier_code: &str,
    ) -> (r: String)
        requires
            self.wf(),
        ensures
            r@ == self.spec_formatted_with_carrier(phone_number@, number_format, carrier_code@),
    {
        let country_calling_code = phone_number.country_code();
        let national_significant_number = self.get_national_significant_number(phone_number);
        match self.get_metadata_for_formatting(country_calling_code) {
            Some(metadata) => {
                let mut formatted_number = self.format_nsn(
                    national_significant_number.as_str(),
                    metadata,
                    number_format,
                    carrier_code,
                );
                maybe_append_formatted_extension(
                    phone_number,
                    metadata,
                    number_format,
                    &mut formatted_number,
                );
                prefix_number_with_country_calling_code(
                    country_calling_code,
                    number_format,
                    &mut formatted_number,
                );
                formatted_number
            },
            None => national_significant_number,
        }
    }

    /// Formats a phone number in a style.
    pub fn format(&self, phone_number: &PhoneNumber, number_format: PhoneNumberFormat) -> (r:
        String)
        requires
            self.wf(),
        ensures
            r@ == self.spec_format(phone_number@, number_format),
    {
        if phone_number.national_number() == 0 && phone_number.raw_input().unicode_len() > 0 {
            // A number that could not be read keeps the form it was given
            // in.
            return phone_number.raw_input().to_owned();
        }
        match number_format {
            PhoneNumberFormat::E164 => {
                let mut formatted_number = self.get_national_significant_number(phone_number);
                prefix_number_with_country_calling_code(
                    phone_number.country_code(),
                    PhoneNumberFormat::E164,
                    &mut formatted_number,
                );
                formatted_number
            },
            _ => {
                let none = crate::text::empty_str();
                self.format_with_carrier(phone_number, number_format, none)
            },
        }
    }

    /// A phone number in the national style, with a carrier code.
    pub fn format_national_number_with_carrier_code(
        &self,
        phone_number: &PhoneNumber,
        carrier_code: &str,
    ) -> (r: String)
        requires
            self.wf(),
        ensures
            r@ == self.spec_formatted_with_carrier(
                phone_number@,
                PhoneNumberFormat::National,
                carrier_code@,
            ),
    {
        self.format_with_carrier(phone_number, PhoneNumberFormat::National, carrier_code)
    }

    /// The carrier code that a number is formatted with where the caller
    /// has a fallback: the one the number prefers, if it is not empty.
    pub open spec fn preferred_carrier_code(number: PhoneNumberModel, fallback: Seq<char>) -> Seq<
        char,
    > {
        if number.spec_preferred_domestic_carrier_code().len() > 0 {
            number.spec_preferred_domestic_carrier_code()
        } else {
            fallback
        }
    }

    /// A phone number in the national style, with the carrier code that the
    /// number prefers, or with the fallback where it prefers none.
    pub fn format_national_number_with_preferred_carrier_code(
        &self,
        phone_number: &PhoneNumber,
        fallback_carrier_code: &str,
    ) -> (r: String)
        requires
            self.wf(),
        ensures
            r@ == self.spec_formatted_with_carrier(
                phone_number@,
                PhoneNumberFormat::National,
                Self::preferred_carrier_code(phone_number@, fallback_carrier_code@),
            ),
    {
        let carrier_code = if phone_number.preferred_domestic_carrier_code().unicode_len() > 0 {
            phone_number.preferred_domestic_carrier_code()
        } else {
            fallback_carrier_code
        };
        self.format_national_number_with_carrier_code(phone_number, carrier_code)
    }

    /// A phone number formatted by rules that the caller supplies in place of
    /// those of the region. The rule for the national prefix is only used
    /// where the region has a national prefix.
    pub open spec fn spec_format_by_pattern(
        &self,
        number: PhoneNumberModel,
        number_format: PhoneNumberFormat,
        user_defined_formats: Seq<NumberFormat>,
    ) -> Seq<char> {
        let national_number = national_significant_number(number);
        match self.spec_metadata_for_formatting(number.spec_country_code()) {
            Some(metadata) => {
                let formatted = match chosen_format(user_defined_formats, national_number, 0) {
                    Some(i) => {
                        let format = user_defined_formats[i];
                        let rule = format.spec_national_prefix_formatting_rule();
                        nsn_formatted_by(
                            national_number,
                            format.spec_pattern(),
                            format.spec_format(),
                            if rule.len() > 0 && metadata.spec_national_prefix().len() > 0 {
                                rule_filled_in(rule, metadata.spec_national_prefix())
                            } else {
                                Seq::empty()
                            },
                            format.spec_domestic_carrier_code_formatting_rule(),
                            number_format,
                            Seq::empty(),
                        )
                    },
                    None => national_number,
                };
                with_country_calling_code(
                    number.spec_country_code(),
                    number_format,
                    with_extension(number, metadata, number_format, formatted),
                )
            },
            None => national_number,
        }
    }

    /// Formats a phone number by rules that the caller supplies.
    pub fn format_by_pattern(
        &self,
        phone_number: &PhoneNumber,
        number_format: PhoneNumberFormat,
        user_defined_formats: &Vec<NumberFormat>,
    ) -> (r: String)
        requires
            self.wf(),
            formats_compile(user_defined_formats@),
        ensures
            r@ == self.spec_format_by_pattern(phone_number@, number_format, user_defined_formats@),
    {
        let country_calling_code = phone_number.country_code();
        let national_significant_number = self.get_national_significant_number(phone_number);
        match self.get_metadata_for_formatting(country_calling_code) {
            Some(metadata) => {
                let mut formatted_number = match self.choose_formatting_pattern_for_number(
                    user_defined_formats,
                    national_significant_number.as_str(),
                ) {
                    Some(i) => {
                        let format = &user_defined_formats[i];
                        assert(format.patterns_compile());
                        let rule = format.national_prefix_formatting_rule();
                        let national_prefix = metadata.national_prefix();
                        // Without a national prefix there is nothing that a
                        // rule for it could put in front of the number.
                        let national_prefix_rule = if rule.unicode_len() > 0
                            && national_prefix.unicode_len() > 0 {
                            fill_in_rule(rule, national_prefix)
                        } else {
                            crate::text::empty_str().to_owned()
                        };
                        self.format_nsn_using_pattern_with_carrier(
                            national_significant_number.as_str(),
                            format.pattern(),
                            format.format(),
                            national_prefix_rule.as_str(),
                            format.domestic_carrier_code_formatting_rule(),
                            number_format,
                            crate::text::empty_str(),
                        )
                    },
                    None => national_significant_number,
                };
                maybe_append_formatted_extension(
                    phone_number,
                    metadata,
                    number_format,
                    &mut formatted_number,
                );
                prefix_number_with_country_calling_code(
                    country_calling_code,
                    number_format,
                    &mut formatted_number,
                );
                formatted_number
            },
            None => national_significant_number,
        }
    }
}

/// The international prefix that a number is written with when it is
/// formatted for dialling out of a region: the prefix the region prefers, or
/// else its international prefix if that is a single prefix and not a choice.
pub open spec fn international_prefix_for_formatting(metadata: PhoneMetadata) -> Seq<char> {
    if metadata.preferred_international_prefix is Some {
        metadata.spec_preferred_international_prefix()
    } else if matches_fully(SINGLE_INTERNATIONAL_PREFIX@, metadata.spec_international_prefix()) {
        metadata.spec_international_prefix()
    } else {
        Seq::empty()
    }
}

/// The international prefix that a number written with letters is given
/// when it is formatted for dialling out of a region: the international
/// prefix of the region if that is a single prefix, or else the prefix the
/// region prefers.
pub open spec fn international_prefix_for_alpha_formatting(metadata: PhoneMetadata) -> Seq<char> {
    if matches_fully(SINGLE_INTERNATIONAL_PREFIX@, metadata.spec_international_prefix()) {
        metadata.spec_international_prefix()
    } else {
        metadata.spec_preferred_international_prefix()
    }
}

/// The raw input of a number cut down to what is to be kept when the number
/// is formatted with its letters: the letters in upper case, the digits and
/// the grouping symbols, from the first three digits of the national
/// significant number on (if that number has more than three digits and
/// they occur).
pub open spec fn raw_input_to_keep(raw_input: Seq<char>, national_number: Seq<char>) -> Seq<char> {
    let kept = normalized_through(CharMapping::AllPlusNumberGrouping, true, raw_input);
    if national_number.len() > 3 {
        match first_occurrence(kept, national_number.take(3)) {
            Some(at) => kept.skip(at),
            None => kept,
        }
    } else {
        kept
    }
}

/// A number in the E164 style starts with a plus sign, unless it is a number
/// whose national number is zero and that is written as its raw input.
pub proof fn lemma_e164_starts_with_plus(util: PhoneNumberUtilInternal, number: PhoneNumberModel)
    requires
        !(number.spec_national_number() == 0 && number.spec_raw_input().len() > 0),
    ensures
        util.spec_format(number, PhoneNumberFormat::E164).len() > 0,
        util.spec_format(number, PhoneNumberFormat::E164)[0] == '+',
{
    reveal_strlit("+");
    let formatted = util.spec_format(number, PhoneNumberFormat::E164);
    assert(formatted == crate::helper_constants::PLUS_SIGN@ + decimal_repr(
        number.spec_country_code() as int,
    ) + national_significant_number(number));
    assert(formatted[0] == crate::helper_constants::PLUS_SIGN@[0]);
}

impl PhoneNumberUtilInternal {
    /// A phone number as it is dialled from a region.
    ///
    /// From an unknown region the number is written in the international
    /// style. Inside the North American Numbering Plan it is the calling
    /// code and the national style. From a region with the calling code of
    /// the number it is the national style. From anywhere else it is the
    /// international prefix of the region, the calling code and the number
    /// in the international style; where the region has no single prefix,
    /// a plus sign stands for it.
    pub open spec fn spec_format_out_of_country_calling_number(
        &self,
        number: PhoneNumberModel,
        calling_from: Seq<char>,
    ) -> Seq<char> {
        let country_code = number.spec_country_code();
        let national_number = national_significant_number(number);
        match self.spec_metadata_for_region(calling_from) {
            None => self.spec_format(number, PhoneNumberFormat::International),
            Some(metadata_calling_from) => {
                if !self.spec_has_valid_country_calling_code(country_code) {
                    national_number
                } else if country_code == NANPA_COUNTRY_CODE && self.spec_is_nanpa_country(
                    calling_from,
                ) {
                    decimal_repr(country_code as int) + " "@ + self.spec_format(
                        number,
                        PhoneNumberFormat::National,
                    )
                } else if country_code != NANPA_COUNTRY_CODE && country_code
                    == metadata_calling_from.spec_country_code() {
                    self.spec_format(number, PhoneNumberFormat::National)
                } else {
                    match self.spec_metadata_for_formatting(country_code) {
                        Some(metadata) => {
                            let formatted = with_extension(
                                number,
                                metadata,
                                PhoneNumberFormat::International,
                                nsn_formatted(
                                    national_number,
                                    metadata,
                                    PhoneNumberFormat::International,
                                    Seq::empty(),
                                ),
                            );
                            let prefix = international_prefix_for_formatting(
                                metadata_calling_from,
                            );
                            if prefix.len() > 0 {
                                prefix + " "@ + decimal_repr(country_code as int) + " "@
                                    + formatted
                            } else {
                                with_country_calling_code(
                                    country_code,
                                    PhoneNumberFormat::International,
                                    formatted,
                                )
                            }
                        },
                        None => national_number,
                    }
                }
            },
        }
    }

    /// Formats a phone number as it is dialled from a region.
    pub fn format_out_of_country_calling_number(
        &self,
        phone_number: &PhoneNumber,
        calling_from: &str,
    ) -> (r: String)
        requires
            self.wf(),
        ensures
            r@ == self.spec_format_out_of_country_calling_number(phone_number@, calling_from@),
    {
        let metadata_calling_from = match self.get_metadata_for_region(calling_from) {
            Some(m) => m,
            None => {
                return self.format(phone_number, PhoneNumberFormat::International);
            },
        };
        let country_code = phone_number.country_code();
        let national_significant_number = self.get_national_significant_number(phone_number);
        if !self.has_valid_country_calling_code(country_code) {
            return national_significant_number;
        }
        if country_code == NANPA_COUNTRY_CODE {
            if self.is_nanpa_country(calling_from) {
                // Inside the plan the calling code is dialled like a
                // national prefix.
                let mut formatted_number = decimal_string(country_code as i128);
                formatted_number.append(" ");
                let national = self.format(phone_number, PhoneNumberFormat::National);
                formatted_number.append(national.as_str());
                return formatted_number;
            }
        } else if country_code == metadata_calling_from.country_code() {
            return self.format(phone_number, PhoneNumberFormat::National);
        }
        let metadata = match self.get_metadata_for_formatting(country_code) {
            Some(m) => m,
            None => {
                return national_significant_number;
            },
        };
        let mut formatted = self.format_nsn(
            national_significant_number.as_str(),
            metadata,
            PhoneNumberFormat::International,
            crate::text::empty_str(),
        );
        maybe_append_formatted_extension(
            phone_number,
            metadata,
            PhoneNumberFormat::International,
            &mut formatted,
        );
        // A region with several international prefixes and no preferred one
        // gives no prefix to write; a plus sign stands for it then.
        let international_prefix = metadata_calling_from.international_prefix();
        let prefix = if metadata_calling_from.has_preferred_international_prefix() {
            metadata_calling_from.preferred_international_prefix()
        } else if self.reg_exps.single_international_prefix.full_match(international_prefix) {
            international_prefix
        } else {
            crate::text::empty_str()
        };
        if prefix.unicode_len() > 0 {
            let mut formatted_number = prefix.to_owned();
            formatted_number.append(" ");
            formatted_number.append(decimal_string(country_code as i128).as_str());
            formatted_number.append(" ");
            formatted_number.append(formatted.as_str());
            formatted_number
        } else {
            prefix_number_with_country_calling_code(
                country_code,
                PhoneNumberFormat::International,
                &mut formatted,
            );
            formatted
        }
    }

    /// Whether the main region of the calling code of a number has a
    /// formatting rule that applies to the number.
    pub open spec fn spec_has_formatting_pattern_for_number(&self, number: PhoneNumberModel)
        -> bool {
        match self.spec_metadata_for_formatting(number.spec_country_code()) {
            Some(metadata) => chosen_format(
                metadata.number_format@,
                national_significant_number(number),
                0,
            ) is Some,
            None => false,
        }
    }

    /// Whether the main region of the calling code of a number has a
    /// formatting rule that applies to the number.
    pub fn has_formatting_pattern_for_number(&self, phone_number: &PhoneNumber) -> (r: bool)
        requires
            self.wf(),
        ensures
            r == self.spec_has_formatting_pattern_for_number(phone_number@),
    {
        match self.get_metadata_for_formatting(phone_number.country_code()) {
            Some(metadata) => {
                let national_number = self.get_national_significant_number(phone_number);
                self.choose_formatting_pattern_for_number(
                    &metadata.number_format,
                    national_number.as_str(),
                ).is_some()
            },
            None => false,
        }
    }

    /// The national prefix of a region; empty for a region without a
    /// record. With `strip_non_digits`, the tilde that stands for "wait for
    /// the tone" is left out.
    pub open spec fn spec_ndd_prefix_for_region(
        &self,
        region_code: Seq<char>,
        strip_non_digits: bool,
    ) -> Seq<char> {
        match self.spec_metadata_for_region(region_code) {
            Some(metadata) => if strip_non_digits {
                with_all_replaced(metadata.spec_national_prefix(), "~"@, Seq::empty())
            } else {
                metadata.spec_national_prefix()
            },
            None => Seq::empty(),
        }
    }

    /// The national prefix of a region.
    pub fn get_ndd_prefix_for_region(&self, region_code: &str, strip_non_digits: bool) -> (r:
        String)
        ensures
            r@ == self.spec_ndd_prefix_for_region(region_code@, strip_non_digits),
    {
        match self.get_metadata_for_region(region_code) {
            Some(metadata) => {
                if strip_non_digits {
                    replace_all(metadata.national_prefix(), "~", crate::text::empty_str())
                } else {
                    metadata.national_prefix().to_owned()
                }
            },
            None => crate::text::empty_str().to_owned(),
        }
    }

    /// Whether a raw input was written with the national prefix: its digits
    /// start with the prefix, and what follows the prefix is a valid number
    /// of the region by itself.
    pub open spec fn spec_raw_input_contains_national_prefix(
        &self,
        raw_input: Seq<char>,
        national_prefix: Seq<char>,
        region_code: Seq<char>,
    ) -> bool {
        let digits = digits_only(raw_input);
        if national_prefix.is_prefix_of(digits) {
            match self.spec_parse(digits.skip(national_prefix.len() as int), region_code) {
                Ok(number) => self.spec_is_valid_number(number),
                Err(_) => false,
            }
        } else {
            false
        }
    }

    /// Whether a raw input was written with the national prefix.
    pub fn raw_input_contains_national_prefix(
        &self,
        raw_input: &str,
        national_prefix: &str,
        region_code: &str,
    ) -> (r: bool)
        requires
            self.wf(),
        ensures
            r == self.spec_raw_input_contains_national_prefix(
                raw_input@,
                national_prefix@,
                region_code@,
            ),
    {
        let digits = chars_of(self.normalize_digits_only(raw_input).as_str());
        let prefix = chars_of(national_prefix);
        if starts_with(&digits, &prefix) {
            // A number such as 00777123 in Japan starts with what looks like
            // the national prefix, but 0777123 alone is no valid number.
            assert(digits@.skip(prefix@.len() as int) == digits@.subrange(
                prefix@.len() as int,
                digits@.len() as int,
            ));
            let rest = substring(&digits, prefix.len(), digits.len());
            match self.parse(rest.as_str(), region_code) {
                Ok(number) => self.is_valid_number(&number),
                Err(_) => false,
            }
        } else {
            false
        }
    }

    /// A number that stated no calling code, in the form it was most likely
    /// written in: the national style, without the national prefix where
    /// the raw input had none.
    pub open spec fn spec_format_as_dialled_nationally(&self, number: PhoneNumberModel) -> Seq<
        char,
    > {
        let country_code = number.spec_country_code();
        let region_code = self.spec_region_code_for_country_code(country_code);
        let national_prefix = self.spec_ndd_prefix_for_region(region_code, true);
        let national_format = self.spec_format(number, PhoneNumberFormat::National);
        let national_number = national_significant_number(number);
        if national_prefix.len() == 0 || self.spec_raw_input_contains_national_prefix(
            number.spec_raw_input(),
            national_prefix,
            region_code,
        ) {
            national_format
        } else {
            match self.spec_metadata_for_region(region_code) {
                None => national_format,
                Some(metadata) => match chosen_format(metadata.number_format@, national_number, 0) {
                    None => national_format,
                    Some(i) => {
                        let format = metadata.number_format@[i];
                        let rule = rule_filled_in(
                            format.spec_national_prefix_formatting_rule(),
                            metadata.spec_national_prefix(),
                        );
                        match first_occurrence(rule, "$1"@) {
                            None => national_format,
                            Some(at) => if digits_only(rule.take(at)).len() == 0 {
                                national_format
                            } else {
                                match self.spec_metadata_for_formatting(country_code) {
                                    Some(m) => with_country_calling_code(
                                        country_code,
                                        PhoneNumberFormat::National,
                                        with_extension(
                                            number,
                                            m,
                                            PhoneNumberFormat::National,
                                            nsn_formatted_by(
                                                national_number,
                                                format.spec_pattern(),
                                                format.spec_format(),
                                                Seq::empty(),
                                                format.spec_domestic_carrier_code_formatting_rule(),
                                                PhoneNumberFormat::National,
                                                Seq::empty(),
                                            ),
                                        ),
                                    ),
                                    None => national_number,
                                }
                            },
                        }
                    },
                },
            }
        }
    }

    /// Formats a number that stated no calling code in the form it was most
    /// likely written in.
    pub fn format_as_dialled_nationally(&self, phone_number: &PhoneNumber) -> (r: String)
        requires
            self.wf(),
        ensures
            r@ == self.spec_format_as_dialled_nationally(phone_number@),
    {
        let country_code = phone_number.country_code();
        let region_code = self.get_region_code_for_country_code(country_code);
        // The tilde is left out of the prefix, as it is of the raw input
        // below, so that the two can be compared.
        let national_prefix = self.get_ndd_prefix_for_region(region_code, true);
        if national_prefix.as_str().unicode_len() == 0 {
            return self.format(phone_number, PhoneNumberFormat::National);
        }
        if self.raw_input_contains_national_prefix(
            phone_number.raw_input(),
            national_prefix.as_str(),
            region_code,
        ) {
            return self.format(phone_number, PhoneNumberFormat::National);
        }
        let metadata = match self.get_metadata_for_region(region_code) {
            Some(m) => m,
            None => {
                return self.format(phone_number, PhoneNumberFormat::National);
            },
        };
        let national_number = self.get_national_significant_number(phone_number);
        let chosen = self.choose_formatting_pattern_for_number(
            &metadata.number_format,
            national_number.as_str(),
        );
        let format = match chosen {
            Some(i) => &metadata.number_format[i],
            None => {
                return self.format(phone_number, PhoneNumberFormat::National);
            },
        };
        assert(format.patterns_compile());
        let rule = fill_in_rule(
            format.national_prefix_formatting_rule(),
            metadata.national_prefix(),
        );
        let rule_chars = chars_of(rule.as_str());
        let first_group = chars_of("$1");
        // The first group is taken never to stand before the national
        // prefix.
        let at = match find(&rule_chars, &first_group) {
            Some(at) => at,
            None => {
                return self.format(phone_number, PhoneNumberFormat::National);
            },
        };
        assert(rule_chars@.take(at as int) == rule_chars@.subrange(0, at as int));
        let candidate = crate::normalization::digits_of(&subvec(&rule_chars, 0, at));
        if candidate.len() == 0 {
            // The rule puts no national prefix before this number.
            return self.format(phone_number, PhoneNumberFormat::National);
        }
        // The national prefix is left out of the output.
        match self.get_metadata_for_formatting(country_code) {
            Some(m) => {
                let mut formatted_number = self.format_nsn_using_pattern_with_carrier(
                    national_number.as_str(),
                    format.pattern(),
                    format.format(),
                    crate::text::empty_str(),
                    format.domestic_carrier_code_formatting_rule(),
                    PhoneNumberFormat::National,
                    crate::text::empty_str(),
                );
                maybe_append_formatted_extension(
                    phone_number,
                    m,
                    PhoneNumberFormat::National,
                    &mut formatted_number,
                );
                prefix_number_with_country_calling_code(
                    country_code,
                    PhoneNumberFormat::National,
                    &mut formatted_number,
                );
                formatted_number
            },
            None => national_number,
        }
    }

    /// A phone number in the form it was written in, as far as that can be
    /// told from what the number remembers.
    ///
    /// A number that remembers its raw input but that no formatting rule
    /// applies to is written as the raw input. A number that does not
    /// remember where its calling code came from is written in the national
    /// style. Otherwise the style follows the source of the calling code;
    /// and if the result differs from the raw input in any character that
    /// matters when dialling, the raw input is given back.
    pub open spec fn spec_format_in_original_format(
        &self,
        number: PhoneNumberModel,
        region_calling_from: Seq<char>,
    ) -> Seq<char> {
        if number.raw_input is Some && !self.spec_has_formatting_pattern_for_number(number) {
            number.spec_raw_input()
        } else if number.country_code_source is None {
            self.spec_format(number, PhoneNumberFormat::National)
        } else {
            let formatted = match number.spec_country_code_source() {
                CountryCodeSource::FROM_NUMBER_WITH_PLUS_SIGN => self.spec_format(
                    number,
                    PhoneNumberFormat::International,
                ),
                CountryCodeSource::FROM_NUMBER_WITH_IDD => {
                    self.spec_format_out_of_country_calling_number(number, region_calling_from)
                },
                CountryCodeSource::FROM_NUMBER_WITHOUT_PLUS_SIGN => {
                    let international = self.spec_format(number, PhoneNumberFormat::International);
                    if international.len() > 0 {
                        international.skip(1)
                    } else {
                        international
                    }
                },
                _ => self.spec_format_as_dialled_nationally(number),
            };
            if formatted.len() > 0 && number.spec_raw_input().len() > 0 && normalized_through(
                CharMapping::Diallable,
                true,
                formatted,
            ) != normalized_through(CharMapping::Diallable, true, number.spec_raw_input()) {
                number.spec_raw_input()
            } else {
                formatted
            }
        }
    }

    /// Formats a phone number in the form it was written in.
    pub fn format_in_original_format(&self, phone_number: &PhoneNumber, region_calling_from: &str)
        -> (r: String)
        requires
            self.wf(),
        ensures
            r@ == self.spec_format_in_original_format(phone_number@, region_calling_from@),
    {
        if phone_number.has_raw_input() && !self.has_formatting_pattern_for_number(phone_number) {
            // Without a rule the number could come out as one group with
            // its national prefix lost.
            return phone_number.raw_input().to_owned();
        }
        if !phone_number.has_country_code_source() {
            return self.format(phone_number, PhoneNumberFormat::National);
        }
        let formatted_number = match phone_number.country_code_source() {
            CountryCodeSource::FROM_NUMBER_WITH_PLUS_SIGN => self.format(
                phone_number,
                PhoneNumberFormat::International,
            ),
            CountryCodeSource::FROM_NUMBER_WITH_IDD => self.format_out_of_country_calling_number(
                phone_number,
                region_calling_from,
            ),
            CountryCodeSource::FROM_NUMBER_WITHOUT_PLUS_SIGN => {
                let international = chars_of(
                    self.format(phone_number, PhoneNumberFormat::International).as_str(),
                );
                if international.len() > 0 {
                    assert(international@.skip(1) == international@.subrange(
                        1,
                        international@.len() as int,
                    ));
                    substring(&international, 1, international.len())
                } else {
                    string_of(&international)
                }
            },
            _ => self.format_as_dialled_nationally(phone_number),
        };
        // The output stands only if no digit was added, dropped or changed
        // on the way.
        if formatted_number.as_str().unicode_len() > 0 && phone_number.raw_input().unicode_len()
            > 0 {
            let normalized_formatted_number = self.normalize_diallable_chars_only(
                formatted_number.as_str(),
            );
            let normalized_raw_input = self.normalize_diallable_chars_only(
                phone_number.raw_input(),
            );
            if !str_equal(normalized_formatted_number.as_str(), normalized_raw_input.as_str()) {
                return phone_number.raw_input().to_owned();
            }
        }
        formatted_number
    }

    /// A phone number as it is dialled from a region, with the letters of
    /// its raw input kept.
    pub open spec fn spec_format_out_of_country_keeping_alpha_chars(
        &self,
        number: PhoneNumberModel,
        calling_from: Seq<char>,
    ) -> Seq<char> {
        let country_code = number.spec_country_code();
        if number.spec_raw_input().len() == 0 {
            self.spec_format_out_of_country_calling_number(number, calling_from)
        } else if !self.spec_has_valid_country_calling_code(country_code) {
            number.spec_raw_input()
        } else {
            let national_number = national_significant_number(number);
            let raw_input = raw_input_to_keep(number.spec_raw_input(), national_number);
            let metadata_calling_from = self.spec_metadata_for_region(calling_from);
            if country_code == NANPA_COUNTRY_CODE && self.spec_is_nanpa_country(calling_from) {
                decimal_repr(country_code as int) + " "@ + raw_input
            } else if country_code != NANPA_COUNTRY_CODE && metadata_calling_from is Some
                && country_code == metadata_calling_from->0.spec_country_code() {
                let metadata = metadata_calling_from->0;
                match chosen_format(metadata.number_format@, national_number, 0) {
                    None => raw_input,
                    Some(i) => nsn_formatted_by(
                        raw_input,
                        FIRST_DIGITS_AND_REST@,
                        "$1$2"@,
                        rule_filled_in(
                            metadata.number_format@[i].spec_national_prefix_formatting_rule(),
                            metadata.spec_national_prefix(),
                        ),
                        rule_filled_in(
                            metadata.number_format@[i].spec_domestic_carrier_code_formatting_rule(),
                            metadata.spec_national_prefix(),
                        ),
                        PhoneNumberFormat::National,
                        Seq::empty(),
                    ),
                }
            } else {
                let prefix = match metadata_calling_from {
                    Some(m) => international_prefix_for_alpha_formatting(m),
                    None => Seq::empty(),
                };
                match self.spec_metadata_for_formatting(country_code) {
                    Some(metadata) => {
                        let formatted = with_extension(
                            number,
                            metadata,
                            PhoneNumberFormat::International,
                            crate::normalization::without_extension(raw_input).0,
                        );
                        if prefix.len() > 0 {
                            prefix + " "@ + decimal_repr(country_code as int) + " "@ + formatted
                        } else {
                            with_country_calling_code(
                                country_code,
                                PhoneNumberFormat::International,
                                formatted,
                            )
                        }
                    },
                    None => raw_input,
                }
            }
        }
    }

    /// Formats a phone number as it is dialled from a region, keeping the
    /// letters of its raw input.
    pub fn format_out_of_country_keeping_alpha_chars(
        &self,
        phone_number: &PhoneNumber,
        calling_from: &str,
    ) -> (r: String)
        requires
            self.wf(),
        ensures
            r@ == self.spec_format_out_of_country_keeping_alpha_chars(
                phone_number@,
                calling_from@,
            ),
    {
        // Without a raw input there are no letters to keep.
        if phone_number.raw_input().unicode_len() == 0 {
            return self.format_out_of_country_calling_number(phone_number, calling_from);
        }
        let country_code = phone_number.country_code();
        if !self.has_valid_country_calling_code(country_code) {
            return phone_number.raw_input().to_owned();
        }
        // Punctuation goes, but for the symbols that group the number.
        let mut kept = phone_number.raw_input().to_owned();
        normalize_helper(CharMapping::AllPlusNumberGrouping, true, &mut kept);
        // Everything before the first three digits of the national number
        // goes: a calling code or an international prefix that was dialled.
        let national_number = self.get_national_significant_number(phone_number);
        let national_chars = chars_of(national_number.as_str());
        let kept_chars = chars_of(kept.as_str());
        let raw_input = if national_chars.len() > 3 {
            let start = subvec(&national_chars, 0, 3);
            assert(start@ == national_chars@.take(3));
            match find(&kept_chars, &start) {
                Some(at) => {
                    assert(kept_chars@.skip(at as int) == kept_chars@.subrange(
                        at as int,
                        kept_chars@.len() as int,
                    ));
                    substring(&kept_chars, at, kept_chars.len())
                },
                None => kept,
            }
        } else {
            kept
        };
        let metadata_calling_from = self.get_metadata_for_region(calling_from);
        if country_code == NANPA_COUNTRY_CODE {
            if self.is_nanpa_country(calling_from) {
                let mut formatted_number = decimal_string(country_code as i128);
                formatted_number.append(" ");
                formatted_number.append(raw_input.as_str());
                return formatted_number;
            }
        } else {
            match metadata_calling_from {
                Some(metadata) => {
                    if country_code == metadata.country_code() {
                        let chosen = self.choose_formatting_pattern_for_number(
                            &metadata.number_format,
                            national_number.as_str(),
                        );
                        return match chosen {
                            // Without a rule the input stays as it was
                            // written.
                            None => raw_input,
                            Some(i) => {
                                let format = &metadata.number_format[i];
                                let national_prefix_rule = fill_in_rule(
                                    format.national_prefix_formatting_rule(),
                                    metadata.national_prefix(),
                                );
                                let carrier_code_rule = fill_in_rule(
                                    format.domestic_carrier_code_formatting_rule(),
                                    metadata.national_prefix(),
                                );
                                // The digits that the input starts with are
                                // its first group; the rest follows as it
                                // is, once the national prefix is in place.
                                self.format_nsn_using_pattern_with_carrier(
                                    raw_input.as_str(),
                                    FIRST_DIGITS_AND_REST,
                                    "$1$2",
                                    national_prefix_rule.as_str(),
                                    carrier_code_rule.as_str(),
                                    PhoneNumberFormat::National,
                                    crate::text::empty_str(),
                                )
                            },
                        };
                    }
                },
                None => {},
            }
        }
        let prefix = match metadata_calling_from {
            Some(m) => {
                if self.reg_exps.single_international_prefix.full_match(m.international_prefix()) {
                    m.international_prefix()
                } else {
                    m.preferred_international_prefix()
                }
            },
            None => crate::text::empty_str(),
        };
        let metadata = match self.get_metadata_for_formatting(country_code) {
            Some(m) => m,
            None => {
                return raw_input;
            },
        };
        let mut formatted = self.maybe_strip_extension(raw_input.as_str()).0;
        maybe_append_formatted_extension(
            phone_number,
            metadata,
            PhoneNumberFormat::International,
            &mut formatted,
        );
        if prefix.unicode_len() > 0 {
            let mut formatted_number = prefix.to_owned();
            formatted_number.append(" ");
            formatted_number.append(decimal_string(country_code as i128).as_str());
            formatted_number.append(" ");
            formatted_number.append(formatted.as_str());
            formatted_number
        } else {
            prefix_number_with_country_calling_code(
                country_code,
                PhoneNumberFormat::International,
                &mut formatted,
            );
            formatted
        }
    }
}

} // verus!
