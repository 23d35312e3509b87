//! Normalization of the text of a phone number, and the extraction of a
//! candidate number and of an extension from a text.

use crate::char_mappings::{
    char_is_plus, is_plus_char, normalize_digit, normalized_digit, CharMapping,
};
use crate::errors::ExtractNumberError;
use crate::helper_constants::{CAPTURE_UP_TO_SECOND_NUMBER_START, MIN_LENGTH_FOR_NSN};
use crate::helper_functions::{normalize_helper, normalized_through};
use crate::metadata_store::{first_index, lemma_first_index_found, lemma_first_index_none};
use crate::phone_number_regexps_and_mappings::{
    extn_pattern_at_end_text, valid_phone_number_pattern_text, UNWANTED_END_CHAR,
};
use crate::phonenumberutil_internal::PhoneNumberUtilInternal;
use crate::regex_util::{leftmost_captures, matches_fully, RegexFullMatch};
use crate::text::{
    all_ascii_digits, char_is_ascii_letter, chars_of, is_ascii_digit, is_ascii_letter, string_of,
    substring,
};
use vstd::prelude::*;
use vstd::string::*;

verus! {

/// The number of ASCII letters in a text.
pub open spec fn letter_count(s: Seq<char>) -> nat
    decreases s.len(),
{
    if s.len() == 0 {
        0
    } else {
        letter_count(s.drop_last()) + if is_ascii_letter(s.last()) {
            1nat
        } else {
            0nat
        }
    }
}

/// Whether a text is taken for a number written with letters: it holds at
/// least three ASCII letters.
pub open spec fn is_alpha_text(s: Seq<char>) -> bool {
    letter_count(s) >= 3
}

/// The digits of a text: every decimal digit of any script as the ASCII
/// digit of the same value, and nothing else.
pub open spec fn digits_only(s: Seq<char>) -> Seq<char>
    decreases s.len(),
{
    if s.len() == 0 {
        Seq::empty()
    } else {
        digits_only(s.drop_last()) + match normalized_digit(s.last()) {
            Some(d) => seq![d],
            None => Seq::empty(),
        }
    }
}

/// The normal form of the text of a number. A text with at least three
/// letters is read off the keypad: letters and ASCII digits give digits, and
/// everything else is dropped. Any other text keeps its digits only.
pub open spec fn normalized(s: Seq<char>) -> Seq<char> {
    if is_alpha_text(s) {
        normalized_through(CharMapping::AlphaPhone, true, s)
    } else {
        digits_only(s)
    }
}

pub proof fn lemma_keypad_form_is_digits(s: Seq<char>)
    ensures
        all_ascii_digits(normalized_through(CharMapping::AlphaPhone, true, s)),
    decreases s.len(),
{
    if s.len() > 0 {
        lemma_keypad_form_is_digits(s.drop_last());
    }
}

pub proof fn lemma_digits_only_is_digits(s: Seq<char>)
    ensures
        all_ascii_digits(digits_only(s)),
    decreases s.len(),
{
    if s.len() > 0 {
        lemma_digits_only_is_digits(s.drop_last());
    }
}

pub proof fn lemma_digits_are_fixed(s: Seq<char>)
    requires
        all_ascii_digits(s),
    ensures
        letter_count(s) == 0,
        digits_only(s) == s,
    decreases s.len(),
{
    if s.len() > 0 {
        lemma_digits_are_fixed(s.drop_last());
        assert(is_ascii_digit(s.last()));
        assert(digits_only(s) =~= s);
    } else {
        assert(digits_only(s) =~= s);
    }
}

/// The normal form of a number is a string of ASCII digits.
pub proof fn lemma_normalized_is_digits(s: Seq<char>)
    ensures
        all_ascii_digits(normalized(s)),
{
    lemma_keypad_form_is_digits(s);
    lemma_digits_only_is_digits(s);
}

/// Normalizing is idempotent: the normal form of a normal form is that
/// normal form.
pub proof fn lemma_normalize_is_idempotent(s: Seq<char>)
    ensures
        normalized(normalized(s)) == normalized(s),
{
    lemma_normalized_is_digits(s);
    lemma_digits_are_fixed(normalized(s));
}

/// Whether a text holds at least three ASCII letters.
pub fn has_three_letters(chars: &Vec<char>) -> (r: bool)
    ensures
        r == is_alpha_text(chars@),
{
    let mut count: usize = 0;
    let mut i: usize = 0;
    while i < chars.len()
        invariant
            i <= chars@.len(),
            count == letter_count(chars@.take(i as int)),
            count <= i,
        decreases chars@.len() - i,
    {
        proof {
            assert(chars@.take(i + 1).drop_last() == chars@.take(i as int));
            assert(chars@.take(i + 1).last() == chars@[i as int]);
        }
        if char_is_ascii_letter(chars[i]) {
            count += 1;
        }
        i += 1;
    }
    assert(chars@.take(i as int) == chars@);
    count >= 3
}

/// The digits of a text, as ASCII digits.
pub fn digits_of(chars: &Vec<char>) -> (digits: Vec<char>)
    ensures
        digits@ == digits_only(chars@),
{
    let mut digits: Vec<char> = Vec::new();
    let mut i: usize = 0;
    while i < chars.len()
        invariant
            i <= chars@.len(),
            digits@ == digits_only(chars@.take(i as int)),
        decreases chars@.len() - i,
    {
        proof {
            assert(chars@.take(i + 1).drop_last() == chars@.take(i as int));
            assert(chars@.take(i + 1).last() == chars@[i as int]);
        }
        match normalize_digit(chars[i]) {
            Some(d) => {
                digits.push(d);
                assert(digits@ == digits_only(chars@.take(i as int)) + seq![d]);
            },
            None => {
                assert(digits@ == digits_only(chars@.take(i as int)) + Seq::<char>::empty());
            },
        }
        i += 1;
    }
    assert(chars@.take(i as int) == chars@);
    digits
}

/// Whether a phone number can start with a character: a plus sign or a
/// decimal digit of any script.
pub open spec fn is_valid_start_char(c: char) -> bool {
    is_plus_char(c) || normalized_digit(c) is Some
}

/// A text without the characters at its end that cannot end a phone number.
pub open spec fn without_unwanted_end(s: Seq<char>) -> Seq<char>
    decreases s.len(),
{
    if s.len() == 0 {
        s
    } else if matches_fully(UNWANTED_END_CHAR@, seq![s.last()]) {
        without_unwanted_end(s.drop_last())
    } else {
        s
    }
}

/// The text of a capture group, if the match has that group and the group
/// took part in it.
pub open spec fn group_text(groups: Seq<Option<Seq<char>>>, i: int) -> Option<Seq<char>> {
    if 0 <= i < groups.len() {
        groups[i]
    } else {
        None
    }
}

/// A candidate number without the start of a second number: where a slash
/// and an `x` follow the number, what stands before them.
pub open spec fn up_to_second_number(s: Seq<char>) -> Seq<char> {
    match leftmost_captures(CAPTURE_UP_TO_SECOND_NUMBER_START@, s) {
        Some(c) => match group_text(c.1, 1) {
            Some(first) => first,
            None => s,
        },
        None => s,
    }
}

/// The candidate number in a text: the text from the first character that a
/// number can start with, without the characters at its end that cannot end a
/// number, and without the start of a second number.
pub open spec fn possible_number(s: Seq<char>) -> Result<Seq<char>, ExtractNumberError> {
    match first_index(s, |c: char| is_valid_start_char(c)) {
        None => Err(ExtractNumberError::NoValidStartCharacter),
        Some(start) => {
            let trimmed = without_unwanted_end(s.skip(start));
            if trimmed.len() == 0 {
                Err(ExtractNumberError::NotANumber)
            } else {
                Ok(up_to_second_number(trimmed))
            }
        },
    }
}

/// Whether a text follows the grammar of viable phone numbers: at least two
/// characters long, and a match of the pattern of valid numbers as a whole.
pub open spec fn is_viable(s: Seq<char>) -> bool {
    s.len() >= MIN_LENGTH_FOR_NSN && matches_fully(valid_phone_number_pattern_text(), s)
}

/// The first capture group from the given one on that took part in the match
/// and is not empty.
pub open spec fn first_present_group(groups: Seq<Option<Seq<char>>>, from: int) -> Option<
    Seq<char>,
>
    decreases groups.len() - from,
{
    if from < 0 || from >= groups.len() {
        None
    } else {
        match groups[from] {
            Some(g) => if g.len() > 0 {
                Some(g)
            } else {
                first_present_group(groups, from + 1)
            },
            None => first_present_group(groups, from + 1),
        }
    }
}

/// A number cut off from its extension: where the text ends in an extension
/// and what stands before the extension is a viable number by itself, that
/// number and the digits of the extension; otherwise the text as it is.
pub open spec fn without_extension(s: Seq<char>) -> (Seq<char>, Option<Seq<char>>) {
    match leftmost_captures(extn_pattern_at_end_text(), s) {
        Some(c) => if is_viable(c.0) {
            match first_present_group(c.1, 1) {
                Some(extension) => (c.0, Some(extension)),
                None => (s, None),
            }
        } else {
            (s, None)
        },
        None => (s, None),
    }
}

impl PhoneNumberUtilInternal {
    /// The normal form of the text of a number.
    pub fn normalize(&self, phone_number: &str) -> (r: String)
        ensures
            r@ == normalized(phone_number@),
    {
        let chars = chars_of(phone_number);
        if has_three_letters(&chars) {
            let mut number = phone_number.to_owned();
            normalize_helper(CharMapping::AlphaPhone, true, &mut number);
            number
        } else {
            string_of(&digits_of(&chars))
        }
    }

    /// The digits of a text, as ASCII digits.
    pub fn normalize_digits_only(&self, phone_number: &str) -> (r: String)
        ensures
            r@ == digits_only(phone_number@),
    {
        let chars = chars_of(phone_number);
        string_of(&digits_of(&chars))
    }

    /// The characters of a text that matter when dialling: ASCII digits,
    /// `+`, `*` and `#`.
    pub fn normalize_diallable_chars_only(&self, phone_number: &str) -> (r: String)
        ensures
            r@ == normalized_through(CharMapping::Diallable, true, phone_number@),
    {
        let mut number = phone_number.to_owned();
        normalize_helper(CharMapping::Diallable, true, &mut number);
        number
    }

    /// A text with every letter replaced by its keypad digit, and everything
    /// else as it is.
    pub fn convert_alpha_characters_in_number(&self, phone_number: &str) -> (r: String)
        ensures
            r@ == normalized_through(CharMapping::AlphaPhone, false, phone_number@),
    {
        let mut number = phone_number.to_owned();
        normalize_helper(CharMapping::AlphaPhone, false, &mut number);
        number
    }

    /// Whether a text follows the grammar of viable phone numbers.
    pub fn is_viable_phone_number(&self, phone_number: &str) -> (r: bool)
        requires
            self.reg_exps.wf(),
        ensures
            r == is_viable(phone_number@),
    {
        if phone_number.unicode_len() < MIN_LENGTH_FOR_NSN {
            false
        } else {
            self.reg_exps.valid_phone_number_pattern.full_match(phone_number)
        }
    }

    /// Cuts the candidate number out of a text. Fails if no character of the
    /// text can start a number, or if nothing is left once the characters
    /// that cannot end a number are trimmed.
    pub fn extract_possible_number(&self, phone_number: &str) -> (r: Result<
        String,
        ExtractNumberError,
    >)
        requires
            self.reg_exps.wf(),
        ensures
            match r {
                Ok(number) => possible_number(phone_number@) == Ok::<
                    Seq<char>,
                    ExtractNumberError,
                >(number@),
                Err(e) => possible_number(phone_number@) == Err::<Seq<char>, ExtractNumberError>(
                    e,
                ),
            },
    {
        let chars = chars_of(phone_number);
        let ghost p = |c: char| is_valid_start_char(c);
        let mut start: usize = 0;
        let mut found = false;
        while start < chars.len() && !found
            invariant
                start <= chars@.len(),
                p == (|c: char| is_valid_start_char(c)),
                forall|j: int| 0 <= j < start ==> !p(chars@[j]),
                found ==> start < chars@.len() && p(chars@[start as int]),
            decreases chars@.len() - start + if found { 0int } else { 1int },
        {
            if char_is_plus(chars[start]) || normalize_digit(chars[start]).is_some() {
                found = true;
            } else {
                start += 1;
            }
        }
        if !found {
            proof {
                lemma_first_index_none(chars@, p);
            }
            return Err(ExtractNumberError::NoValidStartCharacter);
        }
        proof {
            lemma_first_index_found(chars@, p, start as int);
        }
        let ghost rest = chars@.skip(start as int);
        let mut end: usize = chars.len();
        assert(chars@.subrange(start as int, end as int) == rest);
        let mut done = false;
        while end > start && !done
            invariant
                start <= end <= chars@.len(),
                self.reg_exps.wf(),
                without_unwanted_end(rest) == without_unwanted_end(
                    chars@.subrange(start as int, end as int),
                ),
                done ==> end > start && !matches_fully(
                    UNWANTED_END_CHAR@,
                    seq![chars@[end - 1]],
                ),
            decreases end + if done { 0int } else { 1int },
        {
            let mut last: Vec<char> = Vec::new();
            last.push(chars[end - 1]);
            let one = string_of(&last);
            let ghost current = chars@.subrange(start as int, end as int);
            assert(one@ == seq![current.last()]);
            assert(current.drop_last() == chars@.subrange(start as int, end - 1));
            if self.reg_exps.unwanted_end_char_pattern.full_match(one.as_str()) {
                end -= 1;
            } else {
                done = true;
            }
        }
        if end == start {
            assert(chars@.subrange(start as int, end as int).len() == 0);
            return Err(ExtractNumberError::NotANumber);
        }
        let extracted = substring(&chars, start, end);
        assert(extracted@ == without_unwanted_end(rest)) by {
            let current = chars@.subrange(start as int, end as int);
            assert(current.len() > 0);
            assert(current.last() == chars@[end - 1]);
        }
        match self.reg_exps.capture_up_to_second_number_start_pattern.captures(
            extracted.as_str(),
        ) {
            Some(c) => {
                if c.groups.len() > 1 {
                    assert(c.groups_view()[1] == crate::regex_util::group_view(c.groups@[1]));
                    match &c.groups[1] {
                        Some(first) => Ok(first.clone()),
                        None => Ok(extracted),
                    }
                } else {
                    Ok(extracted)
                }
            },
            None => Ok(extracted),
        }
    }

    /// Cuts a number off from its extension, where it has one.
    pub fn maybe_strip_extension(&self, phone_number: &str) -> (r: (String, Option<String>))
        requires
            self.reg_exps.wf(),
        ensures
            r.0@ == without_extension(phone_number@).0,
            crate::regex_util::group_view(r.1) == without_extension(phone_number@).1,
    {
        match self.reg_exps.extn_pattern.captures(phone_number) {
            Some(c) => {
                if self.is_viable_phone_number(c.before.as_str()) {
                    let mut i: usize = 1;
                    while i < c.groups.len()
                        invariant
                            1 <= i,
                            leftmost_captures(extn_pattern_at_end_text(), phone_number@) == Some(
                                c.parts(),
                            ),
                            is_viable(c.before@),
                            first_present_group(c.groups_view(), 1) == first_present_group(
                                c.groups_view(),
                                i as int,
                            ),
                        decreases c.groups@.len() - i,
                    {
                        assert(c.groups_view()[i as int] == crate::regex_util::group_view(
                            c.groups@[i as int],
                        ));
                        match &c.groups[i] {
                            Some(group) => {
                                if group.as_str().unicode_len() > 0 {
                                    return (c.before, Some(group.clone()));
                                }
                            },
                            None => {},
                        }
                        i += 1;
                    }
                    (phone_number.to_owned(), None)
                } else {
                    (phone_number.to_owned(), None)
                }
            },
            None => (phone_number.to_owned(), None),
        }
    }

    /// Whether a text is a viable number written with letters: at least
    /// three letters stand in it before any extension.
    pub open spec fn spec_is_alpha_number(phone_number: Seq<char>) -> bool {
        is_viable(phone_number) && is_alpha_text(without_extension(phone_number).0)
    }

    /// Whether a text is a viable number written with letters.
    pub fn is_alpha_number(&self, phone_number: &str) -> (r: bool)
        requires
            self.reg_exps.wf(),
        ensures
            r == Self::spec_is_alpha_number(phone_number@),
    {
        if !self.is_viable_phone_number(phone_number) {
            return false;
        }
        let stripped = self.maybe_strip_extension(phone_number);
        let chars = chars_of(stripped.0.as_str());
        has_three_letters(&chars)
    }
}

} // verus!
