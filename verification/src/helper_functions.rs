//! Helpers on metadata records and phone number values that need no lookup
//! in the metadata store.

use crate::enums::{NumberLengthType, PhoneNumberFormat, PhoneNumberType};
use crate::errors::ValidationError;
use crate::phonemetadata::{PhoneMetadata, PhoneNumberDesc};
use crate::phonenumber::{PhoneNumber, PhoneNumberModel};
use crate::char_mappings::CharMapping;
use crate::helper_constants::{
    DIGITS, OPTIONAL_EXT_SUFFIX, PLUS_SIGN, POSSIBLE_CHARS_AFTER_EXT_LABEL,
    POSSIBLE_SEPARATORS_BETWEEN_NUMBER_AND_EXT_LABEL, RFC3966_EXTN_PREFIX, RFC3966_PREFIX,
};
use crate::text::{chars_of, decimal_repr, decimal_string, ends_with, string_of};
use vstd::prelude::*;
use vstd::string::*;

verus! {

/// The descriptor that a region keeps for a type of number. The mixed type
/// "fixed line or mobile" is looked up as fixed line, the unknown type as
/// the general descriptor.
pub open spec fn desc_by_type(metadata: PhoneMetadata, phone_number_type: PhoneNumberType)
    -> PhoneNumberDesc {
    match phone_number_type {
        PhoneNumberType::PremiumRate => metadata.premium_rate,
        PhoneNumberType::TollFree => metadata.toll_free,
        PhoneNumberType::Mobile => metadata.mobile,
        PhoneNumberType::FixedLine | PhoneNumberType::FixedLineOrMobile => metadata.fixed_line,
        PhoneNumberType::SharedCost => metadata.shared_cost,
        PhoneNumberType::VoIP => metadata.voip,
        PhoneNumberType::PersonalNumber => metadata.personal_number,
        PhoneNumberType::Pager => metadata.pager,
        PhoneNumberType::UAN => metadata.uan,
        PhoneNumberType::VoiceMail => metadata.voicemail,
        PhoneNumberType::Unknown => metadata.general_desc,
    }
}

/// The descriptor that a region keeps for a type of number.
pub fn get_number_desc_by_type(
    metadata: &PhoneMetadata,
    phone_number_type: PhoneNumberType,
) -> (desc: &PhoneNumberDesc)
    ensures
        *desc == desc_by_type(*metadata, phone_number_type),
{
    match phone_number_type {
        PhoneNumberType::PremiumRate => &metadata.premium_rate,
        PhoneNumberType::TollFree => &metadata.toll_free,
        PhoneNumberType::Mobile => &metadata.mobile,
        PhoneNumberType::FixedLine | PhoneNumberType::FixedLineOrMobile => &metadata.fixed_line,
        PhoneNumberType::SharedCost => &metadata.shared_cost,
        PhoneNumberType::VoIP => &metadata.voip,
        PhoneNumberType::PersonalNumber => &metadata.personal_number,
        PhoneNumberType::Pager => &metadata.pager,
        PhoneNumberType::UAN => &metadata.uan,
        PhoneNumberType::VoiceMail => &metadata.voicemail,
        PhoneNumberType::Unknown => &metadata.general_desc,
    }
}

/// Whether a descriptor says anything about lengths: it does not when its
/// only possible length is the sentinel -1.
pub open spec fn has_possible_number_data(desc: PhoneNumberDesc) -> bool {
    desc.possible_length@.len() != 1 || desc.possible_length@[0] != -1
}

pub fn desc_has_possible_number_data(desc: &PhoneNumberDesc) -> (has: bool)
    ensures
        has == has_possible_number_data(*desc),
{
    desc.possible_length.len() != 1 || desc.possible_length[0] != -1
}

/// Whether a descriptor holds any data at all: an example, lengths or a
/// pattern. Local-only lengths alone do not count.
pub open spec fn has_data(desc: PhoneNumberDesc) -> bool {
    desc.example_number.is_some() || has_possible_number_data(desc)
        || desc.national_number_pattern.is_some()
}

pub fn desc_has_data(desc: &PhoneNumberDesc) -> (has: bool)
    ensures
        has == has_data(*desc),
{
    desc.has_example_number() || desc_has_possible_number_data(desc)
        || desc.has_national_number_pattern()
}

/// Whether a region has numbers of a type that can be asked for on its own:
/// every type but the mixed and the unknown one, where the descriptor holds
/// data.
pub open spec fn is_supported_type(metadata: PhoneMetadata, t: PhoneNumberType) -> bool {
    t != PhoneNumberType::FixedLineOrMobile && t != PhoneNumberType::Unknown && has_data(
        desc_by_type(metadata, t),
    )
}

/// The supported types among the first `n` of all types, in declaration
/// order.
pub open spec fn supported_types_upto(metadata: PhoneMetadata, n: int) -> Seq<PhoneNumberType>
    decreases n,
{
    if n <= 0 {
        Seq::empty()
    } else {
        let t = crate::enums::all_phone_number_types()[n - 1];
        if is_supported_type(metadata, t) {
            supported_types_upto(metadata, n - 1).push(t)
        } else {
            supported_types_upto(metadata, n - 1)
        }
    }
}

/// The types of number that a region has metadata for, in declaration order.
pub open spec fn supported_types(metadata: PhoneMetadata) -> Seq<PhoneNumberType> {
    supported_types_upto(metadata, 12)
}

/// Adds to `types` the types of number that the region has metadata for.
pub fn get_supported_types_for_metadata(metadata: &PhoneMetadata, types: &mut Vec<PhoneNumberType>)
    ensures
        final(types)@ == old(types)@ + supported_types(*metadata),
{
    let all = PhoneNumberType::iter();
    let mut i: usize = 0;
    while i < all.len()
        invariant
            i <= 12,
            all@ == crate::enums::all_phone_number_types(),
            all@.len() == 12,
            types@ == old(types)@ + supported_types_upto(*metadata, i as int),
        decreases 12 - i,
    {
        let t = all[i];
        let keep = match t {
            PhoneNumberType::FixedLineOrMobile | PhoneNumberType::Unknown => false,
            _ => desc_has_data(get_number_desc_by_type(metadata, t)),
        };
        if keep {
            types.push(t);
        }
        proof {
            assert(types@ =~= old(types)@ + supported_types_upto(*metadata, i + 1));
        }
        i += 1;
    }
}

/// The smallest element of a sequence of lengths.
pub open spec fn min_length(lengths: Seq<i32>) -> int
    recommends
        lengths.len() > 0,
    decreases lengths.len(),
{
    if lengths.len() <= 1 {
        lengths[0] as int
    } else {
        let rest = min_length(lengths.drop_last());
        if (lengths.last() as int) < rest {
            lengths.last() as int
        } else {
            rest
        }
    }
}

/// The largest element of a sequence of lengths.
pub open spec fn max_length(lengths: Seq<i32>) -> int
    recommends
        lengths.len() > 0,
    decreases lengths.len(),
{
    if lengths.len() <= 1 {
        lengths[0] as int
    } else {
        let rest = max_length(lengths.drop_last());
        if (lengths.last() as int) > rest {
            lengths.last() as int
        } else {
            rest
        }
    }
}

/// Whether a length occurs in a sequence of lengths.
pub open spec fn has_length(lengths: Seq<i32>, n: int) -> bool {
    exists|i: int| 0 <= i < lengths.len() && lengths[i] as int == n
}

/// The lengths of a descriptor, or those of the general descriptor where it
/// states none.
pub open spec fn lengths_or_general(metadata: PhoneMetadata, desc: PhoneNumberDesc) -> Seq<i32> {
    if desc.possible_length@.len() == 0 {
        metadata.general_desc.possible_length@
    } else {
        desc.possible_length@
    }
}

/// For the mixed type: whether the fixed-line and the mobile lists are to be
/// merged.
pub open spec fn merges_mobile(metadata: PhoneMetadata, phone_number_type: PhoneNumberType)
    -> bool {
    phone_number_type == PhoneNumberType::FixedLineOrMobile && has_possible_number_data(
        metadata.fixed_line,
    ) && has_possible_number_data(metadata.mobile)
}

/// The type whose lists decide: the mixed type falls back to mobile where the
/// region has no fixed-line lengths.
pub open spec fn deciding_type(metadata: PhoneMetadata, phone_number_type: PhoneNumberType)
    -> PhoneNumberType {
    if phone_number_type == PhoneNumberType::FixedLineOrMobile && !has_possible_number_data(
        metadata.fixed_line,
    ) {
        PhoneNumberType::Mobile
    } else {
        phone_number_type
    }
}

/// The lengths a number of the given type may have in a region.
pub open spec fn possible_lengths(metadata: PhoneMetadata, phone_number_type: PhoneNumberType)
    -> Seq<i32> {
    let t = deciding_type(metadata, phone_number_type);
    let own = lengths_or_general(metadata, desc_by_type(metadata, t));
    if merges_mobile(metadata, phone_number_type) {
        own + lengths_or_general(metadata, metadata.mobile)
    } else {
        own
    }
}

/// The lengths a number of the given type may have when dialled locally.
pub open spec fn local_only_lengths(metadata: PhoneMetadata, phone_number_type: PhoneNumberType)
    -> Seq<i32> {
    let t = deciding_type(metadata, phone_number_type);
    let own = desc_by_type(metadata, t).possible_length_local_only@;
    if merges_mobile(metadata, phone_number_type) {
        own + metadata.mobile.possible_length_local_only@
    } else {
        own
    }
}

/// The class of a length against a list of possible lengths and a list of
/// local-only lengths.
pub open spec fn classify_length(lengths: Seq<i32>, local: Seq<i32>, n: int) -> Result<
    NumberLengthType,
    ValidationError,
> {
    if lengths.len() == 0 || min_length(lengths) == -1 {
        Err(ValidationError::InvalidLength)
    } else if has_length(local, n) {
        Ok(NumberLengthType::IsPossibleLocalOnly)
    } else if n < min_length(lengths) {
        Err(ValidationError::TooShort)
    } else if n > max_length(lengths) {
        Err(ValidationError::TooLong)
    } else if has_length(lengths, n) {
        Ok(NumberLengthType::IsPossible)
    } else {
        Err(ValidationError::InvalidLength)
    }
}

/// The class of a number of `n` digits as a number of the given type in a
/// region.
pub open spec fn number_length_class(
    n: int,
    metadata: PhoneMetadata,
    phone_number_type: PhoneNumberType,
) -> Result<NumberLengthType, ValidationError> {
    classify_length(
        possible_lengths(metadata, phone_number_type),
        local_only_lengths(metadata, phone_number_type),
        n,
    )
}

/// The smallest and the largest element of a non-empty list, and whether `n`
/// occurs in it.
fn survey(lengths: &Vec<i32>, n: usize) -> (r: (i32, i32, bool))
    requires
        lengths@.len() > 0,
    ensures
        r.0 as int == min_length(lengths@),
        r.1 as int == max_length(lengths@),
        r.2 == has_length(lengths@, n as int),
{
    let mut lo: i32 = lengths[0];
    let mut hi: i32 = lengths[0];
    let mut found: bool = lengths[0] >= 0 && lengths[0] as u64 == n as u64;
    let mut i: usize = 1;
    assert(lengths@.take(1).len() == 1);
    assert(has_length(lengths@.take(1), n as int) ==> found) by {
        if has_length(lengths@.take(1), n as int) {
            let k = choose|k: int| 0 <= k < 1 && lengths@.take(1)[k] as int == n as int;
            assert(lengths@.take(1)[k] == lengths@[0]);
        }
    }
    assert(found ==> has_length(lengths@.take(1), n as int)) by {
        if found {
            assert(lengths@.take(1)[0] as int == n as int);
        }
    }
    while i < lengths.len()
        invariant
            1 <= i <= lengths@.len(),
            lo as int == min_length(lengths@.take(i as int)),
            hi as int == max_length(lengths@.take(i as int)),
            found == has_length(lengths@.take(i as int), n as int),
        decreases lengths@.len() - i,
    {
        let x = lengths[i];
        proof {
            let next = lengths@.take(i + 1);
            let prev = lengths@.take(i as int);
            assert(next.drop_last() == prev);
            assert(next.last() == x);
            if has_length(prev, n as int) {
                let k = choose|k: int| 0 <= k < prev.len() && prev[k] as int == n as int;
                assert(next[k] as int == n as int);
            }
            if has_length(next, n as int) && !(x as int == n as int) {
                let k = choose|k: int| 0 <= k < next.len() && next[k] as int == n as int;
                assert(prev[k] as int == n as int);
            }
            if x as int == n as int {
                assert(next[i as int] as int == n as int);
            }
        }
        if x < lo {
            lo = x;
        }
        if x > hi {
            hi = x;
        }
        if x >= 0 && x as u64 == n as u64 {
            found = true;
        }
        i += 1;
    }
    assert(lengths@.take(i as int) == lengths@);
    (lo, hi, found)
}

/// Whether `n` occurs in a list of lengths.
fn occurs(lengths: &Vec<i32>, n: usize) -> (found: bool)
    ensures
        found == has_length(lengths@, n as int),
{
    if lengths.len() == 0 {
        false
    } else {
        survey(lengths, n).2
    }
}

/// A copy of `first` followed by a copy of `second`.
fn joined(first: &Vec<i32>, second: &Vec<i32>) -> (all: Vec<i32>)
    ensures
        all@ == first@ + second@,
{
    let mut all: Vec<i32> = Vec::new();
    let mut i: usize = 0;
    while i < first.len()
        invariant
            i <= first@.len(),
            all@ == first@.take(i as int),
        decreases first@.len() - i,
    {
        all.push(first[i]);
        assert(first@.take(i + 1) == first@.take(i as int).push(first@[i as int]));
        i += 1;
    }
    assert(first@.take(i as int) == first@);
    let mut j: usize = 0;
    while j < second.len()
        invariant
            j <= second@.len(),
            all@ == first@ + second@.take(j as int),
        decreases second@.len() - j,
    {
        all.push(second[j]);
        assert(second@.take(j + 1) == second@.take(j as int).push(second@[j as int]));
        assert(first@ + second@.take(j + 1) == (first@ + second@.take(j as int)).push(
            second@[j as int],
        ));
        j += 1;
    }
    assert(second@.take(j as int) == second@);
    all
}

/// Classifies the length of a national significant number against the
/// lengths that numbers of the given type may have in a region.
///
/// A type that the region does not have gives `InvalidLength`. Otherwise a
/// local-only length gives `IsPossibleLocalOnly`; a length below the shortest
/// gives `TooShort`, one above the longest `TooLong`; a listed length gives
/// `IsPossible`, and any other `InvalidLength`.
pub fn test_number_length(
    phone_number: &str,
    phone_metadata: &PhoneMetadata,
    phone_number_type: PhoneNumberType,
) -> (r: Result<NumberLengthType, ValidationError>)
    ensures
        r == number_length_class(phone_number@.len() as int, *phone_metadata, phone_number_type),
{
    let fixed_line_or_mobile = match phone_number_type {
        PhoneNumberType::FixedLineOrMobile => true,
        _ => false,
    };
    let deciding = if fixed_line_or_mobile && !desc_has_possible_number_data(
        &phone_metadata.fixed_line,
    ) {
        PhoneNumberType::Mobile
    } else {
        phone_number_type
    };
    let desc_for_type = get_number_desc_by_type(phone_metadata, deciding);
    let own = if desc_for_type.possible_length.len() == 0 {
        &phone_metadata.general_desc.possible_length
    } else {
        &desc_for_type.possible_length
    };
    let actual_length = phone_number.unicode_len();
    if fixed_line_or_mobile && desc_has_possible_number_data(&phone_metadata.fixed_line)
        && desc_has_possible_number_data(&phone_metadata.mobile) {
        let mobile = if phone_metadata.mobile.possible_length.len() == 0 {
            &phone_metadata.general_desc.possible_length
        } else {
            &phone_metadata.mobile.possible_length
        };
        let lengths = joined(own, mobile);
        let local = joined(
            &desc_for_type.possible_length_local_only,
            &phone_metadata.mobile.possible_length_local_only,
        );
        classify(&lengths, &local, actual_length)
    } else {
        classify(own, &desc_for_type.possible_length_local_only, actual_length)
    }
}

/// Classifies a length against a list of possible lengths and a list of
/// local-only lengths.
fn classify(lengths: &Vec<i32>, local: &Vec<i32>, n: usize) -> (r: Result<
    NumberLengthType,
    ValidationError,
>)
    ensures
        r == classify_length(lengths@, local@, n as int),
{
    if lengths.len() == 0 {
        return Err(ValidationError::InvalidLength);
    }
    let (lo, hi, listed) = survey(lengths, n);
    if lo == -1 {
        return Err(ValidationError::InvalidLength);
    }
    if occurs(local, n) {
        return Ok(NumberLengthType::IsPossibleLocalOnly);
    }
    if (n as i128) < (lo as i128) {
        Err(ValidationError::TooShort)
    } else if (n as i128) > (hi as i128) {
        Err(ValidationError::TooLong)
    } else if listed {
        Ok(NumberLengthType::IsPossible)
    } else {
        Err(ValidationError::InvalidLength)
    }
}

/// Classifies the length of a national significant number against the
/// lengths of the region as a whole.
pub fn test_number_length_with_unknown_type(phone_number: &str, phone_metadata: &PhoneMetadata)
    -> (r: Result<NumberLengthType, ValidationError>)
    ensures
        r == number_length_class(
            phone_number@.len() as int,
            *phone_metadata,
            PhoneNumberType::Unknown,
        ),
{
    test_number_length(phone_number, phone_metadata, PhoneNumberType::Unknown)
}

/// The five classes of a length are exhaustive and exclude each other: for
/// every region, type and length the classification gives exactly one of
/// them, and never the answer "invalid country code".
pub proof fn lemma_length_classification_is_total(
    n: int,
    metadata: PhoneMetadata,
    phone_number_type: PhoneNumberType,
)
    ensures
        ({
            let r = number_length_class(n, metadata, phone_number_type);
            let possible: int = if r == Ok::<NumberLengthType, ValidationError>(
                NumberLengthType::IsPossible,
            ) {
                1
            } else {
                0
            };
            let local: int = if r == Ok::<NumberLengthType, ValidationError>(
                NumberLengthType::IsPossibleLocalOnly,
            ) {
                1
            } else {
                0
            };
            let short: int = if r == Err::<NumberLengthType, ValidationError>(
                ValidationError::TooShort,
            ) {
                1
            } else {
                0
            };
            let long: int = if r == Err::<NumberLengthType, ValidationError>(
                ValidationError::TooLong,
            ) {
                1
            } else {
                0
            };
            let invalid: int = if r == Err::<NumberLengthType, ValidationError>(
                ValidationError::InvalidLength,
            ) {
                1
            } else {
                0
            };
            possible + local + short + long + invalid == 1
        }),
{
}

/// A formatted number with its calling code put in front, as the style asks:
/// nothing for the national style, `+<code>` for E164, `+<code> ` for the
/// international style, `tel:+<code>-` for RFC3966.
pub open spec fn with_country_calling_code(
    country_calling_code: i32,
    number_format: PhoneNumberFormat,
    formatted_number: Seq<char>,
) -> Seq<char> {
    match number_format {
        PhoneNumberFormat::E164 => PLUS_SIGN@ + decimal_repr(country_calling_code as int)
            + formatted_number,
        PhoneNumberFormat::International => PLUS_SIGN@ + decimal_repr(country_calling_code as int)
            + " "@ + formatted_number,
        PhoneNumberFormat::RFC3966 => RFC3966_PREFIX@ + PLUS_SIGN@ + decimal_repr(
            country_calling_code as int,
        ) + "-"@ + formatted_number,
        PhoneNumberFormat::National => formatted_number,
    }
}

/// Puts the calling code in front of a formatted number, as the style asks.
pub fn prefix_number_with_country_calling_code(
    country_calling_code: i32,
    number_format: PhoneNumberFormat,
    formatted_number: &mut String,
)
    ensures
        final(formatted_number)@ == with_country_calling_code(
            country_calling_code,
            number_format,
            old(formatted_number)@,
        ),
{
    match number_format {
        PhoneNumberFormat::National => {},
        PhoneNumberFormat::E164 => {
            let code = decimal_string(country_calling_code as i128);
            let mut out = String::from_str(PLUS_SIGN);
            out.append(code.as_str());
            out.append(formatted_number.as_str());
            *formatted_number = out;
        },
        PhoneNumberFormat::International => {
            let code = decimal_string(country_calling_code as i128);
            let mut out = String::from_str(PLUS_SIGN);
            out.append(code.as_str());
            out.append(" ");
            out.append(formatted_number.as_str());
            *formatted_number = out;
        },
        PhoneNumberFormat::RFC3966 => {
            let code = decimal_string(country_calling_code as i128);
            let mut out = String::from_str(RFC3966_PREFIX);
            out.append(PLUS_SIGN);
            out.append(code.as_str());
            out.append("-");
            out.append(formatted_number.as_str());
            *formatted_number = out;
        },
    }
}

/// Whether one national number, written in decimal, ends with the other.
/// Equal numbers do.
pub open spec fn national_number_is_suffix_of_the_other(
    first: PhoneNumberModel,
    second: PhoneNumberModel,
)
    -> bool {
    let a = decimal_repr(first.spec_national_number() as int);
    let b = decimal_repr(second.spec_national_number() as int);
    a.is_suffix_of(b) || b.is_suffix_of(a)
}

/// Whether one national number, written in decimal, ends with the other.
pub fn is_national_number_suffix_of_the_other(
    first_number: &PhoneNumber,
    second_number: &PhoneNumber,
) -> (r: bool)
    ensures
        r == national_number_is_suffix_of_the_other(first_number@, second_number@),
{
    let first = decimal_string(first_number.national_number() as i128);
    let second = decimal_string(second_number.national_number() as i128);
    let a = chars_of(first.as_str());
    let b = chars_of(second.as_str());
    ends_with(&a, &b) || ends_with(&b, &a)
}

/// The pattern of a capture group of one to `max_length` digits.
pub open spec fn extn_digits_text(max_length: u32) -> Seq<char> {
    "(["@ + DIGITS@ + "]{1,"@ + decimal_repr(max_length as int) + "})"@
}

/// The pattern of a capture group of one to `max_length` digits.
pub fn extn_digits(max_length: u32) -> (expr: String)
    ensures
        expr@ == extn_digits_text(max_length),
{
    let max_length_str = decimal_string(max_length as i128);
    let mut expr = String::from_str("([");
    expr.append(DIGITS);
    expr.append("]{1,");
    expr.append(max_length_str.as_str());
    expr.append("})");
    expr
}

/// Extension labels that leave no doubt, such as "ext." and "anexo".
pub const EXPLICIT_EXT_LABELS: &'static str =
    "(?:e?xt(?:ensi(?:o\u{0301}?|\u{00F3}))?n?|(?:\u{FF45})?\u{FF58}\u{FF54}(?:\u{FF4E})?|\u{0434}\u{043E}\u{0431}|anexo)";

/// One-character extension labels and other labels that are less common or
/// less clear.
pub const AMBIGUOUS_EXT_LABELS: &'static str =
    "(?:[x\u{FF58}#\u{FF03}~\u{FF5E}]|int|\u{FF49}\u{FF4E}\u{FF54})";

/// What separates a number from an extension that has no label.
pub const AMBIGUOUS_SEPARATOR: &'static str = "[- ]+";

/// Two commas or a semicolon: what dialler applications put before an
/// extension.
pub const AUTO_DIALLING_AND_EXT_LABELS_FOUND: &'static str = "(?:,{2}|;)";

/// The separators between number and extension label, without the comma.
pub const POSSIBLE_SEPARATORS_NUMBER_EXT_LABEL_NO_COMMA: &'static str = "[ \u{00A0}\\t]*";

/// The most digits of an extension after an explicit label.
pub const EXT_LIMIT_AFTER_EXPLICIT_LABEL: u32 = 20;

/// The most digits of an extension after a label used by dialler
/// applications.
pub const EXT_LIMIT_AFTER_LIKELY_LABEL: u32 = 15;

/// The most digits of an extension after an ambiguous label.
pub const EXT_LIMIT_AFTER_AMBIGUOUS_CHAR: u32 = 9;

/// The most digits of an extension that has no label.
pub const EXT_LIMIT_WHEN_NOT_SURE: u32 = 6;

/// The alternatives of the extension pattern that hold for matching and for
/// parsing alike: the RFC3966 form, explicit labels, ambiguous labels, and the
/// American form with a trailing hash.
pub open spec fn common_extn_pattern_text() -> Seq<char> {
    RFC3966_EXTN_PREFIX@ + extn_digits_text(EXT_LIMIT_AFTER_EXPLICIT_LABEL) + "|"@
        + POSSIBLE_SEPARATORS_BETWEEN_NUMBER_AND_EXT_LABEL@ + EXPLICIT_EXT_LABELS@
        + POSSIBLE_CHARS_AFTER_EXT_LABEL@ + extn_digits_text(EXT_LIMIT_AFTER_EXPLICIT_LABEL)
        + OPTIONAL_EXT_SUFFIX@ + "|"@ + POSSIBLE_SEPARATORS_BETWEEN_NUMBER_AND_EXT_LABEL@
        + AMBIGUOUS_EXT_LABELS@ + POSSIBLE_CHARS_AFTER_EXT_LABEL@ + extn_digits_text(
        EXT_LIMIT_AFTER_AMBIGUOUS_CHAR,
    ) + OPTIONAL_EXT_SUFFIX@ + "|"@ + AMBIGUOUS_SEPARATOR@ + extn_digits_text(
        EXT_LIMIT_WHEN_NOT_SURE,
    ) + "#"@
}

/// The pattern of everything that can introduce an extension. Each
/// alternative holds exactly one capture group, around the digits of the
/// extension. For parsing, two more alternatives are accepted: the forms used
/// by dialler applications, and a run of commas.
pub open spec fn extn_pattern_text(for_parsing: bool) -> Seq<char> {
    if for_parsing {
        common_extn_pattern_text() + "|"@ + POSSIBLE_SEPARATORS_NUMBER_EXT_LABEL_NO_COMMA@
            + AUTO_DIALLING_AND_EXT_LABELS_FOUND@ + POSSIBLE_CHARS_AFTER_EXT_LABEL@
            + extn_digits_text(EXT_LIMIT_AFTER_LIKELY_LABEL) + OPTIONAL_EXT_SUFFIX@ + "|"@
            + POSSIBLE_SEPARATORS_NUMBER_EXT_LABEL_NO_COMMA@ + "(?:,)+"@
            + POSSIBLE_CHARS_AFTER_EXT_LABEL@ + extn_digits_text(EXT_LIMIT_AFTER_AMBIGUOUS_CHAR)
            + OPTIONAL_EXT_SUFFIX@
    } else {
        common_extn_pattern_text()
    }
}

/// Builds the pattern of everything that can introduce an extension.
///
/// The more clearly a label announces an extension, the more digits the
/// extension may have: 20 after `;ext=` or an explicit label, 15 after the
/// forms used by dialler applications, 9 after an ambiguous label or a run of
/// commas, 6 where nothing but a separator and a trailing hash mark it.
pub fn create_extn_pattern(for_parsing: bool) -> (pattern: String)
    ensures
        pattern@ == extn_pattern_text(for_parsing),
{
    let explicit_digits = extn_digits(EXT_LIMIT_AFTER_EXPLICIT_LABEL);
    let likely_digits = extn_digits(EXT_LIMIT_AFTER_LIKELY_LABEL);
    let ambiguous_digits = extn_digits(EXT_LIMIT_AFTER_AMBIGUOUS_CHAR);
    let unsure_digits = extn_digits(EXT_LIMIT_WHEN_NOT_SURE);

    // The RFC3966 form.
    let mut pattern = String::from_str(RFC3966_EXTN_PREFIX);
    pattern.append(explicit_digits.as_str());
    pattern.append("|");
    // Explicit labels.
    pattern.append(POSSIBLE_SEPARATORS_BETWEEN_NUMBER_AND_EXT_LABEL);
    pattern.append(EXPLICIT_EXT_LABELS);
    pattern.append(POSSIBLE_CHARS_AFTER_EXT_LABEL);
    pattern.append(explicit_digits.as_str());
    pattern.append(OPTIONAL_EXT_SUFFIX);
    pattern.append("|");
    // Ambiguous labels.
    pattern.append(POSSIBLE_SEPARATORS_BETWEEN_NUMBER_AND_EXT_LABEL);
    pattern.append(AMBIGUOUS_EXT_LABELS);
    pattern.append(POSSIBLE_CHARS_AFTER_EXT_LABEL);
    pattern.append(ambiguous_digits.as_str());
    pattern.append(OPTIONAL_EXT_SUFFIX);
    pattern.append("|");
    // The American form, as in "- 503#".
    pattern.append(AMBIGUOUS_SEPARATOR);
    pattern.append(unsure_digits.as_str());
    pattern.append("#");
    if for_parsing {
        pattern.append("|");
        // The forms used by dialler applications.
        pattern.append(POSSIBLE_SEPARATORS_NUMBER_EXT_LABEL_NO_COMMA);
        pattern.append(AUTO_DIALLING_AND_EXT_LABELS_FOUND);
        pattern.append(POSSIBLE_CHARS_AFTER_EXT_LABEL);
        pattern.append(likely_digits.as_str());
        pattern.append(OPTIONAL_EXT_SUFFIX);
        pattern.append("|");
        // A run of commas.
        pattern.append(POSSIBLE_SEPARATORS_NUMBER_EXT_LABEL_NO_COMMA);
        pattern.append("(?:,)+");
        pattern.append(POSSIBLE_CHARS_AFTER_EXT_LABEL);
        pattern.append(ambiguous_digits.as_str());
        pattern.append(OPTIONAL_EXT_SUFFIX);
    }
    pattern
}

/// A character of a number after normalization: its replacement where the
/// table has one; otherwise nothing if characters without a replacement are
/// removed, and the character itself if they are kept.
pub open spec fn normalized_char(mapping: CharMapping, remove_non_matches: bool, c: char)
    -> Seq<char> {
    match mapping.replacement(c) {
        Some(r) => seq![r],
        None => if remove_non_matches {
            Seq::empty()
        } else {
            seq![c]
        },
    }
}

/// A number after normalization through a table, character by character.
pub open spec fn normalized_through(mapping: CharMapping, remove_non_matches: bool, s: Seq<char>)
    -> Seq<char>
    decreases s.len(),
{
    if s.len() == 0 {
        Seq::empty()
    } else {
        normalized_through(mapping, remove_non_matches, s.drop_last()) + normalized_char(
            mapping,
            remove_non_matches,
            s.last(),
        )
    }
}

/// Replaces every character of a number that the table knows (under its
/// upper-case form) by what the table holds for it. The other characters are
/// removed if `remove_non_matches` is set, and kept otherwise.
pub fn normalize_helper(mapping: CharMapping, remove_non_matches: bool, phone_number: &mut String)
    ensures
        final(phone_number)@ == normalized_through(mapping, remove_non_matches, old(phone_number)@),
{
    let chars = chars_of(phone_number.as_str());
    let mut normalized_number: Vec<char> = Vec::new();
    let mut i: usize = 0;
    while i < chars.len()
        invariant
            i <= chars@.len(),
            normalized_number@ == normalized_through(
                mapping,
                remove_non_matches,
                chars@.take(i as int),
            ),
        decreases chars@.len() - i,
    {
        let phone_char = chars[i];
        proof {
            assert(chars@.take(i + 1).drop_last() == chars@.take(i as int));
            assert(chars@.take(i + 1).last() == phone_char);
        }
        match mapping.replace(phone_char) {
            Some(replacement) => {
                normalized_number.push(replacement);
                assert(normalized_number@ == normalized_through(
                    mapping,
                    remove_non_matches,
                    chars@.take(i as int),
                ) + seq![replacement]);
            },
            None => {
                if !remove_non_matches {
                    normalized_number.push(phone_char);
                    assert(normalized_number@ == normalized_through(
                        mapping,
                        remove_non_matches,
                        chars@.take(i as int),
                    ) + seq![phone_char]);
                } else {
                    assert(normalized_number@ == normalized_through(
                        mapping,
                        remove_non_matches,
                        chars@.take(i as int),
                    ) + Seq::<char>::empty());
                }
            },
        }
        i += 1;
    }
    assert(chars@.take(i as int) == chars@);
    *phone_number = string_of(&normalized_number);
}

/// The fields that identify a phone number, copied onto another number: the
/// calling code and the national number always, the extension where there is
/// one, and the leading-zero state where the flag is set.
pub open spec fn with_core_fields_of(from_number: PhoneNumberModel, to_number: PhoneNumberModel)
    -> PhoneNumberModel {
    PhoneNumberModel {
        country_code: Some(from_number.spec_country_code()),
        national_number: Some(from_number.spec_national_number()),
        extension: if from_number.extension.is_some() {
            from_number.extension
        } else {
            to_number.extension
        },
        italian_leading_zero: if from_number.spec_italian_leading_zero() {
            Some(true)
        } else {
            to_number.italian_leading_zero
        },
        number_of_leading_zeros: if from_number.spec_italian_leading_zero() {
            Some(from_number.spec_number_of_leading_zeros())
        } else {
            to_number.number_of_leading_zeros
        },
        ..to_number
    }
}

/// Copies the fields that identify a phone number, and none of those that
/// record how the number was written.
pub fn copy_core_fields_only(from_number: &PhoneNumber, to_number: &mut PhoneNumber)
    ensures
        final(to_number)@ == with_core_fields_of(from_number@, old(to_number)@),
{
    to_number.set_country_code(from_number.country_code());
    to_number.set_national_number(from_number.national_number());
    if let Some(extension) = &from_number.extension {
        to_number.set_extension(extension.clone());
    }
    if from_number.italian_leading_zero() {
        to_number.set_italian_leading_zero(true);
        to_number.set_number_of_leading_zeros(from_number.number_of_leading_zeros());
    }
}

} // verus!
