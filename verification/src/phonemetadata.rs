//! The numbering-plan metadata: one record per region or non-geographical
//! calling code, each with its number descriptors and formatting rules.

use crate::regex_util::pattern_compiles;
use crate::text::{opt_str, text_of};
use vstd::prelude::*;

verus! {

/// Whether an optional pattern, where present, is accepted by the engine.
pub open spec fn optional_pattern_compiles(pattern: Option<String>) -> bool {
    match pattern {
        Some(p) => pattern_compiles(p@),
        None => true,
    }
}

/// The numbers of one category in one region: the pattern they follow and the
/// lengths they may have.
#[derive(Debug, Clone, PartialEq, Eq)]
pub struct PhoneNumberDesc {
    pub national_number_pattern: Option<String>,
    /// Sorted. Empty means "as the general descriptor"; a single -1 means
    /// that the region has no numbers of this category.
    pub possible_length: Vec<i32>,
    /// Lengths of numbers that can only be dialled locally; disjoint from
    /// `possible_length`.
    pub possible_length_local_only: Vec<i32>,
    pub example_number: Option<String>,
}

impl PhoneNumberDesc {
    /// Whether the descriptor holds nothing.
    pub open spec fn is_unset(&self) -> bool {
        &&& self.national_number_pattern.is_none()
        &&& self.possible_length@.len() == 0
        &&& self.possible_length_local_only@.len() == 0
        &&& self.example_number.is_none()
    }

    pub fn new() -> (desc: PhoneNumberDesc)
        ensures
            desc.is_unset(),
    {
        PhoneNumberDesc {
            national_number_pattern: None,
            possible_length: Vec::new(),
            possible_length_local_only: Vec::new(),
            example_number: None,
        }
    }

    /// Whether the pattern of this descriptor, where present, compiles.
    pub open spec fn patterns_compile(&self) -> bool {
        optional_pattern_compiles(self.national_number_pattern)
    }

    pub open spec fn spec_national_number_pattern(&self) -> Seq<char> {
        text_of(self.national_number_pattern)
    }

    pub fn national_number_pattern(&self) -> (text: &str)
        ensures
            text@ == self.spec_national_number_pattern(),
    {
        opt_str(&self.national_number_pattern)
    }

    pub fn has_national_number_pattern(&self) -> (set: bool)
        ensures
            set == self.national_number_pattern.is_some(),
    {
        self.national_number_pattern.is_some()
    }

    pub fn set_national_number_pattern(&mut self, text: String)
        ensures
            *final(self) == (PhoneNumberDesc { national_number_pattern: Some(text), ..*old(self) }),
    {
        self.national_number_pattern = Some(text);
    }

    pub fn clear_national_number_pattern(&mut self)
        ensures
            *final(self) == (PhoneNumberDesc { national_number_pattern: None, ..*old(self) }),
    {
        self.national_number_pattern = None;
    }

    pub open spec fn spec_example_number(&self) -> Seq<char> {
        text_of(self.example_number)
    }

    pub fn example_number(&self) -> (text: &str)
        ensures
            text@ == self.spec_example_number(),
    {
        opt_str(&self.example_number)
    }

    pub fn has_example_number(&self) -> (set: bool)
        ensures
            set == self.example_number.is_some(),
    {
        self.example_number.is_some()
    }

    pub fn set_example_number(&mut self, text: String)
        ensures
            *final(self) == (PhoneNumberDesc { example_number: Some(text), ..*old(self) }),
    {
        self.example_number = Some(text);
    }

    pub fn clear_example_number(&mut self)
        ensures
            *final(self) == (PhoneNumberDesc { example_number: None, ..*old(self) }),
    {
        self.example_number = None;
    }
}

/// One formatting rule: a pattern that cuts the national significant number
/// into groups and a template that puts the groups together again.
#[derive(Debug, Clone, PartialEq, Eq)]
pub struct NumberFormat {
    pub pattern: Option<String>,
    /// The template, with `$1`..`$9` standing for the groups.
    pub format: Option<String>,
    /// Patterns on the leading digits, the most specific one last.
    pub leading_digits_pattern: Vec<String>,
    /// A template with `$NP` for the national prefix and `$FG` for the first
    /// group.
    pub national_prefix_formatting_rule: Option<String>,
    pub national_prefix_optional_when_formatting: Option<bool>,
    /// A template with `$CC` for the carrier code, `$NP` and `$FG`.
    pub domestic_carrier_code_formatting_rule: Option<String>,
}

impl NumberFormat {
    pub fn new() -> (format: NumberFormat)
        ensures
            format.pattern.is_none(),
            format.format.is_none(),
            format.leading_digits_pattern@.len() == 0,
            format.national_prefix_formatting_rule.is_none(),
            format.national_prefix_optional_when_formatting.is_none(),
            format.domestic_carrier_code_formatting_rule.is_none(),
    {
        NumberFormat {
            pattern: None,
            format: None,
            leading_digits_pattern: Vec::new(),
            national_prefix_formatting_rule: None,
            national_prefix_optional_when_formatting: None,
            domestic_carrier_code_formatting_rule: None,
        }
    }

    /// Whether every pattern of this rule compiles.
    pub open spec fn patterns_compile(&self) -> bool {
        &&& pattern_compiles(self.spec_pattern())
        &&& forall|i: int|
            0 <= i < self.leading_digits_pattern@.len() ==> pattern_compiles(
                #[trigger] self.leading_digits_pattern@[i]@,
            )
    }

    pub open spec fn spec_national_prefix_optional_when_formatting(&self) -> bool {
        self.national_prefix_optional_when_formatting == Some(true)
    }

    pub fn national_prefix_optional_when_formatting(&self) -> (flag: bool)
        ensures
            flag == self.spec_national_prefix_optional_when_formatting(),
    {
        match self.national_prefix_optional_when_formatting {
            Some(flag) => flag,
            None => false,
        }
    }

    pub fn set_national_prefix_optional_when_formatting(&mut self, flag: bool)
        ensures
            *final(self) == (NumberFormat {
                national_prefix_optional_when_formatting: Some(flag),
                ..*old(self)
            }),
    {
        self.national_prefix_optional_when_formatting = Some(flag);
    }

    pub open spec fn spec_pattern(&self) -> Seq<char> {
        text_of(self.pattern)
    }

    pub fn pattern(&self) -> (text: &str)
        ensures
            text@ == self.spec_pattern(),
    {
        opt_str(&self.pattern)
    }

    pub fn has_pattern(&self) -> (set: bool)
        ensures
            set == self.pattern.is_some(),
    {
        self.pattern.is_some()
    }

    pub fn set_pattern(&mut self, text: String)
        ensures
            *final(self) == (NumberFormat { pattern: Some(text), ..*old(self) }),
    {
        self.pattern = Some(text);
    }

    pub fn clear_pattern(&mut self)
        ensures
            *final(self) == (NumberFormat { pattern: None, ..*old(self) }),
    {
        self.pattern = None;
    }

    pub open spec fn spec_format(&self) -> Seq<char> {
        text_of(self.format)
    }

    pub fn format(&self) -> (text: &str)
        ensures
            text@ == self.spec_format(),
    {
        opt_str(&self.format)
    }

    pub fn has_format(&self) -> (set: bool)
        ensures
            set == self.format.is_some(),
    {
        self.format.is_some()
    }

    pub fn set_format(&mut self, text: String)
        ensures
            *final(self) == (NumberFormat { format: Some(text), ..*old(self) }),
    {
        self.format = Some(text);
    }

    pub fn clear_format(&mut self)
        ensures
            *final(self) == (NumberFormat { format: None, ..*old(self) }),
    {
        self.format = None;
    }

    pub open spec fn spec_national_prefix_formatting_rule(&self) -> Seq<char> {
        text_of(self.national_prefix_formatting_rule)
    }

    pub fn national_prefix_formatting_rule(&self) -> (text: &str)
        ensures
            text@ == self.spec_national_prefix_formatting_rule(),
    {
        opt_str(&self.national_prefix_formatting_rule)
    }

    pub fn has_national_prefix_formatting_rule(&self) -> (set: bool)
        ensures
            set == self.national_prefix_formatting_rule.is_some(),
    {
        self.national_prefix_formatting_rule.is_some()
    }

    pub fn set_national_prefix_formatting_rule(&mut self, text: String)
        ensures
            *final(self) == (NumberFormat {
                national_prefix_formatting_rule: Some(text),
                ..*old(self)
            }),
    {
        self.national_prefix_formatting_rule = Some(text);
    }

    pub fn clear_national_prefix_formatting_rule(&mut self)
        ensures
            *final(self) == (NumberFormat { national_prefix_formatting_rule: None, ..*old(self) }),
    {
        self.national_prefix_formatting_rule = None;
    }

    pub open spec fn spec_domestic_carrier_code_formatting_rule(&self) -> Seq<char> {
        text_of(self.domestic_carrier_code_formatting_rule)
    }

    pub fn domestic_carrier_code_formatting_rule(&self) -> (text: &str)
        ensures
            text@ == self.spec_domestic_carrier_code_formatting_rule(),
    {
        opt_str(&self.domestic_carrier_code_formatting_rule)
    }

    pub fn has_domestic_carrier_code_formatting_rule(&self) -> (set: bool)
        ensures
            set == self.domestic_carrier_code_formatting_rule.is_some(),
    {
        self.domestic_carrier_code_formatting_rule.is_some()
    }

    pub fn set_domestic_carrier_code_formatting_rule(&mut self, text: String)
        ensures
            *final(self) == (NumberFormat {
                domestic_carrier_code_formatting_rule: Some(text),
                ..*old(self)
            }),
    {
        self.domestic_carrier_code_formatting_rule = Some(text);
    }

    pub fn clear_domestic_carrier_code_formatting_rule(&mut self)
        ensures
            *final(self) == (NumberFormat {
                domestic_carrier_code_formatting_rule: None,
                ..*old(self)
            }),
    {
        self.domestic_carrier_code_formatting_rule = None;
    }
}

/// The numbering plan of one region, or of one non-geographical calling code.
#[derive(Debug, Clone, PartialEq, Eq)]
pub struct PhoneMetadata {
    pub general_desc: PhoneNumberDesc,
    pub fixed_line: PhoneNumberDesc,
    pub mobile: PhoneNumberDesc,
    pub toll_free: PhoneNumberDesc,
    pub premium_rate: PhoneNumberDesc,
    pub shared_cost: PhoneNumberDesc,
    pub personal_number: PhoneNumberDesc,
    pub voip: PhoneNumberDesc,
    pub pager: PhoneNumberDesc,
    pub uan: PhoneNumberDesc,
    pub voicemail: PhoneNumberDesc,
    pub no_international_dialling: PhoneNumberDesc,
    /// The region code; "001" for a non-geographical entity.
    pub id: Option<String>,
    pub country_code: Option<i32>,
    /// The international dialling prefix, a pattern.
    pub international_prefix: Option<String>,
    pub preferred_international_prefix: Option<String>,
    pub national_prefix: Option<String>,
    pub preferred_extn_prefix: Option<String>,
    /// The pattern that recognises the national prefix, and possibly a
    /// carrier code, at the start of a number.
    pub national_prefix_for_parsing: Option<String>,
    /// What replaces the part matched by `national_prefix_for_parsing`.
    pub national_prefix_transform_rule: Option<String>,
    pub same_mobile_and_fixed_line_pattern: bool,
    pub number_format: Vec<NumberFormat>,
    pub intl_number_format: Vec<NumberFormat>,
    /// Set on the main region of a calling code that several regions share.
    pub main_country_for_code: bool,
    /// A pattern on the leading digits that tells this region from the others
    /// with the same calling code.
    pub leading_digits: Option<String>,
    pub mobile_number_portable_region: bool,
}

/// Whether every rule of a list has patterns that compile.
pub open spec fn formats_compile(formats: Seq<NumberFormat>) -> bool {
    forall|i: int| 0 <= i < formats.len() ==> (#[trigger] formats[i]).patterns_compile()
}

impl PhoneMetadata {
    pub fn new() -> (metadata: PhoneMetadata)
        ensures
            metadata.id.is_none(),
            metadata.country_code.is_none(),
            metadata.international_prefix.is_none(),
            metadata.preferred_international_prefix.is_none(),
            metadata.national_prefix.is_none(),
            metadata.preferred_extn_prefix.is_none(),
            metadata.national_prefix_for_parsing.is_none(),
            metadata.national_prefix_transform_rule.is_none(),
            metadata.leading_digits.is_none(),
            !metadata.same_mobile_and_fixed_line_pattern,
            !metadata.main_country_for_code,
            !metadata.mobile_number_portable_region,
            metadata.number_format@.len() == 0,
            metadata.intl_number_format@.len() == 0,
            metadata.general_desc.is_unset(),
            metadata.fixed_line.is_unset(),
            metadata.mobile.is_unset(),
            metadata.toll_free.is_unset(),
            metadata.premium_rate.is_unset(),
            metadata.shared_cost.is_unset(),
            metadata.personal_number.is_unset(),
            metadata.voip.is_unset(),
            metadata.pager.is_unset(),
            metadata.uan.is_unset(),
            metadata.voicemail.is_unset(),
            metadata.no_international_dialling.is_unset(),
    {
        PhoneMetadata {
            general_desc: PhoneNumberDesc::new(),
            fixed_line: PhoneNumberDesc::new(),
            mobile: PhoneNumberDesc::new(),
            toll_free: PhoneNumberDesc::new(),
            premium_rate: PhoneNumberDesc::new(),
            shared_cost: PhoneNumberDesc::new(),
            personal_number: PhoneNumberDesc::new(),
            voip: PhoneNumberDesc::new(),
            pager: PhoneNumberDesc::new(),
            uan: PhoneNumberDesc::new(),
            voicemail: PhoneNumberDesc::new(),
            no_international_dialling: PhoneNumberDesc::new(),
            id: None,
            country_code: None,
            international_prefix: None,
            preferred_international_prefix: None,
            national_prefix: None,
            preferred_extn_prefix: None,
            national_prefix_for_parsing: None,
            national_prefix_transform_rule: None,
            same_mobile_and_fixed_line_pattern: false,
            number_format: Vec::new(),
            intl_number_format: Vec::new(),
            main_country_for_code: false,
            leading_digits: None,
            mobile_number_portable_region: false,
        }
    }

    /// Whether every pattern held in this record compiles.
    pub open spec fn patterns_compile(&self) -> bool {
        &&& self.general_desc.patterns_compile()
        &&& self.fixed_line.patterns_compile()
        &&& self.mobile.patterns_compile()
        &&& self.toll_free.patterns_compile()
        &&& self.premium_rate.patterns_compile()
        &&& self.shared_cost.patterns_compile()
        &&& self.personal_number.patterns_compile()
        &&& self.voip.patterns_compile()
        &&& self.pager.patterns_compile()
        &&& self.uan.patterns_compile()
        &&& self.voicemail.patterns_compile()
        &&& self.no_international_dialling.patterns_compile()
        &&& optional_pattern_compiles(self.international_prefix)
        &&& optional_pattern_compiles(self.national_prefix_for_parsing)
        &&& optional_pattern_compiles(self.leading_digits)
        &&& formats_compile(self.number_format@)
        &&& formats_compile(self.intl_number_format@)
    }

    pub open spec fn spec_country_code(&self) -> i32 {
        match self.country_code {
            Some(code) => code,
            None => 0,
        }
    }

    pub fn country_code(&self) -> (code: i32)
        ensures
            code == self.spec_country_code(),
    {
        match self.country_code {
            Some(code) => code,
            None => 0,
        }
    }

    pub fn set_country_code(&mut self, code: i32)
        ensures
            *final(self) == (PhoneMetadata { country_code: Some(code), ..*old(self) }),
    {
        self.country_code = Some(code);
    }

    pub open spec fn spec_id(&self) -> Seq<char> {
        text_of(self.id)
    }

    pub fn id(&self) -> (text: &str)
        ensures
            text@ == self.spec_id(),
    {
        opt_str(&self.id)
    }

    pub fn has_id(&self) -> (set: bool)
        ensures
            set == self.id.is_some(),
    {
        self.id.is_some()
    }

    pub fn set_id(&mut self, text: String)
        ensures
            *final(self) == (PhoneMetadata { id: Some(text), ..*old(self) }),
    {
        self.id = Some(text);
    }

    pub fn clear_id(&mut self)
        ensures
            *final(self) == (PhoneMetadata { id: None, ..*old(self) }),
    {
        self.id = None;
    }

    pub open spec fn spec_international_prefix(&self) -> Seq<char> {
        text_of(self.international_prefix)
    }

    pub fn international_prefix(&self) -> (text: &str)
        ensures
            text@ == self.spec_international_prefix(),
    {
        opt_str(&self.international_prefix)
    }

    pub fn has_international_prefix(&self) -> (set: bool)
        ensures
            set == self.international_prefix.is_some(),
    {
        self.international_prefix.is_some()
    }

    pub fn set_international_prefix(&mut self, text: String)
        ensures
            *final(self) == (PhoneMetadata { international_prefix: Some(text), ..*old(self) }),
    {
        self.international_prefix = Some(text);
    }

    pub fn clear_international_prefix(&mut self)
        ensures
            *final(self) == (PhoneMetadata { international_prefix: None, ..*old(self) }),
    {
        self.international_prefix = None;
    }

    pub open spec fn spec_preferred_international_prefix(&self) -> Seq<char> {
        text_of(self.preferred_international_prefix)
    }

    pub fn preferred_international_prefix(&self) -> (text: &str)
        ensures
            text@ == self.spec_preferred_international_prefix(),
    {
        opt_str(&self.preferred_international_prefix)
    }

    pub fn has_preferred_international_prefix(&self) -> (set: bool)
        ensures
            set == self.preferred_international_prefix.is_some(),
    {
        self.preferred_international_prefix.is_some()
    }

    pub fn set_preferred_international_prefix(&mut self, text: String)
        ensures
            *final(self) == (PhoneMetadata {
                preferred_international_prefix: Some(text),
                ..*old(self)
            }),
    {
        self.preferred_international_prefix = Some(text);
    }

    pub fn clear_preferred_international_prefix(&mut self)
        ensures
            *final(self) == (PhoneMetadata { preferred_international_prefix: None, ..*old(self) }),
    {
        self.preferred_international_prefix = None;
    }

    pub open spec fn spec_national_prefix(&self) -> Seq<char> {
        text_of(self.national_prefix)
    }

    pub fn national_prefix(&self) -> (text: &str)
        ensures
            text@ == self.spec_national_prefix(),
    {
        opt_str(&self.national_prefix)
    }

    pub fn has_national_prefix(&self) -> (set: bool)
        ensures
            set == self.national_prefix.is_some(),
    {
        self.national_prefix.is_some()
    }

    pub fn set_national_prefix(&mut self, text: String)
        ensures
            *final(self) == (PhoneMetadata { national_prefix: Some(text), ..*old(self) }),
    {
        self.national_prefix = Some(text);
    }

    pub fn clear_national_prefix(&mut self)
        ensures
            *final(self) == (PhoneMetadata { national_prefix: None, ..*old(self) }),
    {
        self.national_prefix = None;
    }

    pub open spec fn spec_preferred_extn_prefix(&self) -> Seq<char> {
        text_of(self.preferred_extn_prefix)
    }

    pub fn preferred_extn_prefix(&self) -> (text: &str)
        ensures
            text@ == self.spec_preferred_extn_prefix(),
    {
        opt_str(&self.preferred_extn_prefix)
    }

    pub fn has_preferred_extn_prefix(&self) -> (set: bool)
        ensures
            set == self.preferred_extn_prefix.is_some(),
    {
        self.preferred_extn_prefix.is_some()
    }

    pub fn set_preferred_extn_prefix(&mut self, text: String)
        ensures
            *final(self) == (PhoneMetadata { preferred_extn_prefix: Some(text), ..*old(self) }),
    {
        self.preferred_extn_prefix = Some(text);
    }

    pub fn clear_preferred_extn_prefix(&mut self)
        ensures
            *final(self) == (PhoneMetadata { preferred_extn_prefix: None, ..*old(self) }),
    {
        self.preferred_extn_prefix = None;
    }

    pub open spec fn spec_national_prefix_for_parsing(&self) -> Seq<char> {
        text_of(self.national_prefix_for_parsing)
    }

    pub fn national_prefix_for_parsing(&self) -> (text: &str)
        ensures
            text@ == self.spec_national_prefix_for_parsing(),
    {
        opt_str(&self.national_prefix_for_parsing)
    }

    pub fn has_national_prefix_for_parsing(&self) -> (set: bool)
        ensures
            set == self.national_prefix_for_parsing.is_some(),
    {
        self.national_prefix_for_parsing.is_some()
    }

    pub fn set_national_prefix_for_parsing(&mut self, text: String)
        ensures
            *final(self) == (PhoneMetadata {
                national_prefix_for_parsing: Some(text),
                ..*old(self)
            }),
    {
        self.national_prefix_for_parsing = Some(text);
    }

    pub fn clear_national_prefix_for_parsing(&mut self)
        ensures
            *final(self) == (PhoneMetadata { national_prefix_for_parsing: None, ..*old(self) }),
    {
        self.national_prefix_for_parsing = None;
    }

    pub open spec fn spec_national_prefix_transform_rule(&self) -> Seq<char> {
        text_of(self.national_prefix_transform_rule)
    }

    pub fn national_prefix_transform_rule(&self) -> (text: &str)
        ensures
            text@ == self.spec_national_prefix_transform_rule(),
    {
        opt_str(&self.national_prefix_transform_rule)
    }

    pub fn has_national_prefix_transform_rule(&self) -> (set: bool)
        ensures
            set == self.national_prefix_transform_rule.is_some(),
    {
        self.national_prefix_transform_rule.is_some()
    }

    pub fn set_national_prefix_transform_rule(&mut self, text: String)
        ensures
            *final(self) == (PhoneMetadata {
                national_prefix_transform_rule: Some(text),
                ..*old(self)
            }),
    {
        self.national_prefix_transform_rule = Some(text);
    }

    pub fn clear_national_prefix_transform_rule(&mut self)
        ensures
            *final(self) == (PhoneMetadata { national_prefix_transform_rule: None, ..*old(self) }),
    {
        self.national_prefix_transform_rule = None;
    }

    pub open spec fn spec_leading_digits(&self) -> Seq<char> {
        text_of(self.leading_digits)
    }

    pub fn leading_digits(&self) -> (text: &str)
        ensures
            text@ == self.spec_leading_digits(),
    {
        opt_str(&self.leading_digits)
    }

    pub fn has_leading_digits(&self) -> (set: bool)
        ensures
            set == self.leading_digits.is_some(),
    {
        self.leading_digits.is_some()
    }

    pub fn set_leading_digits(&mut self, text: String)
        ensures
            *final(self) == (PhoneMetadata { leading_digits: Some(text), ..*old(self) }),
    {
        self.leading_digits = Some(text);
    }

    pub fn clear_leading_digits(&mut self)
        ensures
            *final(self) == (PhoneMetadata { leading_digits: None, ..*old(self) }),
    {
        self.leading_digits = None;
    }
}

/// The metadata of every region and non-geographical calling code.
#[derive(Debug, Clone, PartialEq, Eq)]
pub struct PhoneMetadataCollection {
    pub metadata: Vec<PhoneMetadata>,
}

impl PhoneMetadataCollection {
    pub fn new() -> (collection: PhoneMetadataCollection)
        ensures
            collection.metadata@.len() == 0,
    {
        PhoneMetadataCollection { metadata: Vec::new() }
    }
}

} // verus!
