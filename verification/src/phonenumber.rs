//! The phone number value.

use crate::enums::CountryCodeSource;
use crate::text::opt_str;
use vstd::prelude::*;

verus! {

/// A phone number in parsed form.
///
/// Leading zeros are never encoded inside `national_number`: they live in
/// `italian_leading_zero` and `number_of_leading_zeros`. Each field keeps
/// track of whether it was ever set; reading an unset field gives its default.
#[derive(Debug, Clone, PartialEq, Eq)]
pub struct PhoneNumber {
    pub country_code: Option<i32>,
    pub national_number: Option<u64>,
    pub extension: Option<String>,
    pub italian_leading_zero: Option<bool>,
    pub number_of_leading_zeros: Option<i32>,
    pub raw_input: Option<String>,
    pub country_code_source: Option<CountryCodeSource>,
    pub preferred_domestic_carrier_code: Option<String>,
}

/// The value of a phone number: its fields, with texts in place of strings.
pub struct PhoneNumberModel {
    pub country_code: Option<i32>,
    pub national_number: Option<u64>,
    pub extension: Option<Seq<char>>,
    pub italian_leading_zero: Option<bool>,
    pub number_of_leading_zeros: Option<i32>,
    pub raw_input: Option<Seq<char>>,
    pub country_code_source: Option<CountryCodeSource>,
    pub preferred_domestic_carrier_code: Option<Seq<char>>,
}

/// The text of an optional string.
pub open spec fn optional_text(field: Option<String>) -> Option<Seq<char>> {
    match field {
        Some(s) => Some(s@),
        None => None,
    }
}

impl View for PhoneNumber {
    type V = PhoneNumberModel;

    open spec fn view(&self) -> PhoneNumberModel {
        PhoneNumberModel {
            country_code: self.country_code,
            national_number: self.national_number,
            extension: optional_text(self.extension),
            italian_leading_zero: self.italian_leading_zero,
            number_of_leading_zeros: self.number_of_leading_zeros,
            raw_input: optional_text(self.raw_input),
            country_code_source: self.country_code_source,
            preferred_domestic_carrier_code: optional_text(self.preferred_domestic_carrier_code),
        }
    }
}

impl PhoneNumberModel {
    /// The number with no field set.
    pub open spec fn empty() -> PhoneNumberModel {
        PhoneNumberModel {
            country_code: None,
            national_number: None,
            extension: None,
            italian_leading_zero: None,
            number_of_leading_zeros: None,
            raw_input: None,
            country_code_source: None,
            preferred_domestic_carrier_code: None,
        }
    }

    pub open spec fn spec_country_code(&self) -> i32 {
        match self.country_code {
            Some(code) => code,
            None => 0,
        }
    }

    pub open spec fn spec_national_number(&self) -> u64 {
        match self.national_number {
            Some(n) => n,
            None => 0,
        }
    }

    pub open spec fn spec_extension(&self) -> Seq<char> {
        match self.extension {
            Some(s) => s,
            None => Seq::empty(),
        }
    }

    pub open spec fn spec_italian_leading_zero(&self) -> bool {
        self.italian_leading_zero == Some(true)
    }

    pub open spec fn spec_number_of_leading_zeros(&self) -> i32 {
        match self.number_of_leading_zeros {
            Some(n) => n,
            None => 1,
        }
    }

    pub open spec fn spec_raw_input(&self) -> Seq<char> {
        match self.raw_input {
            Some(s) => s,
            None => Seq::empty(),
        }
    }

    pub open spec fn spec_country_code_source(&self) -> CountryCodeSource {
        match self.country_code_source {
            Some(source) => source,
            None => CountryCodeSource::UNSPECIFIED,
        }
    }

    pub open spec fn spec_preferred_domestic_carrier_code(&self) -> Seq<char> {
        match self.preferred_domestic_carrier_code {
            Some(s) => s,
            None => Seq::empty(),
        }
    }
}

impl PhoneNumber {
    /// The number with no field set.
    pub open spec fn empty() -> PhoneNumber {
        PhoneNumber {
            country_code: None,
            national_number: None,
            extension: None,
            italian_leading_zero: None,
            number_of_leading_zeros: None,
            raw_input: None,
            country_code_source: None,
            preferred_domestic_carrier_code: None,
        }
    }

    pub open spec fn spec_country_code(&self) -> i32 {
        self@.spec_country_code()
    }

    pub open spec fn spec_national_number(&self) -> u64 {
        self@.spec_national_number()
    }

    pub open spec fn spec_extension(&self) -> Seq<char> {
        self@.spec_extension()
    }

    pub open spec fn spec_italian_leading_zero(&self) -> bool {
        self@.spec_italian_leading_zero()
    }

    pub open spec fn spec_number_of_leading_zeros(&self) -> i32 {
        self@.spec_number_of_leading_zeros()
    }

    pub open spec fn spec_raw_input(&self) -> Seq<char> {
        self@.spec_raw_input()
    }

    pub open spec fn spec_country_code_source(&self) -> CountryCodeSource {
        self@.spec_country_code_source()
    }

    pub open spec fn spec_preferred_domestic_carrier_code(&self) -> Seq<char> {
        self@.spec_preferred_domestic_carrier_code()
    }

    pub fn new() -> (number: PhoneNumber)
        ensures
            number == PhoneNumber::empty(),
    {
        PhoneNumber {
            country_code: None,
            national_number: None,
            extension: None,
            italian_leading_zero: None,
            number_of_leading_zeros: None,
            raw_input: None,
            country_code_source: None,
            preferred_domestic_carrier_code: None,
        }
    }

    /// Unsets every field.
    pub fn clear(&mut self)
        ensures
            *final(self) == PhoneNumber::empty(),
    {
        *self = PhoneNumber::new();
    }

    pub fn country_code(&self) -> (code: i32)
        ensures
            code == self.spec_country_code(),
    {
        match self.country_code {
            Some(code) => code,
            None => 0,
        }
    }

    pub fn has_country_code(&self) -> (set: bool)
        ensures
            set == self.country_code.is_some(),
    {
        self.country_code.is_some()
    }

    pub fn set_country_code(&mut self, code: i32)
        ensures
            *final(self) == (PhoneNumber { country_code: Some(code), ..*old(self) }),
    {
        self.country_code = Some(code);
    }

    pub fn clear_country_code(&mut self)
        ensures
            *final(self) == (PhoneNumber { country_code: None, ..*old(self) }),
    {
        self.country_code = None;
    }

    pub fn national_number(&self) -> (n: u64)
        ensures
            n == self.spec_national_number(),
    {
        match self.national_number {
            Some(n) => n,
            None => 0,
        }
    }

    pub fn has_national_number(&self) -> (set: bool)
        ensures
            set == self.national_number.is_some(),
    {
        self.national_number.is_some()
    }

    pub fn set_national_number(&mut self, n: u64)
        ensures
            *final(self) == (PhoneNumber { national_number: Some(n), ..*old(self) }),
    {
        self.national_number = Some(n);
    }

    pub fn extension(&self) -> (ext: &str)
        ensures
            ext@ == self.spec_extension(),
    {
        opt_str(&self.extension)
    }

    pub fn has_extension(&self) -> (set: bool)
        ensures
            set == self.extension.is_some(),
    {
        self.extension.is_some()
    }

    pub fn set_extension(&mut self, ext: String)
        ensures
            *final(self) == (PhoneNumber { extension: Some(ext), ..*old(self) }),
    {
        self.extension = Some(ext);
    }

    pub fn clear_extension(&mut self)
        ensures
            *final(self) == (PhoneNumber { extension: None, ..*old(self) }),
    {
        self.extension = None;
    }

    pub fn italian_leading_zero(&self) -> (flag: bool)
        ensures
            flag == self.spec_italian_leading_zero(),
    {
        match self.italian_leading_zero {
            Some(flag) => flag,
            None => false,
        }
    }

    pub fn has_italian_leading_zero(&self) -> (set: bool)
        ensures
            set == self.italian_leading_zero.is_some(),
    {
        self.italian_leading_zero.is_some()
    }

    pub fn set_italian_leading_zero(&mut self, flag: bool)
        ensures
            *final(self) == (PhoneNumber { italian_leading_zero: Some(flag), ..*old(self) }),
    {
        self.italian_leading_zero = Some(flag);
    }

    pub fn clear_italian_leading_zero(&mut self)
        ensures
            *final(self) == (PhoneNumber { italian_leading_zero: None, ..*old(self) }),
    {
        self.italian_leading_zero = None;
    }

    pub fn number_of_leading_zeros(&self) -> (n: i32)
        ensures
            n == self.spec_number_of_leading_zeros(),
    {
        match self.number_of_leading_zeros {
            Some(n) => n,
            None => 1,
        }
    }

    pub fn has_number_of_leading_zeros(&self) -> (set: bool)
        ensures
            set == self.number_of_leading_zeros.is_some(),
    {
        self.number_of_leading_zeros.is_some()
    }

    pub fn set_number_of_leading_zeros(&mut self, n: i32)
        ensures
            *final(self) == (PhoneNumber { number_of_leading_zeros: Some(n), ..*old(self) }),
    {
        self.number_of_leading_zeros = Some(n);
    }

    pub fn clear_number_of_leading_zeros(&mut self)
        ensures
            *final(self) == (PhoneNumber { number_of_leading_zeros: None, ..*old(self) }),
    {
        self.number_of_leading_zeros = None;
    }

    pub fn raw_input(&self) -> (raw: &str)
        ensures
            raw@ == self.spec_raw_input(),
    {
        opt_str(&self.raw_input)
    }

    pub fn has_raw_input(&self) -> (set: bool)
        ensures
            set == self.raw_input.is_some(),
    {
        self.raw_input.is_some()
    }

    pub fn set_raw_input(&mut self, raw: String)
        ensures
            *final(self) == (PhoneNumber { raw_input: Some(raw), ..*old(self) }),
    {
        self.raw_input = Some(raw);
    }

    pub fn clear_raw_input(&mut self)
        ensures
            *final(self) == (PhoneNumber { raw_input: None, ..*old(self) }),
    {
        self.raw_input = None;
    }

    pub fn country_code_source(&self) -> (source: CountryCodeSource)
        ensures
            source == self.spec_country_code_source(),
    {
        match self.country_code_source {
            Some(source) => source,
            None => CountryCodeSource::UNSPECIFIED,
        }
    }

    pub fn has_country_code_source(&self) -> (set: bool)
        ensures
            set == self.country_code_source.is_some(),
    {
        self.country_code_source.is_some()
    }

    pub fn set_country_code_source(&mut self, source: CountryCodeSource)
        ensures
            *final(self) == (PhoneNumber { country_code_source: Some(source), ..*old(self) }),
    {
        self.country_code_source = Some(source);
    }

    pub fn clear_country_code_source(&mut self)
        ensures
            *final(self) == (PhoneNumber { country_code_source: None, ..*old(self) }),
    {
        self.country_code_source = None;
    }

    pub fn preferred_domestic_carrier_code(&self) -> (code: &str)
        ensures
            code@ == self.spec_preferred_domestic_carrier_code(),
    {
        opt_str(&self.preferred_domestic_carrier_code)
    }

    pub fn has_preferred_domestic_carrier_code(&self) -> (set: bool)
        ensures
            set == self.preferred_domestic_carrier_code.is_some(),
    {
        self.preferred_domestic_carrier_code.is_some()
    }

    pub fn set_preferred_domestic_carrier_code(&mut self, code: String)
        ensures
            *final(self) == (PhoneNumber {
                preferred_domestic_carrier_code: Some(code),
                ..*old(self)
            }),
    {
        self.preferred_domestic_carrier_code = Some(code);
    }

    pub fn clear_preferred_domestic_carrier_code(&mut self)
        ensures
            *final(self) == (PhoneNumber { preferred_domestic_carrier_code: None, ..*old(self) }),
    {
        self.preferred_domestic_carrier_code = None;
    }
}

} // verus!
