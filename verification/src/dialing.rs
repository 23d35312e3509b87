//! Formatting for dialling from a mobile phone, and the lengths of area
//! codes and national destination codes.

use crate::char_mappings::{
    country_without_national_prefix_with_area_codes, geo_mobile_country_without_mobile_area_codes,
    get_mobile_token, is_country_without_national_prefix_with_area_codes,
    is_geo_mobile_country_without_mobile_area_codes, mobile_token, CharMapping,
};
use crate::enums::{NumberLengthType, PhoneNumberFormat, PhoneNumberType};
use crate::errors::ValidationError;
use crate::formatting::{digit_group_lengths, digit_groups};
use crate::helper_constants::{NANPA_COUNTRY_CODE, REGION_CODE_FOR_NON_GEO_ENTITY};
use crate::helper_functions::{
    normalized_through, number_length_class, test_number_length_with_unknown_type,
};
use crate::phonenumber::{PhoneNumber, PhoneNumberModel};
use crate::phonenumberutil_internal::PhoneNumberUtilInternal;
use crate::text::str_equal;
use crate::validation::{
    copy_of, is_geographical, national_significant_number, number_type_is_geographical,
};
use vstd::prelude::*;
use vstd::string::*;

verus! {

/// Whether a type is fixed line, mobile, or the mix of the two.
pub open spec fn is_fixed_line_or_mobile(phone_number_type: PhoneNumberType) -> bool {
    phone_number_type == PhoneNumberType::FixedLine || phone_number_type
        == PhoneNumberType::Mobile || phone_number_type == PhoneNumberType::FixedLineOrMobile
}

/// Whether numbers of a region are written in the international style even
/// when dialled inside the region: the non-geographical entities always,
/// and fixed-line and mobile numbers of Mexico, Chile and Uzbekistan.
pub open spec fn dials_internationally_at_home(
    region_code: Seq<char>,
    phone_number_type: PhoneNumberType,
) -> bool {
    region_code == REGION_CODE_FOR_NON_GEO_ENTITY@ || ((region_code == "MX"@ || region_code
        == "CL"@ || region_code == "UZ"@) && is_fixed_line_or_mobile(phone_number_type))
}

impl PhoneNumberUtilInternal {
    /// A phone number in the form in which a mobile phone in a region dials
    /// it; empty where the number cannot be dialled from there.
    ///
    /// The extension is left out. Inside the region of the number the
    /// national style is used, with these exceptions: in Brazil fixed-line
    /// and mobile numbers need a carrier code, and come out empty without
    /// one; in the North American Numbering Plan the international style is
    /// used for every number that can be dialled from abroad and is not too
    /// short; numbers of regions that dial internationally at home get the
    /// international style if they can be dialled from abroad. From outside
    /// the region a valid number that can be dialled from abroad is written
    /// in the international style, or as E164 without formatting. Without
    /// formatting, only the characters that matter when dialling are kept.
    pub open spec fn spec_format_number_for_mobile_dialing(
        &self,
        number: PhoneNumberModel,
        calling_from: Seq<char>,
        with_formatting: bool,
    ) -> Seq<char> {
        let country_code = number.spec_country_code();
        if !self.spec_has_valid_country_calling_code(country_code) {
            number.spec_raw_input()
        } else {
            let no_extension = PhoneNumberModel { extension: None, ..number };
            let region_code = self.spec_region_code_for_country_code(country_code);
            let number_type = self.spec_number_type(no_extension);
            let diallable_from_abroad = self.spec_can_be_internationally_dialled(no_extension);
            if calling_from == region_code {
                let formatted = if region_code == "BR"@ && is_fixed_line_or_mobile(number_type) {
                    if no_extension.spec_preferred_domestic_carrier_code().len() > 0 {
                        self.spec_formatted_with_carrier(
                            no_extension,
                            PhoneNumberFormat::National,
                            no_extension.spec_preferred_domestic_carrier_code(),
                        )
                    } else {
                        Seq::empty()
                    }
                } else if country_code == NANPA_COUNTRY_CODE {
                    let not_too_short = match self.spec_metadata_for_region(calling_from) {
                        Some(m) => number_length_class(
                            national_significant_number(no_extension).len() as int,
                            m,
                            PhoneNumberType::Unknown,
                        ) != Err::<NumberLengthType, ValidationError>(ValidationError::TooShort),
                        None => false,
                    };
                    if diallable_from_abroad && not_too_short {
                        self.spec_format(no_extension, PhoneNumberFormat::International)
                    } else {
                        self.spec_format(no_extension, PhoneNumberFormat::National)
                    }
                } else if dials_internationally_at_home(region_code, number_type)
                    && diallable_from_abroad {
                    self.spec_format(no_extension, PhoneNumberFormat::International)
                } else {
                    self.spec_format(no_extension, PhoneNumberFormat::National)
                };
                if with_formatting {
                    formatted
                } else {
                    normalized_through(CharMapping::Diallable, true, formatted)
                }
            } else if number_type != PhoneNumberType::Unknown && diallable_from_abroad {
                if with_formatting {
                    self.spec_format(no_extension, PhoneNumberFormat::International)
                } else {
                    self.spec_format(no_extension, PhoneNumberFormat::E164)
                }
            } else {
                Seq::empty()
            }
        }
    }

    /// Formats a phone number for dialling from a mobile phone in a region.
    pub fn format_number_for_mobile_dialing(
        &self,
        phone_number: &PhoneNumber,
        calling_from: &str,
        with_formatting: bool,
    ) -> (r: String)
        requires
            self.wf(),
        ensures
            r@ == self.spec_format_number_for_mobile_dialing(
                phone_number@,
                calling_from@,
                with_formatting,
            ),
    {
        let country_calling_code = phone_number.country_code();
        if !self.has_valid_country_calling_code(country_calling_code) {
            return phone_number.raw_input().to_owned();
        }
        // The extension cannot be dialled together with the number.
        let mut number_no_extension = copy_of(phone_number);
        number_no_extension.clear_extension();
        let region_code = self.get_region_code_for_country_code(country_calling_code);
        let number_type = self.get_number_type(&number_no_extension);
        let is_valid_number = match number_type {
            PhoneNumberType::Unknown => false,
            _ => true,
        };
        let is_fixed_line_or_mobile = match number_type {
            PhoneNumberType::FixedLine
            | PhoneNumberType::Mobile
            | PhoneNumberType::FixedLineOrMobile => true,
            _ => false,
        };
        let formatted_number = if str_equal(calling_from, region_code) {
            if str_equal(region_code, "BR") && is_fixed_line_or_mobile {
                // Most carriers in Brazil do not connect a call that is
                // dialled without a carrier code.
                if number_no_extension.preferred_domestic_carrier_code().unicode_len() > 0 {
                    self.format_national_number_with_carrier_code(
                        &number_no_extension,
                        number_no_extension.preferred_domestic_carrier_code(),
                    )
                } else {
                    crate::text::empty_str().to_owned()
                }
            } else if country_calling_code == NANPA_COUNTRY_CODE {
                // The international form always works inside the plan, but
                // for numbers that may be short numbers.
                let not_too_short = match self.get_metadata_for_region(calling_from) {
                    Some(region_metadata) => {
                        let national_number = self.get_national_significant_number(
                            &number_no_extension,
                        );
                        match test_number_length_with_unknown_type(
                            national_number.as_str(),
                            region_metadata,
                        ) {
                            Err(ValidationError::TooShort) => false,
                            _ => true,
                        }
                    },
                    None => false,
                };
                if self.can_be_internationally_dialled(&number_no_extension) && not_too_short {
                    self.format(&number_no_extension, PhoneNumberFormat::International)
                } else {
                    self.format(&number_no_extension, PhoneNumberFormat::National)
                }
            } else if (str_equal(region_code, REGION_CODE_FOR_NON_GEO_ENTITY) || ((str_equal(
                region_code,
                "MX",
            ) || str_equal(region_code, "CL") || str_equal(region_code, "UZ"))
                && is_fixed_line_or_mobile)) && self.can_be_internationally_dialled(
                &number_no_extension,
            ) {
                self.format(&number_no_extension, PhoneNumberFormat::International)
            } else {
                self.format(&number_no_extension, PhoneNumberFormat::National)
            }
        } else if is_valid_number && self.can_be_internationally_dialled(&number_no_extension) {
            // A number that is not valid is taken for a short number, and
            // short numbers cannot be dialled from abroad.
            return if with_formatting {
                self.format(&number_no_extension, PhoneNumberFormat::International)
            } else {
                self.format(&number_no_extension, PhoneNumberFormat::E164)
            };
        } else {
            return crate::text::empty_str().to_owned();
        };
        if with_formatting {
            formatted_number
        } else {
            self.normalize_diallable_chars_only(formatted_number.as_str())
        }
    }

    /// The length of the national destination code of a number: of the
    /// second group of digits of the number in the international style, the
    /// first being the calling code. For a mobile number of a calling code
    /// with a mobile token it is the length of the third group and the
    /// token. Zero where the number has fewer than three groups of digits.
    pub open spec fn spec_length_of_national_destination_code(&self, number: PhoneNumberModel)
        -> int {
        let no_extension = PhoneNumberModel { extension: None, ..number };
        let groups = digit_group_lengths(
            self.spec_format(no_extension, PhoneNumberFormat::International),
        );
        if groups.len() < 3 {
            0
        } else if self.spec_number_type(number) == PhoneNumberType::Mobile && mobile_token(
            number.spec_country_code(),
        ) is Some {
            groups[2] + 1
        } else {
            groups[1]
        }
    }

    /// The length of the national destination code of a number.
    pub fn get_length_of_national_destination_code(&self, phone_number: &PhoneNumber) -> (r:
        usize)
        requires
            self.wf(),
        ensures
            r as int == self.spec_length_of_national_destination_code(phone_number@),
    {
        let mut copied_proto = copy_of(phone_number);
        copied_proto.clear_extension();
        let formatted_number = self.format(&copied_proto, PhoneNumberFormat::International);
        let groups = digit_groups(formatted_number.as_str());
        // The first group is the calling code; a third must follow the
        // second, or there is no code before a subscriber number.
        if groups.len() < 3 {
            return 0;
        }
        let is_mobile = match self.get_number_type(phone_number) {
            PhoneNumberType::Mobile => true,
            _ => false,
        };
        if is_mobile && get_mobile_token(phone_number.country_code()).is_some() {
            assert(groups@[2] + 2 <= usize::MAX);
            return groups[2] + 1;
        }
        groups[1]
    }

    /// The length of the geographical area code of a number; zero for a
    /// number that has none.
    pub open spec fn spec_length_of_geographical_area_code(&self, number: PhoneNumberModel)
        -> int {
        match self.spec_metadata_for_region(self.spec_region_code_for_number(number)) {
            None => 0,
            Some(metadata) => {
                let number_type = self.spec_number_type(number);
                let country_calling_code = number.spec_country_code();
                if metadata.national_prefix is None && !number.spec_italian_leading_zero()
                    && !is_country_without_national_prefix_with_area_codes(country_calling_code) {
                    0
                } else if number_type == PhoneNumberType::Mobile
                    && is_geo_mobile_country_without_mobile_area_codes(country_calling_code) {
                    0
                } else if !is_geographical(number_type, country_calling_code) {
                    0
                } else {
                    self.spec_length_of_national_destination_code(number)
                }
            },
        }
    }

    /// The length of the geographical area code of a number.
    ///
    /// A region without a national prefix is taken to have no area codes,
    /// unless the number has a leading zero or the calling code is known to
    /// be an exception. Mobile numbers have none where they are assigned by
    /// place but not by area code. Numbers that are not tied to a place have
    /// none.
    pub fn get_length_of_geographical_area_code(&self, phone_number: &PhoneNumber) -> (r: usize)
        requires
            self.wf(),
        ensures
            r as int == self.spec_length_of_geographical_area_code(phone_number@),
    {
        let region_code = self.get_region_code_for_number(phone_number);
        let metadata = match self.get_metadata_for_region(region_code) {
            Some(m) => m,
            None => {
                return 0;
            },
        };
        let number_type = self.get_number_type(phone_number);
        let country_calling_code = phone_number.country_code();
        if !metadata.has_national_prefix() && !phone_number.italian_leading_zero()
            && !country_without_national_prefix_with_area_codes(country_calling_code) {
            return 0;
        }
        let is_mobile = match number_type {
            PhoneNumberType::Mobile => true,
            _ => false,
        };
        if is_mobile && geo_mobile_country_without_mobile_area_codes(country_calling_code) {
            return 0;
        }
        if !number_type_is_geographical(number_type, country_calling_code) {
            return 0;
        }
        self.get_length_of_national_destination_code(phone_number)
    }
}

} // verus!
