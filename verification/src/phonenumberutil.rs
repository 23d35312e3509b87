//! The entry point of the library.

use crate::char_mappings::CharMapping;
use crate::enums::{MatchType, NumberLengthType, PhoneNumberFormat, PhoneNumberType};
use crate::errors::{
    ExtractNumberError, GetExampleNumberError, InternalLogicError, InvalidNumberError, ParseError,
    ValidationError,
};
use crate::helper_functions::{normalized_through, supported_types};
use crate::matching::match_of;
use crate::normalization::{digits_only, is_viable, normalized, possible_number, without_extension};
use crate::parsing::without_national_prefix;
use crate::phonemetadata::{
    formats_compile, optional_pattern_compiles, NumberFormat, PhoneMetadata,
    PhoneMetadataCollection,
};
use crate::phonenumber::{PhoneNumber, PhoneNumberModel};
use crate::phonenumberutil_internal::{
    check_formats, check_optional_pattern, str_views, PhoneNumberUtilInternal,
};
use crate::regex_based_matcher::matches_national_number;
use crate::regex_util::{group_view, pattern_compiles};
use crate::validation::national_significant_number;
use vstd::prelude::*;

verus! {

/// Parsing, formatting, validation and comparison of phone numbers against
/// one collection of metadata.
///
/// A value of this type holds an engine that is well formed: every pattern
/// in its metadata was accepted by the regular-expression engine when the
/// value was built. That is why no operation on it can fail for a broken
/// pattern.
pub struct PhoneNumberUtil {
    util_internal: PhoneNumberUtilInternal,
}

impl PhoneNumberUtil {
    #[verifier::type_invariant]
    spec fn well_formed(&self) -> bool {
        self.util_internal.wf()
    }

    /// The engine behind this value.
    pub closed spec fn internal(&self) -> PhoneNumberUtilInternal {
        self.util_internal
    }

    /// Builds the entry point on a collection of metadata. Fails exactly
    /// when the regular-expression engine refuses a pattern of the number
    /// grammar or of a record.
    pub fn new(
        metadata: PhoneMetadataCollection,
    ) -> (r: Result<PhoneNumberUtil, InternalLogicError>)
        ensures
            r is Ok <==> PhoneNumberUtilInternal::can_be_built_on(metadata.metadata@),
            r matches Ok(util) ==> util.internal().wf() && util.internal().metadata
                == metadata.metadata,
            r matches Err(e) ==> (e matches InternalLogicError::InvalidRegex(broken)
                && !pattern_compiles(broken.pattern@)),
    {
        match PhoneNumberUtilInternal::new_for_metadata(metadata) {
            Ok(util_internal) => Ok(PhoneNumberUtil { util_internal }),
            Err(e) => Err(e),
        }
    }

    /// Builds the entry point on a collection of metadata.
    pub fn new_for_metadata(metadata: PhoneMetadataCollection) -> (r: Result<
        PhoneNumberUtil,
        InternalLogicError,
    >)
        ensures
            r is Ok <==> PhoneNumberUtilInternal::can_be_built_on(metadata.metadata@),
            r matches Ok(util) ==> util.internal().wf() && util.internal().metadata
                == metadata.metadata,
            r matches Err(e) ==> (e matches InternalLogicError::InvalidRegex(broken)
                && !pattern_compiles(broken.pattern@)),
    {
        Self::new(metadata)
    }

    /// Whether a phone number can be dialled from abroad.
    pub fn can_be_internationally_dialled(&self, phone_number: &PhoneNumber) -> (r: bool)
        ensures
            r == self.internal().spec_can_be_internationally_dialled(phone_number@),
    {
        proof {
            use_type_invariant(self);
        }
        self.util_internal.can_be_internationally_dialled(phone_number)
    }

    /// A text with every letter replaced by its keypad digit, and everything
    /// else as it is.
    pub fn convert_alpha_characters_in_number(&self, number: &str) -> (r: String)
        ensures
            r@ == normalized_through(CharMapping::AlphaPhone, false, number@),
    {
        proof {
            use_type_invariant(self);
        }
        self.util_internal.convert_alpha_characters_in_number(number)
    }

    /// Formats a phone number in a style.
    pub fn format(
        &self,
        phone_number: &PhoneNumber,
        number_format: PhoneNumberFormat,
    ) -> (r: String)
        ensures
            r@ == self.internal().spec_format(phone_number@, number_format),
    {
        proof {
            use_type_invariant(self);
        }
        self.util_internal.format(phone_number, number_format)
    }

    /// Formats a phone number in the form it was written in, as far as the
    /// number remembers it.
    pub fn format_in_original_format(
        &self,
        phone_number: &PhoneNumber,
        region_calling_from: &str,
    ) -> (r: String)
        ensures
            r@ == self.internal().spec_format_in_original_format(
                phone_number@,
                region_calling_from@,
            ),
    {
        proof {
            use_type_invariant(self);
        }
        self.util_internal.format_in_original_format(phone_number, region_calling_from)
    }

    /// Formats a phone number in the national style, with a carrier code.
    pub fn format_national_number_with_carrier_code(
        &self,
        phone_number: &PhoneNumber,
        carrier_code: &str,
    ) -> (r: String)
        ensures
            r@ == self.internal().spec_formatted_with_carrier(
                phone_number@,
                PhoneNumberFormat::National,
                carrier_code@,
            ),
    {
        proof {
            use_type_invariant(self);
        }
        self.util_internal.format_national_number_with_carrier_code(phone_number, carrier_code)
    }

    /// Formats a phone number in the national style, with the carrier code
    /// that the number prefers, or with the fallback where it prefers none.
    pub fn format_national_number_with_preferred_carrier_code(
        &self,
        phone_number: &PhoneNumber,
        fallback_carrier_code: &str,
    ) -> (r: String)
        ensures
            r@ == self.internal().spec_formatted_with_carrier(
                phone_number@,
                PhoneNumberFormat::National,
                PhoneNumberUtilInternal::preferred_carrier_code(
                    phone_number@,
                    fallback_carrier_code@,
                ),
            ),
    {
        proof {
            use_type_invariant(self);
        }
        self.util_internal.format_national_number_with_preferred_carrier_code(
            phone_number,
            fallback_carrier_code,
        )
    }

    /// Formats a phone number for dialling from a mobile phone in a region;
    /// empty where the number cannot be dialled from there.
    pub fn format_number_for_mobile_dialing(
        &self,
        phone_number: &PhoneNumber,
        region_calling_from: &str,
        with_formatting: bool,
    ) -> (r: String)
        ensures
            r@ == self.internal().spec_format_number_for_mobile_dialing(
                phone_number@,
                region_calling_from@,
                with_formatting,
            ),
    {
        proof {
            use_type_invariant(self);
        }
        self.util_internal.format_number_for_mobile_dialing(
            phone_number,
            region_calling_from,
            with_formatting,
        )
    }

    /// Formats a phone number as it is dialled from a region.
    pub fn format_out_of_country_calling_number(
        &self,
        phone_number: &PhoneNumber,
        region_calling_from: &str,
    ) -> (r: String)
        ensures
            r@ == self.internal().spec_format_out_of_country_calling_number(
                phone_number@,
                region_calling_from@,
            ),
    {
        proof {
            use_type_invariant(self);
        }
        self.util_internal.format_out_of_country_calling_number(phone_number, region_calling_from)
    }

    /// Formats a phone number as it is dialled from a region, keeping the
    /// letters of its raw input.
    pub fn format_out_of_country_keeping_alpha_chars(
        &self,
        phone_number: &PhoneNumber,
        region_calling_from: &str,
    ) -> (r: String)
        ensures
            r@ == self.internal().spec_format_out_of_country_keeping_alpha_chars(
                phone_number@,
                region_calling_from@,
            ),
    {
        proof {
            use_type_invariant(self);
        }
        self.util_internal.format_out_of_country_keeping_alpha_chars(
            phone_number,
            region_calling_from,
        )
    }

    /// The calling code of a region; nothing for a region without a record.
    pub fn get_country_code_for_region(&self, region_code: &str) -> (r: Option<i32>)
        ensures
            r == self.internal().spec_country_code_for_region(region_code@),
    {
        proof {
            use_type_invariant(self);
        }
        self.util_internal.get_country_code_for_region(region_code)
    }

    /// The example of a fixed-line number of a region.
    pub fn get_example_number(
        &self,
        region_code: &str,
    ) -> (r: Result<PhoneNumber, GetExampleNumberError>)
        ensures
            match r {
                Ok(number) => self.internal().spec_example_number_for_type_and_region_code(
                    region_code@,
                    PhoneNumberType::FixedLine,
                ) == Ok::<PhoneNumberModel, GetExampleNumberError>(number@),
                Err(e) => self.internal().spec_example_number_for_type_and_region_code(
                    region_code@,
                    PhoneNumberType::FixedLine,
                ) == Err::<PhoneNumberModel, GetExampleNumberError>(e),
            },
    {
        proof {
            use_type_invariant(self);
        }
        self.util_internal.get_example_number(region_code)
    }

    /// An example of a type of number, from any region or non-geographical
    /// calling code.
    pub fn get_example_number_for_type(
        &self,
        number_type: PhoneNumberType,
    ) -> (r: Result<PhoneNumber, GetExampleNumberError>)
        ensures
            match r {
                Ok(number) => self.internal().spec_example_number_for_type(number_type) == Ok::<
                    PhoneNumberModel,
                    GetExampleNumberError,
                >(number@),
                Err(e) => self.internal().spec_example_number_for_type(number_type) == Err::<
                    PhoneNumberModel,
                    GetExampleNumberError,
                >(e),
            },
    {
        proof {
            use_type_invariant(self);
        }
        self.util_internal.get_example_number_for_type(number_type)
    }

    /// The example that a region gives for a type of number.
    pub fn get_example_number_for_type_and_region_code(
        &self,
        region_code: &str,
        number_type: PhoneNumberType,
    ) -> (r: Result<PhoneNumber, GetExampleNumberError>)
        ensures
            match r {
                Ok(number) => self.internal().spec_example_number_for_type_and_region_code(
                    region_code@,
                    number_type,
                ) == Ok::<PhoneNumberModel, GetExampleNumberError>(number@),
                Err(e) => self.internal().spec_example_number_for_type_and_region_code(
                    region_code@,
                    number_type,
                ) == Err::<PhoneNumberModel, GetExampleNumberError>(e),
            },
    {
        proof {
            use_type_invariant(self);
        }
        self.util_internal.get_example_number_for_type_and_region_code(region_code, number_type)
    }

    /// The example of a non-geographical calling code.
    pub fn get_example_number_for_non_geo_entity(
        &self,
        country_calling_code: i32,
    ) -> (r: Result<PhoneNumber, GetExampleNumberError>)
        ensures
            match r {
                Ok(number) => self.internal().spec_example_number_for_non_geo_entity(
                    country_calling_code,
                ) == Ok::<
                    PhoneNumberModel,
                    GetExampleNumberError,
                >(number@),
                Err(e) => self.internal().spec_example_number_for_non_geo_entity(
                    country_calling_code,
                ) == Err::<
                    PhoneNumberModel,
                    GetExampleNumberError,
                >(e),
            },
    {
        proof {
            use_type_invariant(self);
        }
        self.util_internal.get_example_number_for_non_geo_entity(country_calling_code)
    }

    /// A number of a region that is not valid.
    pub fn get_invalid_example_number(
        &self,
        region_code: &str,
    ) -> (r: Result<PhoneNumber, GetExampleNumberError>)
        ensures
            match r {
                Ok(number) => self.internal().spec_invalid_example_number(region_code@) == Ok::<
                    PhoneNumberModel,
                    GetExampleNumberError,
                >(number@),
                Err(e) => self.internal().spec_invalid_example_number(region_code@) == Err::<
                    PhoneNumberModel,
                    GetExampleNumberError,
                >(e),
            },
    {
        proof {
            use_type_invariant(self);
        }
        self.util_internal.get_invalid_example_number(region_code)
    }

    /// The length of the geographical area code of a number; zero for a
    /// number that has none.
    pub fn get_length_of_geographical_area_code(&self, phone_number: &PhoneNumber) -> (r: usize)
        ensures
            r as int == self.internal().spec_length_of_geographical_area_code(phone_number@),
    {
        proof {
            use_type_invariant(self);
        }
        self.util_internal.get_length_of_geographical_area_code(phone_number)
    }

    /// The length of the national destination code of a number.
    pub fn get_length_of_national_destination_code(&self, phone_number: &PhoneNumber) -> (r: usize)
        ensures
            r as int == self.internal().spec_length_of_national_destination_code(phone_number@),
    {
        proof {
            use_type_invariant(self);
        }
        self.util_internal.get_length_of_national_destination_code(phone_number)
    }

    /// The national significant number of a phone number: its leading zeros
    /// and its national number.
    pub fn get_national_significant_number(&self, phone_number: &PhoneNumber) -> (r: String)
        ensures
            r@ == national_significant_number(phone_number@),
    {
        proof {
            use_type_invariant(self);
        }
        self.util_internal.get_national_significant_number(phone_number)
    }

    /// The type of a phone number.
    pub fn get_number_type(&self, phone_number: &PhoneNumber) -> (r: PhoneNumberType)
        ensures
            r == self.internal().spec_number_type(phone_number@),
    {
        proof {
            use_type_invariant(self);
        }
        self.util_internal.get_number_type(phone_number)
    }

    /// The main region of a calling code, or the code of the unknown region
    /// if no region has the calling code.
    pub fn get_region_code_for_country_code(&self, country_code: i32) -> (r: &str)
        ensures
            r@ == self.internal().spec_region_code_for_country_code(country_code),
    {
        proof {
            use_type_invariant(self);
        }
        self.util_internal.get_region_code_for_country_code(country_code)
    }

    /// The region that a phone number belongs to, or the code of the unknown
    /// region.
    pub fn get_region_code_for_number(&self, phone_number: &PhoneNumber) -> (r: &str)
        ensures
            r@ == self.internal().spec_region_code_for_number(phone_number@),
    {
        proof {
            use_type_invariant(self);
        }
        self.util_internal.get_region_code_for_number(phone_number)
    }

    /// The region codes that share a calling code, the main region first;
    /// nothing if no region has the code.
    pub fn get_region_codes_for_country_code(&self, country_code: i32) -> (r: Option<Vec<&str>>)
        ensures
            match r {
                Some(codes) => self.internal().spec_region_codes_for_country_calling_code(
                    country_code,
                ) == Some(str_views(codes@)),
                None => self.internal().spec_region_codes_for_country_calling_code(country_code)
                    is None,
            },
    {
        proof {
            use_type_invariant(self);
        }
        self.util_internal.get_region_codes_for_country_calling_code(country_code)
    }

    /// The region codes that share a calling code, the main region first;
    /// nothing if no region has the code.
    pub fn get_region_codes_for_country_calling_code(
        &self,
        country_code: i32,
    ) -> (r: Option<Vec<&str>>)
        ensures
            match r {
                Some(codes) => self.internal().spec_region_codes_for_country_calling_code(
                    country_code,
                ) == Some(str_views(codes@)),
                None => self.internal().spec_region_codes_for_country_calling_code(country_code)
                    is None,
            },
    {
        proof {
            use_type_invariant(self);
        }
        self.util_internal.get_region_codes_for_country_calling_code(country_code)
    }

    /// The region codes that the store has a record for.
    pub fn get_supported_regions(&self) -> (r: Vec<&str>)
        ensures
            str_views(r@) == self.internal().spec_supported_regions(),
    {
        proof {
            use_type_invariant(self);
        }
        self.util_internal.get_supported_regions()
    }

    /// Every calling code that a region or a non-geographical entity has, in
    /// ascending order.
    pub fn get_supported_calling_codes(&self) -> (r: Vec<i32>)
        ensures
            r@ == self.internal().spec_supported_calling_codes(),
    {
        proof {
            use_type_invariant(self);
        }
        self.util_internal.get_supported_calling_codes()
    }

    /// The calling codes of the non-geographical entities.
    pub fn get_supported_global_network_calling_codes(&self) -> (r: Vec<i32>)
        ensures
            r@ == self.internal().spec_supported_global_network_calling_codes(),
    {
        proof {
            use_type_invariant(self);
        }
        self.util_internal.get_supported_global_network_calling_codes()
    }

    /// The types of number that a region has metadata for; nothing for a
    /// region without a record.
    pub fn get_supported_types_for_region(
        &self,
        region_code: &str,
    ) -> (r: Option<Vec<PhoneNumberType>>)
        ensures
            match self.internal().spec_metadata_for_region(region_code@) {
                Some(m) => r matches Some(types) && types@ == supported_types(m),
                None => r is None,
            },
    {
        proof {
            use_type_invariant(self);
        }
        self.util_internal.get_supported_types_for_region(region_code)
    }

    /// The types of number that a non-geographical calling code has metadata
    /// for; nothing for a code without a record.
    pub fn get_supported_types_for_non_geo_entity(
        &self,
        country_calling_code: i32,
    ) -> (r: Option<Vec<PhoneNumberType>>)
        ensures
            match self.internal().spec_metadata_for_non_geographical_region(country_calling_code) {
                Some(m) => r matches Some(types) && types@ == supported_types(m),
                None => r is None,
            },
    {
        proof {
            use_type_invariant(self);
        }
        self.util_internal.get_supported_types_for_non_geo_entity(country_calling_code)
    }

    /// The record of a region.
    pub fn get_metadata_for_region(&self, region_code: &str) -> (r: Option<&PhoneMetadata>)
        ensures
            match r {
                Some(m) => self.internal().spec_metadata_for_region(region_code@) == Some(*m),
                None => self.internal().spec_metadata_for_region(region_code@) is None,
            },
    {
        proof {
            use_type_invariant(self);
        }
        self.util_internal.get_metadata_for_region(region_code)
    }

    /// Whether a text is a viable number written with letters.
    pub fn is_alpha_number(&self, number: &str) -> (r: bool)
        ensures
            r == PhoneNumberUtilInternal::spec_is_alpha_number(number@),
    {
        proof {
            use_type_invariant(self);
        }
        self.util_internal.is_alpha_number(number)
    }

    /// Whether a region belongs to the North American Numbering Plan.
    pub fn is_nanpa_country(&self, region_code: &str) -> (r: bool)
        ensures
            r == self.internal().spec_is_nanpa_country(region_code@),
    {
        proof {
            use_type_invariant(self);
        }
        self.util_internal.is_nanpa_country(region_code)
    }

    /// Whether a phone number is tied to a place.
    pub fn is_number_geographical(&self, phone_number: &PhoneNumber) -> (r: bool)
        ensures
            r == self.internal().spec_is_number_geographical(phone_number@),
    {
        proof {
            use_type_invariant(self);
        }
        self.util_internal.is_number_geographical(phone_number)
    }

    /// Tells how closely two phone numbers agree.
    pub fn is_number_match(
        &self,
        first_number: &PhoneNumber,
        second_number: &PhoneNumber,
    ) -> (r: MatchType)
        ensures
            r == match_of(first_number@, second_number@),
    {
        proof {
            use_type_invariant(self);
        }
        self.util_internal.is_number_match(first_number, second_number)
    }

    /// Whether the length of a phone number is possible.
    pub fn is_possible_number(&self, phone_number: &PhoneNumber) -> (r: bool)
        ensures
            r == self.internal().spec_is_possible_number_for_type_with_reason(
                phone_number@,
                PhoneNumberType::Unknown,
            ).is_ok(),
    {
        proof {
            use_type_invariant(self);
        }
        self.util_internal.is_possible_number(phone_number)
    }

    /// The class of the length of a phone number, or the reason why the
    /// length is not possible.
    pub fn is_possible_number_with_reason(
        &self,
        phone_number: &PhoneNumber,
    ) -> (r: Result<NumberLengthType, ValidationError>)
        ensures
            r == self.internal().spec_is_possible_number_for_type_with_reason(
                phone_number@,
                PhoneNumberType::Unknown,
            ),
    {
        proof {
            use_type_invariant(self);
        }
        self.util_internal.is_possible_number_with_reason(phone_number)
    }

    /// Whether the length of a phone number is possible for a number of the
    /// given type.
    pub fn is_possible_number_for_type(
        &self,
        phone_number: &PhoneNumber,
        number_type: PhoneNumberType,
    ) -> (r: bool)
        ensures
            r == self.internal().spec_is_possible_number_for_type_with_reason(
                phone_number@,
                number_type,
            ).is_ok(),
    {
        proof {
            use_type_invariant(self);
        }
        self.util_internal.is_possible_number_for_type(phone_number, number_type)
    }

    /// The class of the length of a phone number as a number of the given
    /// type, or the reason why the length is not possible.
    pub fn is_possible_number_for_type_with_reason(
        &self,
        phone_number: &PhoneNumber,
        number_type: PhoneNumberType,
    ) -> (r: Result<NumberLengthType, ValidationError>)
        ensures
            r == self.internal().spec_is_possible_number_for_type_with_reason(
                phone_number@,
                number_type,
            ),
    {
        proof {
            use_type_invariant(self);
        }
        self.util_internal.is_possible_number_for_type_with_reason(phone_number, number_type)
    }

    /// Whether a text parses into a phone number of possible length.
    pub fn is_possible_number_for_string(
        &self,
        number: &str,
        region_dialing_from: &str,
    ) -> (r: bool)
        ensures
            r == self.internal().spec_is_possible_number_for_string(number@, region_dialing_from@),
    {
        proof {
            use_type_invariant(self);
        }
        self.util_internal.is_possible_number_for_string(number, region_dialing_from)
    }

    /// Whether a phone number is valid.
    pub fn is_valid_number(&self, phone_number: &PhoneNumber) -> (r: bool)
        ensures
            r == self.internal().spec_is_valid_number(phone_number@),
    {
        proof {
            use_type_invariant(self);
        }
        self.util_internal.is_valid_number(phone_number)
    }

    /// Whether a phone number is valid for a region.
    pub fn is_valid_number_for_region(&self, phone_number: &PhoneNumber, region: &str) -> (r: bool)
        ensures
            r == self.internal().spec_is_valid_number_for_region(phone_number@, region@),
    {
        proof {
            use_type_invariant(self);
        }
        self.util_internal.is_valid_number_for_region(phone_number, region)
    }

    /// Parses a text into a phone number that remembers the text, where its
    /// calling code came from, and the carrier code that was dialled.
    pub fn parse_and_keep_raw_input(
        &self,
        number_to_parse: &str,
        default_region: &str,
    ) -> (r: Result<PhoneNumber, ParseError>)
        ensures
            match r {
                Ok(number) => self.internal().spec_parse_helper(
                    number_to_parse@,
                    default_region@,
                    true,
                    true,
                ) == Ok::<PhoneNumberModel, ParseError>(number@),
                Err(e) => self.internal().spec_parse_helper(
                    number_to_parse@,
                    default_region@,
                    true,
                    true,
                ) == Err::<PhoneNumberModel, ParseError>(e),
            },
    {
        proof {
            use_type_invariant(self);
        }
        self.util_internal.parse_and_keep_raw_input(number_to_parse, default_region)
    }

    /// Parses a text into a phone number. The default region is the one the
    /// number is dialled from; it decides how a number without a calling
    /// code is read.
    pub fn parse(
        &self,
        number_to_parse: &str,
        default_region: &str,
    ) -> (r: Result<PhoneNumber, ParseError>)
        ensures
            match r {
                Ok(number) => self.internal().spec_parse(number_to_parse@, default_region@) == Ok::<
                    PhoneNumberModel,
                    ParseError,
                >(number@),
                Err(e) => self.internal().spec_parse(number_to_parse@, default_region@) == Err::<
                    PhoneNumberModel,
                    ParseError,
                >(e),
            },
    {
        proof {
            use_type_invariant(self);
        }
        self.util_internal.parse(number_to_parse, default_region)
    }

    /// The normal form of the text of a number.
    pub fn normalize(&self, number: &str) -> (r: String)
        ensures
            r@ == normalized(number@),
    {
        proof {
            use_type_invariant(self);
        }
        self.util_internal.normalize(number)
    }

    /// The digits of a text, as ASCII digits.
    pub fn normalize_digits_only(&self, number: &str) -> (r: String)
        ensures
            r@ == digits_only(number@),
    {
        proof {
            use_type_invariant(self);
        }
        self.util_internal.normalize_digits_only(number)
    }

    /// Whether a text follows the grammar of viable phone numbers.
    pub fn is_viable_phone_number(&self, number: &str) -> (r: bool)
        ensures
            r == is_viable(number@),
    {
        proof {
            use_type_invariant(self);
        }
        self.util_internal.is_viable_phone_number(number)
    }

    /// Cuts the candidate number out of a text.
    pub fn extract_possible_number(&self, number: &str) -> (r: Result<String, ExtractNumberError>)
        ensures
            match r {
                Ok(extracted) => possible_number(number@) == Ok::<Seq<char>, ExtractNumberError>(
                    extracted@,
                ),
                Err(e) => possible_number(number@) == Err::<Seq<char>, ExtractNumberError>(e),
            },
    {
        proof {
            use_type_invariant(self);
        }
        self.util_internal.extract_possible_number(number)
    }

    /// Cuts a number off from its extension, where it has one.
    pub fn maybe_strip_extension(&self, number: &str) -> (r: (String, Option<String>))
        ensures
            r.0@ == without_extension(number@).0,
            group_view(r.1) == without_extension(number@).1,
    {
        proof {
            use_type_invariant(self);
        }
        self.util_internal.maybe_strip_extension(number)
    }

    /// Tells how closely a phone number and a text agree. Fails if the text
    /// does not parse.
    pub fn is_number_match_with_one_string(&self, first_number: &PhoneNumber, second_number: &str)
        -> (r: Result<MatchType, InvalidNumberError>)
        ensures
            r == self.internal().spec_is_number_match_with_one_string(
                first_number@,
                second_number@,
            ),
    {
        proof {
            use_type_invariant(self);
        }
        self.util_internal.is_number_match_with_one_string(first_number, second_number)
    }

    /// Tells how closely two texts agree as phone numbers. Fails if one of
    /// them does not parse.
    pub fn is_number_match_with_two_strings(&self, first_number: &str, second_number: &str) -> (r:
        Result<MatchType, InvalidNumberError>)
        ensures
            r == self.internal().spec_is_number_match_with_two_strings(
                first_number@,
                second_number@,
            ),
    {
        proof {
            use_type_invariant(self);
        }
        self.util_internal.is_number_match_with_two_strings(first_number, second_number)
    }

    /// Cuts digits off the end of a number that is too long until it is
    /// valid. Returns whether the number is valid in the end; a number that
    /// cannot be made valid is left as it was.
    pub fn truncate_too_long_number(&self, phone_number: &mut PhoneNumber) -> (r: bool)
        ensures
            r == self.internal().spec_truncated(old(phone_number)@).is_some(),
            match self.internal().spec_truncated(old(phone_number)@) {
                Some(valid) => final(phone_number)@ == valid,
                None => *final(phone_number) == *old(phone_number),
            },
    {
        proof {
            use_type_invariant(self);
        }
        self.util_internal.truncate_too_long_number(phone_number)
    }

    /// Formats a phone number by rules that the caller supplies in place of
    /// those of the region. Fails exactly when the regular-expression engine
    /// refuses a pattern of the rules.
    pub fn format_by_pattern(
        &self,
        phone_number: &PhoneNumber,
        number_format: PhoneNumberFormat,
        user_defined_formats: &Vec<NumberFormat>,
    ) -> (r: Result<String, InternalLogicError>)
        ensures
            r is Ok <==> formats_compile(user_defined_formats@),
            r matches Ok(formatted) ==> formatted@ == self.internal().spec_format_by_pattern(
                phone_number@,
                number_format,
                user_defined_formats@,
            ),
            r matches Err(e) ==> (e matches InternalLogicError::InvalidRegex(broken)
                && !pattern_compiles(broken.pattern@)),
    {
        proof {
            use_type_invariant(self);
        }
        match check_formats(user_defined_formats) {
            Ok(_) => Ok(
                self.util_internal.format_by_pattern(
                    phone_number,
                    number_format,
                    user_defined_formats,
                ),
            ),
            Err(e) => Err(InternalLogicError::InvalidRegex(e)),
        }
    }

    /// Takes the national prefix, and a carrier code that stands with it,
    /// off a national number, by the rules of a record that the caller
    /// supplies. A number that fits the general descriptor of the record
    /// still fits it afterwards. Fails exactly when the regular-expression
    /// engine refuses the pattern of the national prefix.
    pub fn maybe_strip_national_prefix_and_carrier_code(
        &self,
        metadata: &PhoneMetadata,
        phone_number: &str,
    ) -> (r: Result<(String, Option<String>), InternalLogicError>)
        ensures
            r is Ok <==> optional_pattern_compiles(metadata.national_prefix_for_parsing),
            r matches Ok(stripped) ==> {
                &&& stripped.0@ == without_national_prefix(*metadata, phone_number@).0
                &&& group_view(stripped.1) == without_national_prefix(*metadata, phone_number@).1
                &&& matches_national_number(phone_number@, metadata.general_desc, false)
                    ==> matches_national_number(stripped.0@, metadata.general_desc, false)
            },
            r matches Err(e) ==> (e matches InternalLogicError::InvalidRegex(broken)
                && broken.pattern@ == metadata.spec_national_prefix_for_parsing()),
    {
        proof {
            use_type_invariant(self);
        }
        match check_optional_pattern(&metadata.national_prefix_for_parsing) {
            Ok(_) => Ok(
                self.util_internal.maybe_strip_national_prefix_and_carrier_code(
                    metadata,
                    phone_number,
                ),
            ),
            Err(e) => Err(InternalLogicError::InvalidRegex(e)),
        }
    }
}

} // verus!
