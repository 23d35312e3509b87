//! Comparison of phone numbers.

use crate::enums::MatchType;
use crate::errors::{InvalidNumberError, ParseError};
use crate::helper_functions::{
    copy_core_fields_only, is_national_number_suffix_of_the_other,
    national_number_is_suffix_of_the_other, with_core_fields_of,
};
use crate::phonenumber::{PhoneNumber, PhoneNumberModel};
use crate::phonenumberutil_internal::PhoneNumberUtilInternal;
use crate::regex_util::group_view;
use crate::region_code::RegionCode;
use crate::text::str_equal;
use vstd::prelude::*;
use vstd::string::*;

verus! {

/// The part of a phone number that identifies it.
pub open spec fn core_of(number: PhoneNumberModel) -> PhoneNumberModel {
    with_core_fields_of(number, PhoneNumberModel::empty())
}

/// How closely two phone numbers agree.
///
/// Only the fields that identify a number count. Two numbers with
/// extensions that differ do not match. Two numbers that both state a
/// calling code match exactly if they are the same, and match as short
/// numbers if the calling codes agree and one national number ends with the
/// other. Where a calling code is missing, the numbers match by their
/// national numbers if the rest is the same, and as short numbers if one
/// national number ends with the other.
pub open spec fn match_of(first: PhoneNumberModel, second: PhoneNumberModel) -> MatchType {
    let a = core_of(first);
    let b = core_of(second);
    if a.spec_extension().len() > 0 && b.spec_extension().len() > 0 && a.spec_extension()
        != b.spec_extension() {
        MatchType::NoMatch
    } else if a.spec_country_code() != 0 && b.spec_country_code() != 0 {
        if a == b {
            MatchType::ExactMatch
        } else if a.spec_country_code() == b.spec_country_code()
            && national_number_is_suffix_of_the_other(a, b) {
            MatchType::ShortNsnMatch
        } else {
            MatchType::NoMatch
        }
    } else if (PhoneNumberModel { country_code: b.country_code, ..a }) == b {
        MatchType::NsnMatch
    } else if national_number_is_suffix_of_the_other(a, b) {
        MatchType::ShortNsnMatch
    } else {
        MatchType::NoMatch
    }
}

/// Whether two optional strings hold the same text, or are both absent.
pub fn same_optional_text(a: &Option<String>, b: &Option<String>) -> (r: bool)
    ensures
        r == (group_view(*a) == group_view(*b)),
{
    match (a, b) {
        (Some(x), Some(y)) => str_equal(x.as_str(), y.as_str()),
        (None, None) => true,
        _ => false,
    }
}

/// Whether two phone numbers are the same, field by field.
pub fn same_number(a: &PhoneNumber, b: &PhoneNumber) -> (r: bool)
    ensures
        r == (a@ == b@),
{
    let same_source = match (a.country_code_source, b.country_code_source) {
        (Some(x), Some(y)) => x == y,
        (None, None) => true,
        _ => false,
    };
    let same_code = match (a.country_code, b.country_code) {
        (Some(x), Some(y)) => x == y,
        (None, None) => true,
        _ => false,
    };
    let same_national_number = match (a.national_number, b.national_number) {
        (Some(x), Some(y)) => x == y,
        (None, None) => true,
        _ => false,
    };
    let same_flag = match (a.italian_leading_zero, b.italian_leading_zero) {
        (Some(x), Some(y)) => x == y,
        (None, None) => true,
        _ => false,
    };
    let same_zeros = match (a.number_of_leading_zeros, b.number_of_leading_zeros) {
        (Some(x), Some(y)) => x == y,
        (None, None) => true,
        _ => false,
    };
    same_code && same_national_number && same_optional_text(&a.extension, &b.extension)
        && same_flag && same_zeros && same_optional_text(&a.raw_input, &b.raw_input)
        && same_source && same_optional_text(
        &a.preferred_domestic_carrier_code,
        &b.preferred_domestic_carrier_code,
    )
}

impl PhoneNumberUtilInternal {
    /// Tells how closely two phone numbers agree.
    pub fn is_number_match(&self, first_number_in: &PhoneNumber, second_number_in: &PhoneNumber)
        -> (r: MatchType)
        ensures
            r == match_of(first_number_in@, second_number_in@),
    {
        // Only the fields that identify a number are compared.
        let mut first_number = PhoneNumber::new();
        copy_core_fields_only(first_number_in, &mut first_number);
        let mut second_number = PhoneNumber::new();
        copy_core_fields_only(second_number_in, &mut second_number);
        if first_number.extension().unicode_len() > 0 && second_number.extension().unicode_len()
            > 0 && !str_equal(first_number.extension(), second_number.extension()) {
            return MatchType::NoMatch;
        }
        let first_number_country_code = first_number.country_code();
        let second_number_country_code = second_number.country_code();
        if first_number_country_code != 0 && second_number_country_code != 0 {
            if same_number(&first_number, &second_number) {
                return MatchType::ExactMatch;
            } else if first_number_country_code == second_number_country_code
                && is_national_number_suffix_of_the_other(&first_number, &second_number) {
                // One national number may be the other with the area code
                // left out.
                return MatchType::ShortNsnMatch;
            }
            return MatchType::NoMatch;
        }
        // A calling code is missing: the numbers are compared as if they had
        // the same.
        let ghost a = first_number@;
        first_number.country_code = second_number.country_code;
        assert(first_number@ == (PhoneNumberModel {
            country_code: second_number@.country_code,
            ..a
        }));
        if same_number(&first_number, &second_number) {
            return MatchType::NsnMatch;
        }
        assert(national_number_is_suffix_of_the_other(first_number@, second_number@)
            == national_number_is_suffix_of_the_other(a, second_number@));
        if is_national_number_suffix_of_the_other(&first_number, &second_number) {
            return MatchType::ShortNsnMatch;
        }
        MatchType::NoMatch
    }
}

impl PhoneNumberUtilInternal {
    /// How closely a phone number and a text agree.
    ///
    /// The text is parsed as a number that states its calling code. If it
    /// states none, it is parsed as a number of the main region of the
    /// calling code of the first number, and an exact match then only counts
    /// as a match of the national numbers. If the first number has no known
    /// calling code either, the text is parsed without any region.
    pub open spec fn spec_is_number_match_with_one_string(
        &self,
        first: PhoneNumberModel,
        second: Seq<char>,
    ) -> Result<MatchType, InvalidNumberError> {
        match self.spec_parse(second, "ZZ"@) {
            Ok(second_number) => Ok(match_of(first, second_number)),
            Err(e) => if e == ParseError::InvalidCountryCode {
                let first_region = self.spec_region_code_for_country_code(
                    first.spec_country_code(),
                );
                if first_region != "ZZ"@ {
                    match self.spec_parse(second, first_region) {
                        Ok(second_number) => {
                            let found = match_of(first, second_number);
                            if found == MatchType::ExactMatch {
                                Ok(MatchType::NsnMatch)
                            } else {
                                Ok(found)
                            }
                        },
                        Err(e2) => Err(InvalidNumberError(e2)),
                    }
                } else {
                    match self.spec_parse_helper(second, "ZZ"@, false, false) {
                        Ok(second_number) => Ok(match_of(first, second_number)),
                        Err(e2) => Err(InvalidNumberError(e2)),
                    }
                }
            } else {
                Err(InvalidNumberError(e))
            },
        }
    }

    /// Tells how closely a phone number and a text agree. Fails if the text
    /// does not parse.
    pub fn is_number_match_with_one_string(&self, first_number: &PhoneNumber, second_number: &str)
        -> (r: Result<MatchType, InvalidNumberError>)
        requires
            self.wf(),
        ensures
            r == self.spec_is_number_match_with_one_string(first_number@, second_number@),
    {
        match self.parse(second_number, RegionCode::get_unknown()) {
            Ok(second_number_as_proto) => Ok(
                self.is_number_match(first_number, &second_number_as_proto),
            ),
            Err(ParseError::InvalidCountryCode) => {
                // The text states no calling code, so an exact match is out
                // of reach.
                let first_number_region = self.get_region_code_for_country_code(
                    first_number.country_code(),
                );
                if !str_equal(first_number_region, RegionCode::get_unknown()) {
                    match self.parse(second_number, first_number_region) {
                        Ok(second_number_with_first_number_region) => {
                            match self.is_number_match(
                                first_number,
                                &second_number_with_first_number_region,
                            ) {
                                MatchType::ExactMatch => Ok(MatchType::NsnMatch),
                                other => Ok(other),
                            }
                        },
                        Err(e) => Err(InvalidNumberError(e)),
                    }
                } else {
                    match self.parse_helper(
                        second_number,
                        RegionCode::get_unknown(),
                        false,
                        false,
                    ) {
                        Ok(second_number_as_proto) => Ok(
                            self.is_number_match(first_number, &second_number_as_proto),
                        ),
                        Err(e) => Err(InvalidNumberError(e)),
                    }
                }
            },
            Err(e) => Err(InvalidNumberError(e)),
        }
    }

    /// How closely two texts agree as phone numbers.
    ///
    /// Whichever of the two states a calling code is parsed first, and the
    /// other is compared with it. If neither does, both are parsed without
    /// any region.
    pub open spec fn spec_is_number_match_with_two_strings(
        &self,
        first: Seq<char>,
        second: Seq<char>,
    ) -> Result<MatchType, InvalidNumberError> {
        match self.spec_parse(first, "ZZ"@) {
            Ok(first_number) => self.spec_is_number_match_with_one_string(first_number, second),
            Err(e) => if e == ParseError::InvalidCountryCode {
                match self.spec_parse(second, "ZZ"@) {
                    Ok(second_number) => self.spec_is_number_match_with_one_string(
                        second_number,
                        first,
                    ),
                    Err(e2) => if e2 == ParseError::InvalidCountryCode {
                        match self.spec_parse_helper(first, "ZZ"@, false, false) {
                            Ok(first_number) => match self.spec_parse_helper(
                                second,
                                "ZZ"@,
                                false,
                                false,
                            ) {
                                Ok(second_number) => Ok(match_of(first_number, second_number)),
                                Err(e4) => Err(InvalidNumberError(e4)),
                            },
                            Err(e3) => Err(InvalidNumberError(e3)),
                        }
                    } else {
                        Err(InvalidNumberError(e2))
                    },
                }
            } else {
                Err(InvalidNumberError(e))
            },
        }
    }

    /// Tells how closely two texts agree as phone numbers. Fails if one of
    /// them does not parse.
    pub fn is_number_match_with_two_strings(&self, first_number: &str, second_number: &str) -> (r:
        Result<MatchType, InvalidNumberError>)
        requires
            self.wf(),
        ensures
            r == self.spec_is_number_match_with_two_strings(first_number@, second_number@),
    {
        match self.parse(first_number, RegionCode::get_unknown()) {
            Ok(first_number_as_proto) => self.is_number_match_with_one_string(
                &first_number_as_proto,
                second_number,
            ),
            Err(ParseError::InvalidCountryCode) => {
                match self.parse(second_number, RegionCode::get_unknown()) {
                    Ok(second_number_as_proto) => self.is_number_match_with_one_string(
                        &second_number_as_proto,
                        first_number,
                    ),
                    Err(ParseError::InvalidCountryCode) => {
                        let first_number_as_proto = match self.parse_helper(
                            first_number,
                            RegionCode::get_unknown(),
                            false,
                            false,
                        ) {
                            Ok(n) => n,
                            Err(e) => {
                                return Err(InvalidNumberError(e));
                            },
                        };
                        match self.parse_helper(
                            second_number,
                            RegionCode::get_unknown(),
                            false,
                            false,
                        ) {
                            Ok(second_number_as_proto) => Ok(
                                self.is_number_match(
                                    &first_number_as_proto,
                                    &second_number_as_proto,
                                ),
                            ),
                            Err(e) => Err(InvalidNumberError(e)),
                        }
                    },
                    Err(e) => Err(InvalidNumberError(e)),
                }
            },
            Err(e) => Err(InvalidNumberError(e)),
        }
    }
}

} // verus!
