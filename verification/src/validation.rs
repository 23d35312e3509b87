//! Classification and validation of phone numbers: the type of a number, its
//! region, whether it is valid, and whether its length is possible.

use crate::char_mappings::{geo_mobile_country, is_geo_mobile_country};
use crate::enums::{NumberLengthType, PhoneNumberType};
use crate::errors::ValidationError;
use crate::helper_constants::REGION_CODE_FOR_NON_GEO_ENTITY;
use crate::helper_functions::{has_length, number_length_class, test_number_length};
use crate::phonemetadata::{PhoneMetadata, PhoneNumberDesc};
use crate::phonenumber::{PhoneNumber, PhoneNumberModel};
use crate::phonenumberutil_internal::PhoneNumberUtilInternal;
use crate::regex_based_matcher::matches_national_number;
use crate::regex_util::matches_at_start;
use crate::region_code::RegionCode;
use crate::text::{decimal_repr, decimal_string, str_equal, string_of};
use vstd::prelude::*;
use vstd::string::*;

verus! {

/// The number of zeros that stand before the national number: the count the
/// number states if its leading-zero flag is set and the count is positive,
/// and none otherwise.
pub open spec fn leading_zero_count(number: PhoneNumberModel) -> nat {
    if number.spec_italian_leading_zero() && number.spec_number_of_leading_zeros() > 0 {
        number.spec_number_of_leading_zeros() as nat
    } else {
        0
    }
}

/// The national significant number: the leading zeros, then the national
/// number in decimal.
pub open spec fn national_significant_number(number: PhoneNumberModel) -> Seq<char> {
    Seq::new(leading_zero_count(number), |i: int| '0') + decimal_repr(
        number.spec_national_number() as int,
    )
}

/// Whether a national significant number fits a descriptor: its length is
/// one of the lengths of the descriptor, where the descriptor states any, and
/// it matches the pattern of the descriptor.
pub open spec fn is_number_matching_desc(national_number: Seq<char>, desc: PhoneNumberDesc)
    -> bool {
    (desc.possible_length@.len() == 0 || has_length(
        desc.possible_length@,
        national_number.len() as int,
    )) && matches_national_number(national_number, desc, false)
}

/// The type of a national significant number in a region. The general
/// descriptor gates everything. Then the special types are tried in a fixed
/// order, and the first that fits wins. Then fixed line and mobile: a number
/// that fits both, or fits fixed line where the region cannot tell the two
/// apart, is "fixed line or mobile".
pub open spec fn number_type_of(national_number: Seq<char>, metadata: PhoneMetadata)
    -> PhoneNumberType {
    if !is_number_matching_desc(national_number, metadata.general_desc) {
        PhoneNumberType::Unknown
    } else if is_number_matching_desc(national_number, metadata.premium_rate) {
        PhoneNumberType::PremiumRate
    } else if is_number_matching_desc(national_number, metadata.toll_free) {
        PhoneNumberType::TollFree
    } else if is_number_matching_desc(national_number, metadata.shared_cost) {
        PhoneNumberType::SharedCost
    } else if is_number_matching_desc(national_number, metadata.voip) {
        PhoneNumberType::VoIP
    } else if is_number_matching_desc(national_number, metadata.personal_number) {
        PhoneNumberType::PersonalNumber
    } else if is_number_matching_desc(national_number, metadata.pager) {
        PhoneNumberType::Pager
    } else if is_number_matching_desc(national_number, metadata.uan) {
        PhoneNumberType::UAN
    } else if is_number_matching_desc(national_number, metadata.voicemail) {
        PhoneNumberType::VoiceMail
    } else if is_number_matching_desc(national_number, metadata.fixed_line) {
        if metadata.same_mobile_and_fixed_line_pattern {
            PhoneNumberType::FixedLineOrMobile
        } else if is_number_matching_desc(national_number, metadata.mobile) {
            PhoneNumberType::FixedLineOrMobile
        } else {
            PhoneNumberType::FixedLine
        }
    } else if !metadata.same_mobile_and_fixed_line_pattern && is_number_matching_desc(
        national_number,
        metadata.mobile,
    ) {
        PhoneNumberType::Mobile
    } else {
        PhoneNumberType::Unknown
    }
}

/// Whether a region claims a national significant number: by its pattern on
/// the leading digits where it has one, and else by having a type for the
/// number.
pub open spec fn region_claims(metadata: PhoneMetadata, national_number: Seq<char>) -> bool {
    match metadata.leading_digits {
        Some(leading_digits) => matches_at_start(leading_digits@, national_number),
        None => number_type_of(national_number, metadata) != PhoneNumberType::Unknown,
    }
}

/// Whether geographical numbers of the given type exist for a calling code.
pub open spec fn is_geographical(phone_number_type: PhoneNumberType, country_calling_code: i32)
    -> bool {
    phone_number_type == PhoneNumberType::FixedLine || phone_number_type
        == PhoneNumberType::FixedLineOrMobile || (is_geo_mobile_country(country_calling_code)
        && phone_number_type == PhoneNumberType::Mobile)
}

impl PhoneNumberUtilInternal {
    /// The national significant number of a phone number.
    pub fn get_national_significant_number(&self, phone_number: &PhoneNumber) -> (r: String)
        ensures
            r@ == national_significant_number(phone_number@),
    {
        let mut digits: Vec<char> = Vec::new();
        if phone_number.italian_leading_zero() && phone_number.number_of_leading_zeros() > 0 {
            let zeros = phone_number.number_of_leading_zeros();
            let mut i: i32 = 0;
            while i < zeros
                invariant
                    0 <= i <= zeros,
                    digits@ == Seq::new(i as nat, |k: int| '0'),
                decreases zeros - i,
            {
                digits.push('0');
                i += 1;
                assert(digits@ =~= Seq::new(i as nat, |k: int| '0'));
            }
        } else {
            assert(digits@ =~= Seq::new(0, |k: int| '0'));
        }
        let mut nsn = string_of(&digits);
        let national_number = decimal_string(phone_number.national_number() as i128);
        nsn.append(national_number.as_str());
        nsn
    }

    /// Whether a national significant number fits a descriptor.
    pub fn is_number_matching_desc(&self, national_number: &str, number_desc: &PhoneNumberDesc)
        -> (r: bool)
        ensures
            r == is_number_matching_desc(national_number@, *number_desc),
    {
        // The lengths are looked at first: where they do not fit, the
        // pattern need not be tried.
        let actual_length = national_number.unicode_len();
        if number_desc.possible_length.len() > 0 && !lengths_hold(
            &number_desc.possible_length,
            actual_length,
        ) {
            return false;
        }
        self.matcher_api.match_national_number(national_number, number_desc, false)
    }

    /// The type of a national significant number in a region.
    pub fn get_number_type_helper(&self, national_number: &str, metadata: &PhoneMetadata) -> (r:
        PhoneNumberType)
        ensures
            r == number_type_of(national_number@, *metadata),
    {
        if !self.is_number_matching_desc(national_number, &metadata.general_desc) {
            return PhoneNumberType::Unknown;
        }
        if self.is_number_matching_desc(national_number, &metadata.premium_rate) {
            return PhoneNumberType::PremiumRate;
        }
        if self.is_number_matching_desc(national_number, &metadata.toll_free) {
            return PhoneNumberType::TollFree;
        }
        if self.is_number_matching_desc(national_number, &metadata.shared_cost) {
            return PhoneNumberType::SharedCost;
        }
        if self.is_number_matching_desc(national_number, &metadata.voip) {
            return PhoneNumberType::VoIP;
        }
        if self.is_number_matching_desc(national_number, &metadata.personal_number) {
            return PhoneNumberType::PersonalNumber;
        }
        if self.is_number_matching_desc(national_number, &metadata.pager) {
            return PhoneNumberType::Pager;
        }
        if self.is_number_matching_desc(national_number, &metadata.uan) {
            return PhoneNumberType::UAN;
        }
        if self.is_number_matching_desc(national_number, &metadata.voicemail) {
            return PhoneNumberType::VoiceMail;
        }
        if self.is_number_matching_desc(national_number, &metadata.fixed_line) {
            if metadata.same_mobile_and_fixed_line_pattern {
                return PhoneNumberType::FixedLineOrMobile;
            } else if self.is_number_matching_desc(national_number, &metadata.mobile) {
                return PhoneNumberType::FixedLineOrMobile;
            }
            return PhoneNumberType::FixedLine;
        }
        // Mobile is only looked at where the region can tell it from fixed
        // line.
        if !metadata.same_mobile_and_fixed_line_pattern && self.is_number_matching_desc(
            national_number,
            &metadata.mobile,
        ) {
            return PhoneNumberType::Mobile;
        }
        PhoneNumberType::Unknown
    }

    /// The first of the records at the given positions, from `from` on,
    /// whose region claims the national significant number.
    pub open spec fn claiming_position(
        &self,
        national_number: Seq<char>,
        positions: Seq<usize>,
        from: int,
    ) -> Option<usize>
        decreases positions.len() - from,
    {
        if from < 0 || from >= positions.len() {
            None
        } else if region_claims(self.metadata@[positions[from] as int], national_number) {
            Some(positions[from])
        } else {
            self.claiming_position(national_number, positions, from + 1)
        }
    }

    /// The position of the record of the region that a phone number belongs
    /// to: where one region has the calling code, that region; where several
    /// share it, the first that claims the number.
    pub open spec fn spec_region_position_for_number(&self, phone_number: PhoneNumberModel) -> Option<
        usize,
    > {
        match self.spec_region_positions(phone_number.spec_country_code()) {
            None => None,
            Some(positions) => if positions.len() == 1 {
                Some(positions[0])
            } else {
                self.claiming_position(national_significant_number(phone_number), positions, 0)
            },
        }
    }

    /// The region that a phone number belongs to, or the code of the unknown
    /// region.
    pub open spec fn spec_region_code_for_number(&self, phone_number: PhoneNumberModel) -> Seq<char> {
        match self.spec_region_position_for_number(phone_number) {
            Some(p) => self.metadata@[p as int].spec_id(),
            None => "ZZ"@,
        }
    }

    /// The region that a phone number belongs to, or the code of the unknown
    /// region. Where several regions share the calling code, each is asked in
    /// turn, the main region first.
    pub fn get_region_code_for_number(&self, phone_number: &PhoneNumber) -> (r: &str)
        requires
            self.wf(),
        ensures
            r@ == self.spec_region_code_for_number(phone_number@),
    {
        let country_calling_code = phone_number.country_code();
        match self.find_calling_code(country_calling_code) {
            None => RegionCode::get_unknown(),
            Some(at) => {
                let positions = &self.country_calling_code_to_region_code_map[at].regions;
                assert(self.index()[at as int].1 == positions@);
                assert(self.index()[at as int].1.len() > 0);
                if positions.len() == 1 {
                    assert(self.index()[at as int].1[0] < self.metadata@.len());
                    self.metadata[positions[0]].id()
                } else {
                    let national_number = self.get_national_significant_number(phone_number);
                    let mut k: usize = 0;
                    while k < positions.len()
                        invariant
                            k <= positions@.len(),
                            self.wf(),
                            at < self.index().len(),
                            self.index()[at as int].1 == positions@,
                            positions@.len() != 1,
                            national_number@ == national_significant_number(phone_number@),
                            self.spec_region_positions(phone_number.spec_country_code()) == Some(
                                positions@,
                            ),
                            self.claiming_position(national_number@, positions@, 0)
                                == self.claiming_position(national_number@, positions@, k as int),
                        decreases positions@.len() - k,
                    {
                        assert(self.index()[at as int].1[k as int] < self.metadata@.len());
                        let metadata = &self.metadata[positions[k]];
                        assert(metadata.patterns_compile());
                        let claims = match &metadata.leading_digits {
                            Some(leading_digits) => self.reg_exps.regexp_cache.matches_start(
                                leading_digits.as_str(),
                                national_number.as_str(),
                            ),
                            None => {
                                let t = self.get_number_type_helper(
                                    national_number.as_str(),
                                    metadata,
                                );
                                match t {
                                    PhoneNumberType::Unknown => false,
                                    _ => true,
                                }
                            },
                        };
                        if claims {
                            return metadata.id();
                        }
                        k += 1;
                    }
                    RegionCode::get_unknown()
                }
            },
        }
    }

    /// The type of a phone number: that of its national significant number in
    /// its region, and unknown where it belongs to no region.
    pub open spec fn spec_number_type(&self, phone_number: PhoneNumberModel) -> PhoneNumberType {
        match self.spec_metadata_for_region_or_calling_code(
            phone_number.spec_country_code(),
            self.spec_region_code_for_number(phone_number),
        ) {
            Some(metadata) => number_type_of(national_significant_number(phone_number), metadata),
            None => PhoneNumberType::Unknown,
        }
    }

    /// The type of a phone number.
    pub fn get_number_type(&self, phone_number: &PhoneNumber) -> (r: PhoneNumberType)
        requires
            self.wf(),
        ensures
            r == self.spec_number_type(phone_number@),
    {
        let region_code = self.get_region_code_for_number(phone_number);
        match self.get_metadata_for_region_or_calling_code(
            phone_number.country_code(),
            region_code,
        ) {
            Some(metadata) => {
                let national_significant_number = self.get_national_significant_number(
                    phone_number,
                );
                self.get_number_type_helper(national_significant_number.as_str(), metadata)
            },
            None => PhoneNumberType::Unknown,
        }
    }

    /// Whether a phone number is valid for a region: the region has
    /// metadata, the calling code of the number is that of the region (any
    /// code will do for the non-geographical entities), and the national
    /// significant number has a type there.
    pub open spec fn spec_is_valid_number_for_region(
        &self,
        phone_number: PhoneNumberModel,
        region_code: Seq<char>,
    ) -> bool {
        match self.spec_metadata_for_region_or_calling_code(
            phone_number.spec_country_code(),
            region_code,
        ) {
            Some(metadata) => (region_code == REGION_CODE_FOR_NON_GEO_ENTITY@
                || phone_number.spec_country_code() == metadata.spec_country_code())
                && number_type_of(national_significant_number(phone_number), metadata)
                != PhoneNumberType::Unknown,
            None => false,
        }
    }

    /// Whether a phone number is valid for a region.
    pub fn is_valid_number_for_region(&self, phone_number: &PhoneNumber, region_code: &str) -> (r:
        bool)
        ensures
            r == self.spec_is_valid_number_for_region(phone_number@, region_code@),
    {
        let country_code = phone_number.country_code();
        match self.get_metadata_for_region_or_calling_code(country_code, region_code) {
            Some(metadata) => {
                if !str_equal(region_code, REGION_CODE_FOR_NON_GEO_ENTITY) && country_code
                    != metadata.country_code() {
                    return false;
                }
                let national_significant_number = self.get_national_significant_number(
                    phone_number,
                );
                match self.get_number_type_helper(national_significant_number.as_str(), metadata) {
                    PhoneNumberType::Unknown => false,
                    _ => true,
                }
            },
            None => false,
        }
    }

    /// Whether a phone number is valid: valid for the region it belongs to.
    pub open spec fn spec_is_valid_number(&self, phone_number: PhoneNumberModel) -> bool {
        self.spec_is_valid_number_for_region(
            phone_number,
            self.spec_region_code_for_number(phone_number),
        )
    }

    /// Whether a phone number is valid.
    pub fn is_valid_number(&self, phone_number: &PhoneNumber) -> (r: bool)
        requires
            self.wf(),
        ensures
            r == self.spec_is_valid_number(phone_number@),
    {
        let region_code = self.get_region_code_for_number(phone_number);
        self.is_valid_number_for_region(phone_number, region_code)
    }

    /// The class of the length of a phone number as a number of the given
    /// type. A calling code that no region has gives "invalid country code";
    /// otherwise the length of the national significant number is classified
    /// against the main region of the calling code.
    pub open spec fn spec_is_possible_number_for_type_with_reason(
        &self,
        phone_number: PhoneNumberModel,
        phone_number_type: PhoneNumberType,
    ) -> Result<NumberLengthType, ValidationError> {
        let country_code = phone_number.spec_country_code();
        if !self.spec_has_valid_country_calling_code(country_code) {
            Err(ValidationError::InvalidCountryCode)
        } else {
            match self.spec_metadata_for_region_or_calling_code(
                country_code,
                self.spec_region_code_for_country_code(country_code),
            ) {
                Some(metadata) => number_length_class(
                    national_significant_number(phone_number).len() as int,
                    metadata,
                    phone_number_type,
                ),
                None => Err(ValidationError::InvalidCountryCode),
            }
        }
    }

    /// The class of the length of a phone number as a number of the given
    /// type.
    pub fn is_possible_number_for_type_with_reason(
        &self,
        phone_number: &PhoneNumber,
        phone_number_type: PhoneNumberType,
    ) -> (r: Result<NumberLengthType, ValidationError>)
        requires
            self.wf(),
        ensures
            r == self.spec_is_possible_number_for_type_with_reason(
                phone_number@,
                phone_number_type,
            ),
    {
        let national_number = self.get_national_significant_number(phone_number);
        let country_code = phone_number.country_code();
        // A number is not tested for validity here, only for having a
        // calling code that exists and a length that fits.
        if !self.has_valid_country_calling_code(country_code) {
            return Err(ValidationError::InvalidCountryCode);
        }
        let region_code = self.get_region_code_for_country_code(country_code);
        match self.get_metadata_for_region_or_calling_code(country_code, region_code) {
            Some(metadata) => test_number_length(
                national_number.as_str(),
                metadata,
                phone_number_type,
            ),
            None => Err(ValidationError::InvalidCountryCode),
        }
    }

    /// The class of the length of a phone number.
    pub fn is_possible_number_with_reason(&self, phone_number: &PhoneNumber) -> (r: Result<
        NumberLengthType,
        ValidationError,
    >)
        requires
            self.wf(),
        ensures
            r == self.spec_is_possible_number_for_type_with_reason(
                phone_number@,
                PhoneNumberType::Unknown,
            ),
    {
        self.is_possible_number_for_type_with_reason(phone_number, PhoneNumberType::Unknown)
    }

    /// Whether the length of a phone number is possible for a number of the
    /// given type.
    pub fn is_possible_number_for_type(
        &self,
        phone_number: &PhoneNumber,
        phone_number_type: PhoneNumberType,
    ) -> (r: bool)
        requires
            self.wf(),
        ensures
            r == self.spec_is_possible_number_for_type_with_reason(
                phone_number@,
                phone_number_type,
            ).is_ok(),
    {
        self.is_possible_number_for_type_with_reason(phone_number, phone_number_type).is_ok()
    }

    /// Whether the length of a phone number is possible.
    pub fn is_possible_number(&self, phone_number: &PhoneNumber) -> (r: bool)
        requires
            self.wf(),
        ensures
            r == self.spec_is_possible_number_for_type_with_reason(
                phone_number@,
                PhoneNumberType::Unknown,
            ).is_ok(),
    {
        self.is_possible_number_with_reason(phone_number).is_ok()
    }

    /// Whether a phone number can be dialled from abroad: it can unless its
    /// region lists it among the numbers without international dialling. A
    /// number that belongs to no region can.
    pub open spec fn spec_can_be_internationally_dialled(&self, phone_number: PhoneNumberModel)
        -> bool {
        match self.spec_metadata_for_region(self.spec_region_code_for_number(phone_number)) {
            Some(metadata) => !is_number_matching_desc(
                national_significant_number(phone_number),
                metadata.no_international_dialling,
            ),
            None => true,
        }
    }

    /// Whether a phone number can be dialled from abroad.
    pub fn can_be_internationally_dialled(&self, phone_number: &PhoneNumber) -> (r: bool)
        requires
            self.wf(),
        ensures
            r == self.spec_can_be_internationally_dialled(phone_number@),
    {
        let region_code = self.get_region_code_for_number(phone_number);
        match self.get_metadata_for_region(region_code) {
            Some(metadata) => {
                let national_significant_number = self.get_national_significant_number(
                    phone_number,
                );
                !self.is_number_matching_desc(
                    national_significant_number.as_str(),
                    &metadata.no_international_dialling,
                )
            },
            // Non-geographical entities and unknown regions are always
            // diallable from abroad.
            None => true,
        }
    }

    /// Whether a phone number is tied to a place.
    pub open spec fn spec_is_number_geographical(&self, phone_number: PhoneNumberModel) -> bool {
        is_geographical(self.spec_number_type(phone_number), phone_number.spec_country_code())
    }

    /// Whether a phone number is tied to a place: a fixed-line number is,
    /// and so is a mobile number of a calling code whose mobile numbers are
    /// assigned by place.
    pub fn is_number_geographical(&self, phone_number: &PhoneNumber) -> (r: bool)
        requires
            self.wf(),
        ensures
            r == self.spec_is_number_geographical(phone_number@),
    {
        number_type_is_geographical(
            self.get_number_type(phone_number),
            phone_number.country_code(),
        )
    }

    /// A phone number whose national number is cut down, digit by digit from
    /// the right, until the number is valid. Nothing if the number gets too
    /// short, or runs out of digits, before it gets valid.
    pub open spec fn spec_truncated(&self, phone_number: PhoneNumberModel) -> Option<PhoneNumberModel>
        decreases phone_number.spec_national_number(),
    {
        if self.spec_is_valid_number(phone_number) {
            Some(phone_number)
        } else {
            let shorter = PhoneNumberModel {
                national_number: Some((phone_number.spec_national_number() / 10) as u64),
                ..phone_number
            };
            if phone_number.spec_national_number() / 10 == 0
                || self.spec_is_possible_number_for_type_with_reason(
                shorter,
                PhoneNumberType::Unknown,
            ) == Err::<NumberLengthType, ValidationError>(ValidationError::TooShort) {
                None
            } else {
                self.spec_truncated(shorter)
            }
        }
    }

    /// Cuts digits off the end of a number that is too long until it is
    /// valid. Returns whether the number is valid in the end; a number that
    /// cannot be made valid is left as it was.
    pub fn truncate_too_long_number(&self, phone_number: &mut PhoneNumber) -> (r: bool)
        requires
            self.wf(),
        ensures
            r == self.spec_truncated(old(phone_number)@).is_some(),
            match self.spec_truncated(old(phone_number)@) {
                Some(valid) => final(phone_number)@ == valid,
                None => *final(phone_number) == *old(phone_number),
            },
    {
        if self.is_valid_number(phone_number) {
            return true;
        }
        let mut number_copy = copy_of(phone_number);
        let mut national_number = phone_number.national_number();
        loop
            invariant
                self.wf(),
                *phone_number == *old(phone_number),
                number_copy.spec_national_number() == national_number,
                !self.spec_is_valid_number(number_copy@),
                self.spec_truncated(old(phone_number)@) == self.spec_truncated(number_copy@),
                number_copy@ == (PhoneNumberModel {
                    national_number: number_copy.national_number,
                    ..old(phone_number)@
                }),
            decreases national_number,
        {
            national_number = national_number / 10;
            number_copy.set_national_number(national_number);
            if national_number == 0 {
                return false;
            }
            match self.is_possible_number_with_reason(&number_copy) {
                Err(ValidationError::TooShort) => {
                    return false;
                },
                _ => {},
            }
            if self.is_valid_number(&number_copy) {
                phone_number.set_national_number(national_number);
                return true;
            }
        }
    }
}

/// Whether a length occurs in a non-empty list of lengths.
fn lengths_hold(lengths: &Vec<i32>, n: usize) -> (found: bool)
    ensures
        found == has_length(lengths@, n as int),
{
    let mut i: usize = 0;
    while i < lengths.len()
        invariant
            i <= lengths@.len(),
            forall|k: int| 0 <= k < i ==> lengths@[k] as int != n as int,
        decreases lengths@.len() - i,
    {
        if lengths[i] >= 0 && lengths[i] as u64 == n as u64 {
            return true;
        }
        i += 1;
    }
    false
}

/// Whether geographical numbers of the given type exist for a calling code.
pub fn number_type_is_geographical(phone_number_type: PhoneNumberType, country_calling_code: i32)
    -> (r: bool)
    ensures
        r == is_geographical(phone_number_type, country_calling_code),
{
    match phone_number_type {
        PhoneNumberType::FixedLine | PhoneNumberType::FixedLineOrMobile => true,
        PhoneNumberType::Mobile => geo_mobile_country(country_calling_code),
        _ => false,
    }
}

/// A copy of a phone number.
pub fn copy_of(phone_number: &PhoneNumber) -> (copy: PhoneNumber)
    ensures
        copy == *phone_number,
{
    PhoneNumber {
        country_code: phone_number.country_code,
        national_number: phone_number.national_number,
        extension: phone_number.extension.clone(),
        italian_leading_zero: phone_number.italian_leading_zero,
        number_of_leading_zeros: phone_number.number_of_leading_zeros,
        raw_input: phone_number.raw_input.clone(),
        country_code_source: phone_number.country_code_source,
        preferred_domestic_carrier_code: phone_number.preferred_domestic_carrier_code.clone(),
    }
}

} // verus!
