//! Example numbers, valid and invalid, drawn from the metadata.

use crate::enums::PhoneNumberType;
use crate::errors::GetExampleNumberError;
use crate::helper_constants::{MIN_LENGTH_FOR_NSN, PLUS_SIGN, REGION_CODE_FOR_NON_GEO_ENTITY};
use crate::helper_functions::{desc_by_type, get_number_desc_by_type};
use crate::metadata_store::{is_non_geographical, is_unknown_region};
use crate::phonemetadata::{PhoneMetadata, PhoneNumberDesc};
use crate::phonenumber::{PhoneNumber, PhoneNumberModel};
use crate::phonenumberutil_internal::PhoneNumberUtilInternal;
use crate::region_code::RegionCode;
use crate::text::{chars_of, decimal_repr, decimal_string, str_equal, substring};
use vstd::prelude::*;
use vstd::string::*;

verus! {

/// The descriptors of a non-geographical calling code that are searched for
/// an example, in the order of the search. Fixed line and personal numbers
/// are not among them: non-geographical entities have none.
pub open spec fn non_geo_example_descs(metadata: PhoneMetadata) -> Seq<PhoneNumberDesc> {
    seq![
        metadata.mobile,
        metadata.toll_free,
        metadata.shared_cost,
        metadata.voip,
        metadata.voicemail,
        metadata.uan,
        metadata.premium_rate,
    ]
}

/// The text of an example of a non-geographical calling code in
/// international form.
pub open spec fn international_example(country_calling_code: i32, example: Seq<char>) -> Seq<char> {
    PLUS_SIGN@ + decimal_repr(country_calling_code as int) + example
}

impl PhoneNumberUtilInternal {
    /// The example that a region gives for a type of number, parsed.
    pub open spec fn spec_example_number_for_type_and_region_code(
        &self,
        region_code: Seq<char>,
        phone_number_type: PhoneNumberType,
    ) -> Result<PhoneNumberModel, GetExampleNumberError> {
        match self.spec_metadata_for_region(region_code) {
            None => Err(GetExampleNumberError::InvalidRegionCode),
            Some(metadata) => {
                let desc = desc_by_type(metadata, phone_number_type);
                match desc.example_number {
                    Some(example) => match self.spec_parse(example@, region_code) {
                        Ok(number) => Ok(number),
                        Err(e) => Err(GetExampleNumberError::FailedToParse(e)),
                    },
                    None => Err(GetExampleNumberError::NoExampleNumber),
                }
            },
        }
    }

    /// The example that a region gives for a type of number. Fails for a
    /// region without a record, for a type without an example, and for an
    /// example that does not parse.
    pub fn get_example_number_for_type_and_region_code(
        &self,
        region_code: &str,
        phone_number_type: PhoneNumberType,
    ) -> (r: Result<PhoneNumber, GetExampleNumberError>)
        requires
            self.wf(),
        ensures
            match r {
                Ok(number) => self.spec_example_number_for_type_and_region_code(
                    region_code@,
                    phone_number_type,
                ) == Ok::<PhoneNumberModel, GetExampleNumberError>(number@),
                Err(e) => self.spec_example_number_for_type_and_region_code(
                    region_code@,
                    phone_number_type,
                ) == Err::<PhoneNumberModel, GetExampleNumberError>(e),
            },
    {
        let metadata = match self.get_metadata_for_region(region_code) {
            Some(m) => m,
            None => {
                return Err(GetExampleNumberError::InvalidRegionCode);
            },
        };
        let desc = get_number_desc_by_type(metadata, phone_number_type);
        match &desc.example_number {
            Some(example) => match self.parse(example.as_str(), region_code) {
                Ok(number) => Ok(number),
                Err(e) => Err(GetExampleNumberError::FailedToParse(e)),
            },
            None => Err(GetExampleNumberError::NoExampleNumber),
        }
    }

    /// The example of a fixed-line number of a region.
    pub fn get_example_number(&self, region_code: &str) -> (r: Result<
        PhoneNumber,
        GetExampleNumberError,
    >)
        requires
            self.wf(),
        ensures
            match r {
                Ok(number) => self.spec_example_number_for_type_and_region_code(
                    region_code@,
                    PhoneNumberType::FixedLine,
                ) == Ok::<PhoneNumberModel, GetExampleNumberError>(number@),
                Err(e) => self.spec_example_number_for_type_and_region_code(
                    region_code@,
                    PhoneNumberType::FixedLine,
                ) == Err::<PhoneNumberModel, GetExampleNumberError>(e),
            },
    {
        self.get_example_number_for_type_and_region_code(region_code, PhoneNumberType::FixedLine)
    }

    /// The example of a descriptor of a non-geographical calling code,
    /// parsed from its international form; nothing where the descriptor has
    /// no example or the example does not parse.
    pub open spec fn spec_non_geo_example(&self, country_calling_code: i32, desc: PhoneNumberDesc)
        -> Option<PhoneNumberModel> {
        match desc.example_number {
            Some(example) => match self.spec_parse(
                international_example(country_calling_code, example@),
                "ZZ"@,
            ) {
                Ok(number) => Some(number),
                Err(_) => None,
            },
            None => None,
        }
    }

    /// The example of a descriptor of a non-geographical calling code.
    pub fn non_geo_example(&self, country_calling_code: i32, desc: &PhoneNumberDesc) -> (r: Option<
        PhoneNumber,
    >)
        requires
            self.wf(),
        ensures
            match r {
                Some(number) => self.spec_non_geo_example(country_calling_code, *desc) == Some(
                    number@,
                ),
                None => self.spec_non_geo_example(country_calling_code, *desc) is None,
            },
    {
        match &desc.example_number {
            Some(example) => {
                let mut text = String::from_str(PLUS_SIGN);
                text.append(decimal_string(country_calling_code as i128).as_str());
                text.append(example.as_str());
                match self.parse(text.as_str(), RegionCode::get_unknown()) {
                    Ok(number) => Some(number),
                    Err(_) => None,
                }
            },
            None => None,
        }
    }

    /// The first example that parses among a list of descriptors of a
    /// non-geographical calling code, from `from` on.
    pub open spec fn first_non_geo_example(
        &self,
        country_calling_code: i32,
        descs: Seq<PhoneNumberDesc>,
        from: int,
    ) -> Option<PhoneNumberModel>
        decreases descs.len() - from,
    {
        if from < 0 || from >= descs.len() {
            None
        } else {
            match self.spec_non_geo_example(country_calling_code, descs[from]) {
                Some(number) => Some(number),
                None => self.first_non_geo_example(country_calling_code, descs, from + 1),
            }
        }
    }

    /// The example of a non-geographical calling code: the first example
    /// that parses among those of its descriptors.
    pub open spec fn spec_example_number_for_non_geo_entity(&self, country_calling_code: i32)
        -> Result<PhoneNumberModel, GetExampleNumberError> {
        match self.spec_metadata_for_non_geographical_region(country_calling_code) {
            None => Err(GetExampleNumberError::InvalidRegionCode),
            Some(metadata) => match self.first_non_geo_example(
                country_calling_code,
                non_geo_example_descs(metadata),
                0,
            ) {
                Some(number) => Ok(number),
                None => Err(GetExampleNumberError::NoExampleNumber),
            },
        }
    }

    /// The example of a non-geographical calling code. Fails for a code
    /// without a record, and where none of its descriptors has an example
    /// that parses.
    pub fn get_example_number_for_non_geo_entity(&self, country_calling_code: i32) -> (r: Result<
        PhoneNumber,
        GetExampleNumberError,
    >)
        requires
            self.wf(),
        ensures
            match r {
                Ok(number) => self.spec_example_number_for_non_geo_entity(country_calling_code)
                    == Ok::<PhoneNumberModel, GetExampleNumberError>(number@),
                Err(e) => self.spec_example_number_for_non_geo_entity(country_calling_code)
                    == Err::<PhoneNumberModel, GetExampleNumberError>(e),
            },
    {
        let metadata = match self.get_metadata_for_non_geographical_region(country_calling_code) {
            Some(m) => m,
            None => {
                return Err(GetExampleNumberError::InvalidRegionCode);
            },
        };
        proof {
            reveal_with_fuel(PhoneNumberUtilInternal::first_non_geo_example, 8);
        }
        if let Some(number) = self.non_geo_example(country_calling_code, &metadata.mobile) {
            return Ok(number);
        }
        if let Some(number) = self.non_geo_example(country_calling_code, &metadata.toll_free) {
            return Ok(number);
        }
        if let Some(number) = self.non_geo_example(country_calling_code, &metadata.shared_cost) {
            return Ok(number);
        }
        if let Some(number) = self.non_geo_example(country_calling_code, &metadata.voip) {
            return Ok(number);
        }
        if let Some(number) = self.non_geo_example(country_calling_code, &metadata.voicemail) {
            return Ok(number);
        }
        if let Some(number) = self.non_geo_example(country_calling_code, &metadata.uan) {
            return Ok(number);
        }
        if let Some(number) = self.non_geo_example(country_calling_code, &metadata.premium_rate) {
            return Ok(number);
        }
        Err(GetExampleNumberError::NoExampleNumber)
    }

    /// The example of a type of number that a record gives; nothing where it
    /// gives none that parses. A record of a region is asked through its
    /// region code, a record of a non-geographical calling code through its
    /// calling code.
    pub open spec fn spec_example_of_record(
        &self,
        metadata: PhoneMetadata,
        phone_number_type: PhoneNumberType,
        non_geographical: bool,
    ) -> Option<PhoneNumberModel> {
        if non_geographical {
            if is_non_geographical(metadata) {
                self.spec_non_geo_example(
                    metadata.spec_country_code(),
                    desc_by_type(metadata, phone_number_type),
                )
            } else {
                None
            }
        } else if is_non_geographical(metadata) || is_unknown_region(metadata) {
            None
        } else {
            match self.spec_example_number_for_type_and_region_code(
                metadata.spec_id(),
                phone_number_type,
            ) {
                Ok(number) => Some(number),
                Err(_) => None,
            }
        }
    }

    /// The first example of a type of number among the records from `from`
    /// on.
    pub open spec fn first_example_for_type(
        &self,
        phone_number_type: PhoneNumberType,
        non_geographical: bool,
        from: int,
    ) -> Option<PhoneNumberModel>
        decreases self.metadata@.len() - from,
    {
        if from < 0 || from >= self.metadata@.len() {
            None
        } else {
            match self.spec_example_of_record(
                self.metadata@[from],
                phone_number_type,
                non_geographical,
            ) {
                Some(number) => Some(number),
                None => self.first_example_for_type(
                    phone_number_type,
                    non_geographical,
                    from + 1,
                ),
            }
        }
    }

    /// An example of a type of number: the first that a region gives, or
    /// else the first that a non-geographical calling code gives.
    pub open spec fn spec_example_number_for_type(&self, phone_number_type: PhoneNumberType)
        -> Result<PhoneNumberModel, GetExampleNumberError> {
        match self.first_example_for_type(phone_number_type, false, 0) {
            Some(number) => Ok(number),
            None => match self.first_example_for_type(phone_number_type, true, 0) {
                Some(number) => Ok(number),
                None => Err(GetExampleNumberError::NoExampleNumber),
            },
        }
    }

    /// The first example of a type of number among the records.
    fn example_among_records(&self, phone_number_type: PhoneNumberType, non_geographical: bool)
        -> (r: Option<PhoneNumber>)
        requires
            self.wf(),
        ensures
            match r {
                Some(number) => self.first_example_for_type(
                    phone_number_type,
                    non_geographical,
                    0,
                ) == Some(number@),
                None => self.first_example_for_type(phone_number_type, non_geographical, 0)
                    is None,
            },
    {
        let mut i: usize = 0;
        while i < self.metadata.len()
            invariant
                i <= self.metadata@.len(),
                self.wf(),
                self.first_example_for_type(phone_number_type, non_geographical, 0)
                    == self.first_example_for_type(phone_number_type, non_geographical, i as int),
            decreases self.metadata@.len() - i,
        {
            let metadata = &self.metadata[i];
            let non_geo = str_equal(metadata.id(), REGION_CODE_FOR_NON_GEO_ENTITY);
            let found = if non_geographical {
                if non_geo {
                    self.non_geo_example(
                        metadata.country_code(),
                        get_number_desc_by_type(metadata, phone_number_type),
                    )
                } else {
                    None
                }
            } else if non_geo || str_equal(metadata.id(), RegionCode::get_unknown()) {
                None
            } else {
                match self.get_example_number_for_type_and_region_code(
                    metadata.id(),
                    phone_number_type,
                ) {
                    Ok(number) => Some(number),
                    Err(_) => None,
                }
            };
            if let Some(number) = found {
                return Some(number);
            }
            i += 1;
        }
        None
    }

    /// An example of a type of number, from any region or non-geographical
    /// calling code. Fails where the metadata holds no example of the type.
    pub fn get_example_number_for_type(&self, phone_number_type: PhoneNumberType) -> (r: Result<
        PhoneNumber,
        GetExampleNumberError,
    >)
        requires
            self.wf(),
        ensures
            match r {
                Ok(number) => self.spec_example_number_for_type(phone_number_type) == Ok::<
                    PhoneNumberModel,
                    GetExampleNumberError,
                >(number@),
                Err(e) => self.spec_example_number_for_type(phone_number_type) == Err::<
                    PhoneNumberModel,
                    GetExampleNumberError,
                >(e),
            },
    {
        if let Some(number) = self.example_among_records(phone_number_type, false) {
            return Ok(number);
        }
        // No region has an example; the non-geographical entities may.
        if let Some(number) = self.example_among_records(phone_number_type, true) {
            return Ok(number);
        }
        Err(GetExampleNumberError::NoExampleNumber)
    }

    /// The longest start of an example, of at most `length` digits and at
    /// least two, that parses into a number that is not valid.
    pub open spec fn invalid_number_of_length(
        &self,
        example: Seq<char>,
        region_code: Seq<char>,
        length: int,
    ) -> Option<PhoneNumberModel>
        decreases length,
    {
        if length < MIN_LENGTH_FOR_NSN || length > example.len() {
            None
        } else {
            match self.spec_parse(example.take(length), region_code) {
                Ok(number) => if !self.spec_is_valid_number(number) {
                    Some(number)
                } else {
                    self.invalid_number_of_length(example, region_code, length - 1)
                },
                Err(_) => self.invalid_number_of_length(example, region_code, length - 1),
            }
        }
    }

    /// A number of a region that is not valid: the example of a fixed-line
    /// number, cut down digit by digit until it parses into a number that is
    /// not valid.
    pub open spec fn spec_invalid_example_number(&self, region_code: Seq<char>) -> Result<
        PhoneNumberModel,
        GetExampleNumberError,
    > {
        match self.spec_metadata_for_region(region_code) {
            None => Err(GetExampleNumberError::InvalidRegionCode),
            Some(metadata) => match metadata.fixed_line.example_number {
                None => Err(GetExampleNumberError::NoExampleNumber),
                Some(example) => match self.invalid_number_of_length(
                    example@,
                    region_code,
                    example@.len() - 1,
                ) {
                    Some(number) => Ok(number),
                    None => Err(GetExampleNumberError::CouldNotGetNumber),
                },
            },
        }
    }

    /// A number of a region that is not valid. Fails for a region without a
    /// record or without an example of a fixed-line number, and where no
    /// shorter form of the example is invalid.
    pub fn get_invalid_example_number(&self, region_code: &str) -> (r: Result<
        PhoneNumber,
        GetExampleNumberError,
    >)
        requires
            self.wf(),
        ensures
            match r {
                Ok(number) => self.spec_invalid_example_number(region_code@) == Ok::<
                    PhoneNumberModel,
                    GetExampleNumberError,
                >(number@),
                Err(e) => self.spec_invalid_example_number(region_code@) == Err::<
                    PhoneNumberModel,
                    GetExampleNumberError,
                >(e),
            },
    {
        let metadata = match self.get_metadata_for_region(region_code) {
            Some(m) => m,
            None => {
                return Err(GetExampleNumberError::InvalidRegionCode);
            },
        };
        let example = match &metadata.fixed_line.example_number {
            Some(example) => chars_of(example.as_str()),
            None => {
                return Err(GetExampleNumberError::NoExampleNumber);
            },
        };
        if example.len() == 0 {
            return Err(GetExampleNumberError::CouldNotGetNumber);
        }
        // The number is made invalid by making it shorter: no region has
        // valid numbers as short as the shortest national number.
        let mut length: usize = example.len() - 1;
        while length >= MIN_LENGTH_FOR_NSN
            invariant
                length < example@.len(),
                self.wf(),
                self.spec_metadata_for_region(region_code@) == Some(*metadata),
                metadata.fixed_line.example_number is Some,
                metadata.fixed_line.example_number->0@ == example@,
                self.invalid_number_of_length(example@, region_code@, example@.len() - 1)
                    == self.invalid_number_of_length(example@, region_code@, length as int),
            decreases length,
        {
            assert(example@.take(length as int) == example@.subrange(0, length as int));
            let number_to_try = substring(&example, 0, length);
            match self.parse(number_to_try.as_str(), region_code) {
                Ok(possibly_valid_number) => {
                    if !self.is_valid_number(&possibly_valid_number) {
                        return Ok(possibly_valid_number);
                    }
                },
                Err(_) => {},
            }
            length -= 1;
        }
        Err(GetExampleNumberError::CouldNotGetNumber)
    }
}

} // verus!
