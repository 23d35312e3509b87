//! Small result types of the parsing stages.

use crate::enums::CountryCodeSource;
use vstd::prelude::*;

verus! {

/// A number as it stands after the international prefix was looked for, and
/// where its calling code is to come from.
#[derive(Debug)]
pub struct PhoneNumberWithCountryCodeSource {
    pub phone_number: String,
    pub country_code_source: CountryCodeSource,
}

impl PhoneNumberWithCountryCodeSource {
    pub fn new(phone_number: String, country_code_source: CountryCodeSource) -> (r: Self)
        ensures
            r.phone_number == phone_number,
            r.country_code_source == country_code_source,
    {
        Self { phone_number, country_code_source }
    }
}

/// The outcome of the search for a calling code: the code (zero where the
/// number states none), the number that is left, and where the code came
/// from.
#[derive(Debug)]
pub struct CountryCodeExtraction {
    pub country_code: i32,
    pub national_number: String,
    pub country_code_source: CountryCodeSource,
}

} // verus!
