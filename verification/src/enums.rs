//! The enumerations of the public interface.

use vstd::prelude::*;

verus! {

/// The standard ways to write a phone number down.
///
/// For the Google Switzerland office the four styles give:
/// - `E164`: `+41446681800`
/// - `International`: `+41 44 668 1800`
/// - `National`: `044 668 1800`
/// - `RFC3966`: `tel:+41-44-668-1800`
#[derive(Debug, Clone, Copy, PartialEq, Eq, Hash, Structural)]
pub enum PhoneNumberFormat {
    /// A plus sign, the calling code and the national significant number,
    /// with no separators and no extension.
    E164,
    /// The calling code and the nationally formatted number, for display
    /// across borders.
    International,
    /// The form dialled inside the number's own country, which may carry a
    /// national prefix.
    National,
    /// A `tel:` URI with hyphens as separators.
    RFC3966,
}

/// What a phone number is used for.
#[derive(Debug, Clone, Copy, PartialEq, Eq, Hash, Structural)]
pub enum PhoneNumberType {
    FixedLine,
    Mobile,
    /// For regions where fixed-line and mobile numbers cannot be told apart
    /// by looking at the number.
    FixedLineOrMobile,
    /// Free for the caller.
    TollFree,
    PremiumRate,
    /// The cost is split between caller and recipient.
    SharedCost,
    VoIP,
    /// A number tied to a person and routed to wherever that person chooses.
    PersonalNumber,
    Pager,
    /// A single number that a company routes to its offices.
    UAN,
    VoiceMail,
    /// The number matches no pattern of its region.
    Unknown,
}

/// How closely two phone numbers agree.
#[derive(Debug, Clone, Copy, PartialEq, Eq, Hash, Structural)]
pub enum MatchType {
    NoMatch,
    /// One national significant number is a suffix of the other.
    ShortNsnMatch,
    /// The national significant numbers are the same, and at most one of the
    /// two numbers states a calling code.
    NsnMatch,
    /// Calling code, national significant number and extension all agree.
    ExactMatch,
}

/// The two ways in which the length of a number can be acceptable.
#[derive(Debug, Clone, Copy, PartialEq, Eq, Hash, Structural)]
pub enum NumberLengthType {
    /// The length is that of a complete, diallable number.
    IsPossible,
    /// The length is that of a number that can only be dialled inside a local
    /// area.
    IsPossibleLocalOnly,
}

/// Where the calling code of a parsed number came from.
#[allow(non_camel_case_types)]
#[derive(Debug, Clone, Copy, PartialEq, Eq, Hash, Structural)]
pub enum CountryCodeSource {
    UNSPECIFIED,
    /// The number began with a plus sign.
    FROM_NUMBER_WITH_PLUS_SIGN,
    /// The number began with an international dialling prefix.
    FROM_NUMBER_WITH_IDD,
    /// The number began with the calling code of the default region, with
    /// neither a plus sign nor a dialling prefix before it.
    FROM_NUMBER_WITHOUT_PLUS_SIGN,
    /// The number stated no calling code; the default region supplied it.
    FROM_DEFAULT_COUNTRY,
}

/// Every phone number type, in declaration order.
pub open spec fn all_phone_number_types() -> Seq<PhoneNumberType> {
    seq![
        PhoneNumberType::FixedLine,
        PhoneNumberType::Mobile,
        PhoneNumberType::FixedLineOrMobile,
        PhoneNumberType::TollFree,
        PhoneNumberType::PremiumRate,
        PhoneNumberType::SharedCost,
        PhoneNumberType::VoIP,
        PhoneNumberType::PersonalNumber,
        PhoneNumberType::Pager,
        PhoneNumberType::UAN,
        PhoneNumberType::VoiceMail,
        PhoneNumberType::Unknown,
    ]
}

impl PhoneNumberType {
    /// Every phone number type, in declaration order.
    pub fn iter() -> (types: Vec<PhoneNumberType>)
        ensures
            types@ == all_phone_number_types(),
    {
        let types = vec![
            PhoneNumberType::FixedLine,
            PhoneNumberType::Mobile,
            PhoneNumberType::FixedLineOrMobile,
            PhoneNumberType::TollFree,
            PhoneNumberType::PremiumRate,
            PhoneNumberType::SharedCost,
            PhoneNumberType::VoIP,
            PhoneNumberType::PersonalNumber,
            PhoneNumberType::Pager,
            PhoneNumberType::UAN,
            PhoneNumberType::VoiceMail,
            PhoneNumberType::Unknown,
        ];
        assert(types@ =~= all_phone_number_types());
        types
    }
}

} // verus!
