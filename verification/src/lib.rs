//! Parsing, validation, classification, formatting and comparison of
//! international telephone numbers against region-scoped numbering-plan
//! metadata.
//!
//! The entry point is [`PhoneNumberUtil`], built once on a collection of
//! metadata. Text is matched against the patterns of the metadata by the
//! `regex` crate; what the engine answers is given a name in `regex_util`,
//! and the contracts of the library are stated over those names.

pub mod char_mappings;
pub mod dialing;
pub mod enums;
pub mod errors;
pub mod examples;
pub mod formatting;
pub mod helper_constants;
pub mod helper_functions;
pub mod helper_types;
pub mod matching;
pub mod metadata_store;
pub mod normalization;
pub mod parsing;
pub mod phone_number_regexps_and_mappings;
pub mod phonemetadata;
pub mod phonenumber;
pub mod phonenumberutil;
pub mod phonenumberutil_internal;
pub mod regex_based_matcher;
pub mod regex_util;
pub mod regexp_cache;
pub mod region_code;
pub mod string_util;
pub mod text;
pub mod validation;

pub use enums::{CountryCodeSource, MatchType, NumberLengthType, PhoneNumberFormat, PhoneNumberType};
pub use errors::{
    ExtractNumberError, GetExampleNumberError, InternalLogicError, InvalidNumberError,
    NotANumberError, ParseError, ValidationError,
};
pub use phonemetadata::{NumberFormat, PhoneMetadata, PhoneMetadataCollection, PhoneNumberDesc};
pub use phonenumber::PhoneNumber;
pub use phonenumberutil::PhoneNumberUtil;
