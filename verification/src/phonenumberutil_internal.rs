//! The engine: the metadata store behind every operation, and its lookups.
//! Parsing, validation, formatting and matching are in the modules beside
//! this one.

use crate::enums::PhoneNumberType;
use crate::errors::InternalLogicError;
use crate::helper_constants::{NANPA_COUNTRY_CODE, REGION_CODE_FOR_NON_GEO_ENTITY};
use crate::helper_functions::{get_supported_types_for_metadata, supported_types};
use crate::metadata_store::{
    build_index, entry_of, first_index, index_of, index_view, is_non_geographical,
    is_unknown_region, lemma_first_index_found, lemma_first_index_none, lemma_index_of_sorted,
    lemma_rank_partitions, lower_bound, rank, strictly_sorted, CodeEntry,
};
use crate::phone_number_regexps_and_mappings::PhoneNumberRegExpsAndMappings;
use crate::phonemetadata::{formats_compile, NumberFormat, PhoneMetadata, PhoneMetadataCollection};
use crate::regex_based_matcher::RegexBasedMatcher;
use crate::regex_util::{pattern_compiles, CompiledPattern};
use crate::regexp_cache::ErrorInvalidRegex;
use crate::region_code::RegionCode;
use crate::text::str_equal;
use vstd::prelude::*;

verus! {

/// The engine. It owns the metadata, read-only once built, and the compiled
/// patterns.
pub struct PhoneNumberUtilInternal {
    /// The patterns of the number grammar, and the cache for the patterns of
    /// the metadata.
    pub reg_exps: PhoneNumberRegExpsAndMappings,
    pub matcher_api: RegexBasedMatcher,
    /// Every record, of regions and of non-geographical calling codes.
    pub metadata: Vec<PhoneMetadata>,
    /// For each calling code, the regions that share it, sorted by code.
    pub country_calling_code_to_region_code_map: Vec<CodeEntry>,
}

/// Whether every record of a list has patterns that compile.
pub open spec fn records_compile(records: Seq<PhoneMetadata>) -> bool {
    forall|i: int| 0 <= i < records.len() ==> (#[trigger] records[i]).patterns_compile()
}

/// Whether a record is that of the given region: records of
/// non-geographical calling codes and the placeholder for the unknown region
/// belong to no region.
pub open spec fn is_record_of_region(metadata: PhoneMetadata, region_code: Seq<char>) -> bool {
    metadata.spec_id() == region_code && !is_unknown_region(metadata) && !is_non_geographical(
        metadata,
    )
}

/// Whether a record is that of the given non-geographical calling code.
pub open spec fn is_record_of_non_geo_code(metadata: PhoneMetadata, code: i32) -> bool {
    is_non_geographical(metadata) && metadata.spec_country_code() == code
}

/// The record of a region in a list of records.
pub open spec fn record_of_region(records: Seq<PhoneMetadata>, region_code: Seq<char>) -> Option<
    PhoneMetadata,
> {
    match first_index(records, |m: PhoneMetadata| is_record_of_region(m, region_code)) {
        Some(i) => Some(records[i]),
        None => None,
    }
}

/// The record of a non-geographical calling code in a list of records.
pub open spec fn record_of_non_geo_code(records: Seq<PhoneMetadata>, code: i32) -> Option<
    PhoneMetadata,
> {
    match first_index(records, |m: PhoneMetadata| is_record_of_non_geo_code(m, code)) {
        Some(i) => Some(records[i]),
        None => None,
    }
}

/// Whether an optional pattern, where present, compiles. Fails with the
/// pattern that the engine refused.
pub fn check_optional_pattern(pattern: &Option<String>) -> (r: Result<(), ErrorInvalidRegex>)
    ensures
        r is Ok <==> crate::phonemetadata::optional_pattern_compiles(*pattern),
        r matches Err(e) ==> !pattern_compiles(e.pattern@) && crate::text::text_of(*pattern)
            == e.pattern@,
{
    match pattern {
        Some(p) => check_pattern(p.as_str()),
        None => Ok(()),
    }
}

/// Whether a pattern compiles. Fails with the pattern if the engine refuses
/// it.
fn check_pattern(pattern: &str) -> (r: Result<(), ErrorInvalidRegex>)
    ensures
        r is Ok <==> pattern_compiles(pattern@),
        r matches Err(e) ==> e.pattern@ == pattern@,
{
    match CompiledPattern::compile(pattern) {
        Ok(_) => Ok(()),
        Err(_) => Err(ErrorInvalidRegex { pattern: pattern.to_owned() }),
    }
}

/// Whether every pattern of a formatting rule compiles.
fn check_format(format: &NumberFormat) -> (r: Result<(), ErrorInvalidRegex>)
    ensures
        r is Ok <==> format.patterns_compile(),
        r matches Err(e) ==> !pattern_compiles(e.pattern@),
{
    check_pattern(format.pattern())?;
    let mut i: usize = 0;
    while i < format.leading_digits_pattern.len()
        invariant
            i <= format.leading_digits_pattern@.len(),
            pattern_compiles(format.spec_pattern()),
            forall|k: int| 0 <= k < i ==> pattern_compiles(format.leading_digits_pattern@[k]@),
        decreases format.leading_digits_pattern@.len() - i,
    {
        check_pattern(format.leading_digits_pattern[i].as_str())?;
        i += 1;
    }
    Ok(())
}

/// Whether every pattern of a list of formatting rules compiles.
pub fn check_formats(formats: &Vec<NumberFormat>) -> (r: Result<(), ErrorInvalidRegex>)
    ensures
        r is Ok <==> formats_compile(formats@),
        r matches Err(e) ==> !pattern_compiles(e.pattern@),
{
    let mut i: usize = 0;
    while i < formats.len()
        invariant
            i <= formats@.len(),
            forall|k: int| 0 <= k < i ==> (#[trigger] formats@[k]).patterns_compile(),
        decreases formats@.len() - i,
    {
        check_format(&formats[i])?;
        i += 1;
    }
    Ok(())
}

/// Whether every pattern of a record compiles.
pub fn check_metadata(metadata: &PhoneMetadata) -> (r: Result<(), ErrorInvalidRegex>)
    ensures
        r is Ok <==> metadata.patterns_compile(),
        r matches Err(e) ==> !pattern_compiles(e.pattern@),
{
    check_optional_pattern(&metadata.general_desc.national_number_pattern)?;
    check_optional_pattern(&metadata.fixed_line.national_number_pattern)?;
    check_optional_pattern(&metadata.mobile.national_number_pattern)?;
    check_optional_pattern(&metadata.toll_free.national_number_pattern)?;
    check_optional_pattern(&metadata.premium_rate.national_number_pattern)?;
    check_optional_pattern(&metadata.shared_cost.national_number_pattern)?;
    check_optional_pattern(&metadata.personal_number.national_number_pattern)?;
    check_optional_pattern(&metadata.voip.national_number_pattern)?;
    check_optional_pattern(&metadata.pager.national_number_pattern)?;
    check_optional_pattern(&metadata.uan.national_number_pattern)?;
    check_optional_pattern(&metadata.voicemail.national_number_pattern)?;
    check_optional_pattern(&metadata.no_international_dialling.national_number_pattern)?;
    check_optional_pattern(&metadata.international_prefix)?;
    check_optional_pattern(&metadata.national_prefix_for_parsing)?;
    check_optional_pattern(&metadata.leading_digits)?;
    check_formats(&metadata.number_format)?;
    check_formats(&metadata.intl_number_format)?;
    Ok(())
}

/// Every position held by an index of a list of records is a position of a
/// record that is not the placeholder for the unknown region and that has
/// the calling code of the entry.
pub open spec fn positions_valid(index: Seq<(i32, Seq<usize>)>, records: Seq<PhoneMetadata>)
    -> bool {
    forall|i: int, k: int|
        0 <= i < index.len() && 0 <= k < index[i].1.len() ==> {
            &&& (#[trigger] index[i].1[k]) < records.len()
            &&& records[index[i].1[k] as int].spec_country_code() == index[i].0
            &&& !is_unknown_region(records[index[i].1[k] as int])
        }
}

pub open spec fn entries_nonempty(index: Seq<(i32, Seq<usize>)>) -> bool {
    forall|i: int| 0 <= i < index.len() ==> (#[trigger] index[i]).1.len() > 0
}

pub proof fn lemma_index_of_positions(records: Seq<PhoneMetadata>)
    requires
        records.len() <= usize::MAX,
    ensures
        positions_valid(index_of(records), records),
        entries_nonempty(index_of(records)),
    decreases records.len(),
{
    if records.len() > 0 {
        let front = records.drop_last();
        lemma_index_of_positions(front);
        lemma_index_of_sorted(front);
        let before = index_of(front);
        let last = records.last();
        assert(forall|j: int| 0 <= j < front.len() ==> front[j] == records[j]);
        if !is_unknown_region(last) {
            let code = last.spec_country_code();
            lemma_rank_partitions(before, code);
            let at = rank(before, code);
            let after = index_of(records);
            if at < before.len() && before[at].0 == code {
                assert forall|i: int, k: int|
                    0 <= i < after.len() && 0 <= k < after[i].1.len() implies {
                    &&& (#[trigger] after[i].1[k]) < records.len()
                    &&& records[after[i].1[k] as int].spec_country_code() == after[i].0
                    &&& !is_unknown_region(records[after[i].1[k] as int])
                } by {
                    if i == at {
                        if last.main_country_for_code {
                            if k > 0 {
                                assert(after[i].1[k] == before[i].1[k - 1]);
                            }
                        } else {
                            if k < before[i].1.len() {
                                assert(after[i].1[k] == before[i].1[k]);
                            }
                        }
                    } else {
                        assert(after[i].1[k] == before[i].1[k]);
                    }
                }
                assert forall|i: int| 0 <= i < after.len() implies (#[trigger] after[i]).1.len()
                    > 0 by {
                    if i != at {
                        assert(after[i] == before[i]);
                    }
                }
            } else {
                assert forall|i: int, k: int|
                    0 <= i < after.len() && 0 <= k < after[i].1.len() implies {
                    &&& (#[trigger] after[i].1[k]) < records.len()
                    &&& records[after[i].1[k] as int].spec_country_code() == after[i].0
                    &&& !is_unknown_region(records[after[i].1[k] as int])
                } by {
                    if i < at {
                        assert(after[i].1[k] == before[i].1[k]);
                    } else if i > at {
                        assert(after[i].1[k] == before[i - 1].1[k]);
                    }
                }
                assert forall|i: int| 0 <= i < after.len() implies (#[trigger] after[i]).1.len()
                    > 0 by {
                    if i < at {
                        assert(after[i] == before[i]);
                    } else if i > at {
                        assert(after[i] == before[i - 1]);
                    }
                }
            }
        }
    }
}

/// The texts of a list of string slices.
pub open spec fn str_views(v: Seq<&str>) -> Seq<Seq<char>> {
    Seq::new(v.len(), |j: int| v[j]@)
}

impl PhoneNumberUtilInternal {
    /// The index as a sequence of calling codes with the positions of their
    /// regions.
    pub open spec fn index(&self) -> Seq<(i32, Seq<usize>)> {
        index_view(self.country_calling_code_to_region_code_map@)
    }

    /// The engine is well formed when the patterns of its grammar are in
    /// place, every pattern of its metadata compiles, and its index is the
    /// index of its records.
    pub open spec fn wf(&self) -> bool {
        &&& self.reg_exps.wf()
        &&& records_compile(self.metadata@)
        &&& self.index() == index_of(self.metadata@)
        &&& strictly_sorted(self.index())
        &&& positions_valid(self.index(), self.metadata@)
        &&& entries_nonempty(self.index())
    }

    /// Whether an engine can be built on a collection: the engine accepts
    /// the patterns of the grammar and those of every record.
    pub open spec fn can_be_built_on(records: Seq<PhoneMetadata>) -> bool {
        PhoneNumberRegExpsAndMappings::grammar_compiles() && records_compile(records)
    }

    /// Builds the engine on a collection of metadata. Fails exactly when the
    /// regular-expression engine refuses a pattern of the grammar or of a
    /// record.
    pub fn new_for_metadata(metadata_collection: PhoneMetadataCollection) -> (r: Result<
        PhoneNumberUtilInternal,
        InternalLogicError,
    >)
        ensures
            r is Ok <==> Self::can_be_built_on(metadata_collection.metadata@),
            r matches Ok(util) ==> util.wf() && util.metadata == metadata_collection.metadata,
            r matches Err(e) ==> (e matches InternalLogicError::InvalidRegex(broken)
                && !pattern_compiles(broken.pattern@)),
    {
        let reg_exps = match PhoneNumberRegExpsAndMappings::new() {
            Ok(reg_exps) => reg_exps,
            Err(e) => {
                return Err(InternalLogicError::InvalidRegex(e));
            },
        };
        let metadata = metadata_collection.metadata;
        let mut i: usize = 0;
        while i < metadata.len()
            invariant
                i <= metadata@.len(),
                metadata == metadata_collection.metadata,
                forall|k: int| 0 <= k < i ==> (#[trigger] metadata@[k]).patterns_compile(),
            decreases metadata@.len() - i,
        {
            match check_metadata(&metadata[i]) {
                Ok(_) => {},
                Err(e) => {
                    assert(!metadata@[i as int].patterns_compile());
                    return Err(InternalLogicError::InvalidRegex(e));
                },
            }
            i += 1;
        }
        let country_calling_code_to_region_code_map = build_index(&metadata);
        proof {
            lemma_index_of_positions(metadata@);
        }
        Ok(
            PhoneNumberUtilInternal {
                reg_exps,
                matcher_api: RegexBasedMatcher::new(),
                metadata,
                country_calling_code_to_region_code_map,
            },
        )
    }

    /// The record of a region.
    pub open spec fn spec_metadata_for_region(&self, region_code: Seq<char>) -> Option<
        PhoneMetadata,
    > {
        record_of_region(self.metadata@, region_code)
    }

    /// The record of a non-geographical calling code.
    pub open spec fn spec_metadata_for_non_geographical_region(&self, code: i32) -> Option<
        PhoneMetadata,
    > {
        record_of_non_geo_code(self.metadata@, code)
    }

    /// The record of a region, or, for the region code of the
    /// non-geographical entities, that of the calling code.
    pub open spec fn spec_metadata_for_region_or_calling_code(
        &self,
        country_calling_code: i32,
        region_code: Seq<char>,
    ) -> Option<PhoneMetadata> {
        if region_code == REGION_CODE_FOR_NON_GEO_ENTITY@ {
            self.spec_metadata_for_non_geographical_region(country_calling_code)
        } else {
            self.spec_metadata_for_region(region_code)
        }
    }

    /// The record of a region.
    pub fn get_metadata_for_region(&self, region_code: &str) -> (r: Option<&PhoneMetadata>)
        ensures
            match r {
                Some(m) => self.spec_metadata_for_region(region_code@) == Some(*m),
                None => self.spec_metadata_for_region(region_code@) is None,
            },
            self.wf() ==> (r matches Some(m) ==> m.patterns_compile()),
    {
        let ghost p = |m: PhoneMetadata| is_record_of_region(m, region_code@);
        let mut i: usize = 0;
        while i < self.metadata.len()
            invariant
                i <= self.metadata@.len(),
                p == (|m: PhoneMetadata| is_record_of_region(m, region_code@)),
                forall|j: int| 0 <= j < i ==> !p(self.metadata@[j]),
            decreases self.metadata@.len() - i,
        {
            let m = &self.metadata[i];
            if str_equal(m.id(), region_code) && !str_equal(m.id(), RegionCode::get_unknown())
                && !str_equal(m.id(), REGION_CODE_FOR_NON_GEO_ENTITY) {
                proof {
                    lemma_first_index_found(self.metadata@, p, i as int);
                }
                return Some(m);
            }
            i += 1;
        }
        proof {
            lemma_first_index_none(self.metadata@, p);
        }
        None
    }

    /// The record of a non-geographical calling code.
    pub fn get_metadata_for_non_geographical_region(&self, country_calling_code: i32) -> (r:
        Option<&PhoneMetadata>)
        ensures
            match r {
                Some(m) => self.spec_metadata_for_non_geographical_region(country_calling_code)
                    == Some(*m),
                None => self.spec_metadata_for_non_geographical_region(country_calling_code)
                    is None,
            },
            self.wf() ==> (r matches Some(m) ==> m.patterns_compile()),
    {
        let ghost p = |m: PhoneMetadata| is_record_of_non_geo_code(m, country_calling_code);
        let mut i: usize = 0;
        while i < self.metadata.len()
            invariant
                i <= self.metadata@.len(),
                p == (|m: PhoneMetadata| is_record_of_non_geo_code(m, country_calling_code)),
                forall|j: int| 0 <= j < i ==> !p(self.metadata@[j]),
            decreases self.metadata@.len() - i,
        {
            let m = &self.metadata[i];
            if str_equal(m.id(), REGION_CODE_FOR_NON_GEO_ENTITY) && m.country_code()
                == country_calling_code {
                proof {
                    lemma_first_index_found(self.metadata@, p, i as int);
                }
                return Some(m);
            }
            i += 1;
        }
        proof {
            lemma_first_index_none(self.metadata@, p);
        }
        None
    }

    /// The record of a region, or, for the region code of the
    /// non-geographical entities, that of the calling code.
    pub fn get_metadata_for_region_or_calling_code(
        &self,
        country_calling_code: i32,
        region_code: &str,
    ) -> (r: Option<&PhoneMetadata>)
        ensures
            match r {
                Some(m) => self.spec_metadata_for_region_or_calling_code(
                    country_calling_code,
                    region_code@,
                ) == Some(*m),
                None => self.spec_metadata_for_region_or_calling_code(
                    country_calling_code,
                    region_code@,
                ) is None,
            },
            self.wf() ==> (r matches Some(m) ==> m.patterns_compile()),
    {
        if str_equal(region_code, REGION_CODE_FOR_NON_GEO_ENTITY) {
            self.get_metadata_for_non_geographical_region(country_calling_code)
        } else {
            self.get_metadata_for_region(region_code)
        }
    }

    /// Whether the store has a record for the region.
    pub open spec fn spec_is_valid_region_code(&self, region_code: Seq<char>) -> bool {
        self.spec_metadata_for_region(region_code) is Some
    }

    pub fn is_valid_region_code(&self, region_code: &str) -> (r: bool)
        ensures
            r == self.spec_is_valid_region_code(region_code@),
    {
        self.get_metadata_for_region(region_code).is_some()
    }

    /// The positions of the records that share a calling code, the main
    /// region first.
    pub open spec fn spec_region_positions(&self, country_calling_code: i32) -> Option<
        Seq<usize>,
    > {
        entry_of(self.index(), country_calling_code)
    }

    /// Whether any region or non-geographical entity has the calling code.
    pub open spec fn spec_has_valid_country_calling_code(&self, country_calling_code: i32)
        -> bool {
        self.spec_region_positions(country_calling_code) is Some
    }

    /// The place of a calling code in the index, if it has one.
    pub fn find_calling_code(&self, country_calling_code: i32) -> (r: Option<usize>)
        requires
            self.wf(),
        ensures
            match r {
                Some(at) => at < self.country_calling_code_to_region_code_map@.len()
                    && self.spec_region_positions(country_calling_code) == Some(
                    self.country_calling_code_to_region_code_map@[at as int].regions@,
                ) && self.country_calling_code_to_region_code_map@[at as int].code
                    == country_calling_code,
                None => self.spec_region_positions(country_calling_code) is None,
            },
    {
        let at = lower_bound(&self.country_calling_code_to_region_code_map, country_calling_code);
        if at < self.country_calling_code_to_region_code_map.len()
            && self.country_calling_code_to_region_code_map[at].code == country_calling_code {
            assert(self.index()[at as int] == self.country_calling_code_to_region_code_map@[at as int]@);
            Some(at)
        } else {
            if at < self.country_calling_code_to_region_code_map.len() {
                assert(self.index()[at as int] == self.country_calling_code_to_region_code_map@[at as int]@);
            }
            None
        }
    }

    pub fn has_valid_country_calling_code(&self, country_calling_code: i32) -> (r: bool)
        requires
            self.wf(),
        ensures
            r == self.spec_has_valid_country_calling_code(country_calling_code),
    {
        self.find_calling_code(country_calling_code).is_some()
    }

    /// The region codes at a list of positions.
    pub open spec fn ids_at(&self, positions: Seq<usize>) -> Seq<Seq<char>> {
        Seq::new(positions.len(), |j: int| self.metadata@[positions[j] as int].spec_id())
    }

    /// The region codes that share a calling code, the main region first;
    /// nothing if no region has the code.
    pub open spec fn spec_region_codes_for_country_calling_code(&self, country_calling_code: i32)
        -> Option<Seq<Seq<char>>> {
        match self.spec_region_positions(country_calling_code) {
            Some(positions) => Some(self.ids_at(positions)),
            None => None,
        }
    }

    /// The region codes that share a calling code, the main region first;
    /// nothing if no region has the code.
    pub fn get_region_codes_for_country_calling_code(&self, country_calling_code: i32) -> (r:
        Option<Vec<&str>>)
        requires
            self.wf(),
        ensures
            match r {
                Some(codes) => self.spec_region_codes_for_country_calling_code(
                    country_calling_code,
                ) == Some(str_views(codes@)),
                None => self.spec_region_codes_for_country_calling_code(country_calling_code)
                    is None,
            },
    {
        match self.find_calling_code(country_calling_code) {
            None => None,
            Some(at) => {
                let positions = &self.country_calling_code_to_region_code_map[at].regions;
                assert(self.index()[at as int].1 == positions@);
                let mut codes: Vec<&str> = Vec::new();
                let mut k: usize = 0;
                while k < positions.len()
                    invariant
                        k <= positions@.len(),
                        at < self.index().len(),
                        self.index()[at as int].1 == positions@,
                        positions_valid(self.index(), self.metadata@),
                        codes@.len() == k,
                        forall|j: int|
                            0 <= j < k ==> (#[trigger] codes@[j])@
                                == self.metadata@[positions@[j] as int].spec_id(),
                    decreases positions@.len() - k,
                {
                    assert(self.index()[at as int].1[k as int] < self.metadata@.len());
                    codes.push(self.metadata[positions[k]].id());
                    k += 1;
                }
                assert(str_views(codes@) =~= self.ids_at(positions@));
                Some(codes)
            },
        }
    }

    /// The main region of a calling code, or the code of the unknown region
    /// if no region has the calling code.
    pub open spec fn spec_region_code_for_country_code(&self, country_calling_code: i32) -> Seq<
        char,
    > {
        match self.spec_region_positions(country_calling_code) {
            Some(positions) => self.metadata@[positions[0] as int].spec_id(),
            None => "ZZ"@,
        }
    }

    /// The main region of a calling code, or the code of the unknown region
    /// if no region has the calling code.
    pub fn get_region_code_for_country_code(&self, country_calling_code: i32) -> (r: &str)
        requires
            self.wf(),
        ensures
            r@ == self.spec_region_code_for_country_code(country_calling_code),
    {
        match self.find_calling_code(country_calling_code) {
            None => RegionCode::get_unknown(),
            Some(at) => {
                let positions = &self.country_calling_code_to_region_code_map[at].regions;
                assert(self.index()[at as int].1 == positions@);
                assert(self.index()[at as int].1.len() > 0);
                assert(self.index()[at as int].1[0] < self.metadata@.len());
                self.metadata[positions[0]].id()
            },
        }
    }

    /// The calling code of a region; nothing for a region without a record.
    pub open spec fn spec_country_code_for_region(&self, region_code: Seq<char>) -> Option<i32> {
        match self.spec_metadata_for_region(region_code) {
            Some(m) => Some(m.spec_country_code()),
            None => None,
        }
    }

    /// The calling code of a region; nothing for a region without a record.
    pub fn get_country_code_for_region(&self, region_code: &str) -> (r: Option<i32>)
        ensures
            r == self.spec_country_code_for_region(region_code@),
    {
        match self.get_metadata_for_region(region_code) {
            Some(m) => Some(m.country_code()),
            None => None,
        }
    }

    /// Whether a region belongs to the North American Numbering Plan: it has
    /// a record, and its calling code is 1.
    pub open spec fn spec_is_nanpa_country(&self, region_code: Seq<char>) -> bool {
        self.spec_country_code_for_region(region_code) == Some(NANPA_COUNTRY_CODE)
    }

    /// Whether a region belongs to the North American Numbering Plan.
    pub fn is_nanpa_country(&self, region_code: &str) -> (r: bool)
        ensures
            r == self.spec_is_nanpa_country(region_code@),
    {
        match self.get_country_code_for_region(region_code) {
            Some(code) => code == NANPA_COUNTRY_CODE,
            None => false,
        }
    }

    /// The types of number that a region has metadata for; nothing for a
    /// region without a record.
    pub fn get_supported_types_for_region(&self, region_code: &str) -> (r: Option<
        Vec<PhoneNumberType>,
    >)
        ensures
            match self.spec_metadata_for_region(region_code@) {
                Some(m) => r matches Some(types) && types@ == supported_types(m),
                None => r is None,
            },
    {
        match self.get_metadata_for_region(region_code) {
            Some(m) => {
                let mut types: Vec<PhoneNumberType> = Vec::new();
                get_supported_types_for_metadata(m, &mut types);
                assert(types@ =~= supported_types(*m));
                Some(types)
            },
            None => None,
        }
    }

    /// The types of number that a non-geographical calling code has metadata
    /// for; nothing for a code without a record.
    pub fn get_supported_types_for_non_geo_entity(&self, country_calling_code: i32) -> (r: Option<
        Vec<PhoneNumberType>,
    >)
        ensures
            match self.spec_metadata_for_non_geographical_region(country_calling_code) {
                Some(m) => r matches Some(types) && types@ == supported_types(m),
                None => r is None,
            },
    {
        match self.get_metadata_for_non_geographical_region(country_calling_code) {
            Some(m) => {
                let mut types: Vec<PhoneNumberType> = Vec::new();
                get_supported_types_for_metadata(m, &mut types);
                assert(types@ =~= supported_types(*m));
                Some(types)
            },
            None => None,
        }
    }
}

/// The region codes of the records of regions among the first `n` records.
pub open spec fn region_ids_upto(records: Seq<PhoneMetadata>, n: int) -> Seq<Seq<char>>
    decreases n,
{
    if n <= 0 || n > records.len() {
        Seq::empty()
    } else if is_unknown_region(records[n - 1]) || is_non_geographical(records[n - 1]) {
        region_ids_upto(records, n - 1)
    } else {
        region_ids_upto(records, n - 1).push(records[n - 1].spec_id())
    }
}

/// The calling codes of the records of non-geographical entities among the
/// first `n` records.
pub open spec fn non_geo_codes_upto(records: Seq<PhoneMetadata>, n: int) -> Seq<i32>
    decreases n,
{
    if n <= 0 || n > records.len() {
        Seq::empty()
    } else if is_non_geographical(records[n - 1]) {
        non_geo_codes_upto(records, n - 1).push(records[n - 1].spec_country_code())
    } else {
        non_geo_codes_upto(records, n - 1)
    }
}

impl PhoneNumberUtilInternal {
    /// The region codes that the store has a record for, in the order of
    /// the records.
    pub open spec fn spec_supported_regions(&self) -> Seq<Seq<char>> {
        region_ids_upto(self.metadata@, self.metadata@.len() as int)
    }

    /// The region codes that the store has a record for.
    pub fn get_supported_regions(&self) -> (r: Vec<&str>)
        ensures
            str_views(r@) == self.spec_supported_regions(),
    {
        let mut regions: Vec<&str> = Vec::new();
        let mut i: usize = 0;
        assert(str_views(regions@) =~= region_ids_upto(self.metadata@, 0));
        while i < self.metadata.len()
            invariant
                i <= self.metadata@.len(),
                str_views(regions@) == region_ids_upto(self.metadata@, i as int),
            decreases self.metadata@.len() - i,
        {
            let m = &self.metadata[i];
            if !str_equal(m.id(), RegionCode::get_unknown()) && !str_equal(
                m.id(),
                REGION_CODE_FOR_NON_GEO_ENTITY,
            ) {
                let ghost before = regions@;
                regions.push(m.id());
                assert(str_views(regions@) =~= str_views(before).push(m.spec_id()));
            }
            i += 1;
        }
        regions
    }

    /// The calling codes of the non-geographical entities, in the order of
    /// the records.
    pub open spec fn spec_supported_global_network_calling_codes(&self) -> Seq<i32> {
        non_geo_codes_upto(self.metadata@, self.metadata@.len() as int)
    }

    /// The calling codes of the non-geographical entities.
    pub fn get_supported_global_network_calling_codes(&self) -> (r: Vec<i32>)
        ensures
            r@ == self.spec_supported_global_network_calling_codes(),
    {
        let mut codes: Vec<i32> = Vec::new();
        let mut i: usize = 0;
        while i < self.metadata.len()
            invariant
                i <= self.metadata@.len(),
                codes@ == non_geo_codes_upto(self.metadata@, i as int),
            decreases self.metadata@.len() - i,
        {
            let m = &self.metadata[i];
            if str_equal(m.id(), REGION_CODE_FOR_NON_GEO_ENTITY) {
                codes.push(m.country_code());
            }
            i += 1;
        }
        codes
    }

    /// Every calling code that a region or a non-geographical entity has,
    /// in ascending order.
    pub open spec fn spec_supported_calling_codes(&self) -> Seq<i32> {
        Seq::new(self.index().len(), |i: int| self.index()[i].0)
    }

    /// Every calling code that a region or a non-geographical entity has.
    pub fn get_supported_calling_codes(&self) -> (r: Vec<i32>)
        ensures
            r@ == self.spec_supported_calling_codes(),
    {
        let mut codes: Vec<i32> = Vec::new();
        let mut i: usize = 0;
        while i < self.country_calling_code_to_region_code_map.len()
            invariant
                i <= self.country_calling_code_to_region_code_map@.len(),
                codes@.len() == i,
                forall|k: int| 0 <= k < i ==> codes@[k] == self.index()[k].0,
            decreases self.country_calling_code_to_region_code_map@.len() - i,
        {
            assert(self.index()[i as int] == self.country_calling_code_to_region_code_map@[i as int]@);
            codes.push(self.country_calling_code_to_region_code_map[i].code);
            i += 1;
        }
        assert(codes@ =~= self.spec_supported_calling_codes());
        codes
    }
}

} // verus!
