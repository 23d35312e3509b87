//! The metadata store: the records by region, the records of the
//! non-geographical calling codes, and the index from calling codes to the
//! regions that share them.

use crate::helper_constants::REGION_CODE_FOR_NON_GEO_ENTITY;
use crate::phonemetadata::PhoneMetadata;
use crate::region_code::RegionCode;
use crate::text::str_equal;
use vstd::prelude::*;

verus! {

/// The first position of a sequence at which a predicate holds.
pub open spec fn first_index<T>(s: Seq<T>, p: spec_fn(T) -> bool) -> Option<int>
    decreases s.len(),
{
    if s.len() == 0 {
        None
    } else {
        match first_index(s.drop_last(), p) {
            Some(i) => Some(i),
            None => if p(s.last()) {
                Some(s.len() - 1)
            } else {
                None
            },
        }
    }
}

pub proof fn lemma_first_index<T>(s: Seq<T>, p: spec_fn(T) -> bool)
    ensures
        match first_index(s, p) {
            Some(i) => 0 <= i < s.len() && p(s[i]) && forall|j: int| 0 <= j < i ==> !p(s[j]),
            None => forall|j: int| 0 <= j < s.len() ==> !p(s[j]),
        },
    decreases s.len(),
{
    if s.len() > 0 {
        lemma_first_index(s.drop_last(), p);
        assert(forall|j: int| 0 <= j < s.len() - 1 ==> s.drop_last()[j] == s[j]);
    }
}

pub proof fn lemma_first_index_found<T>(s: Seq<T>, p: spec_fn(T) -> bool, i: int)
    requires
        0 <= i < s.len(),
        p(s[i]),
        forall|j: int| 0 <= j < i ==> !p(s[j]),
    ensures
        first_index(s, p) == Some(i),
{
    lemma_first_index(s, p);
}

pub proof fn lemma_first_index_none<T>(s: Seq<T>, p: spec_fn(T) -> bool)
    requires
        forall|j: int| 0 <= j < s.len() ==> !p(s[j]),
    ensures
        first_index(s, p) is None,
{
    lemma_first_index(s, p);
}

/// The regions that share one calling code, as positions in the list of
/// records, the main region first.
pub struct CodeEntry {
    pub code: i32,
    pub regions: Vec<usize>,
}

impl View for CodeEntry {
    type V = (i32, Seq<usize>);

    open spec fn view(&self) -> (i32, Seq<usize>) {
        (self.code, self.regions@)
    }
}

/// The index as a sequence of calling codes with their regions.
pub open spec fn index_view(index: Seq<CodeEntry>) -> Seq<(i32, Seq<usize>)> {
    index.map_values(|e: CodeEntry| e@)
}

/// Whether an index is sorted by calling code, with no code twice.
pub open spec fn strictly_sorted(index: Seq<(i32, Seq<usize>)>) -> bool {
    forall|i: int, j: int| 0 <= i < j < index.len() ==> index[i].0 < index[j].0
}

/// The number of entries with a calling code below the given one: in a
/// sorted index, the position where the code stands or belongs.
pub open spec fn rank(index: Seq<(i32, Seq<usize>)>, code: i32) -> int
    decreases index.len(),
{
    if index.len() == 0 {
        0
    } else {
        rank(index.drop_last(), code) + if index.last().0 < code {
            1int
        } else {
            0int
        }
    }
}

pub proof fn lemma_rank(index: Seq<(i32, Seq<usize>)>, code: i32, lo: int)
    requires
        strictly_sorted(index),
        0 <= lo <= index.len(),
        forall|j: int| 0 <= j < lo ==> index[j].0 < code,
        forall|j: int| lo <= j < index.len() ==> index[j].0 >= code,
    ensures
        rank(index, code) == lo,
    decreases index.len(),
{
    if index.len() > 0 {
        let front = index.drop_last();
        assert(forall|j: int| 0 <= j < front.len() ==> front[j] == index[j]);
        if lo == index.len() {
            lemma_rank(front, code, lo - 1);
        } else {
            lemma_rank(front, code, lo);
        }
    }
}

/// Whether a record is the placeholder for the unknown region.
pub open spec fn is_unknown_region(metadata: PhoneMetadata) -> bool {
    metadata.spec_id() == "ZZ"@
}

/// Whether a record describes a non-geographical calling code.
pub open spec fn is_non_geographical(metadata: PhoneMetadata) -> bool {
    metadata.spec_id() == REGION_CODE_FOR_NON_GEO_ENTITY@
}

/// An index with one more region entered under a calling code. A main
/// region goes to the front of the regions of its code, any other to the
/// back; a code that is new gets an entry at its place in the order.
pub open spec fn index_with(
    index: Seq<(i32, Seq<usize>)>,
    code: i32,
    region: usize,
    main: bool,
) -> Seq<(i32, Seq<usize>)> {
    let at = rank(index, code);
    if at < index.len() && index[at].0 == code {
        index.update(
            at,
            (
                code,
                if main {
                    seq![region] + index[at].1
                } else {
                    index[at].1.push(region)
                },
            ),
        )
    } else {
        index.insert(at, (code, seq![region]))
    }
}

/// The index of a list of records: every record but the placeholder for the
/// unknown region is entered under its calling code, in the order of the
/// list.
pub open spec fn index_of(records: Seq<PhoneMetadata>) -> Seq<(i32, Seq<usize>)>
    decreases records.len(),
{
    if records.len() == 0 {
        Seq::empty()
    } else {
        let before = index_of(records.drop_last());
        let last = records.last();
        if is_unknown_region(last) {
            before
        } else {
            index_with(
                before,
                last.spec_country_code(),
                (records.len() - 1) as usize,
                last.main_country_for_code,
            )
        }
    }
}

pub proof fn lemma_index_with_sorted(
    index: Seq<(i32, Seq<usize>)>,
    code: i32,
    region: usize,
    main: bool,
)
    requires
        strictly_sorted(index),
    ensures
        strictly_sorted(index_with(index, code, region, main)),
{
    lemma_rank_partitions(index, code);
}

pub proof fn lemma_rank_partitions(index: Seq<(i32, Seq<usize>)>, code: i32)
    requires
        strictly_sorted(index),
    ensures
        0 <= rank(index, code) <= index.len(),
        forall|j: int| 0 <= j < rank(index, code) ==> index[j].0 < code,
        forall|j: int| rank(index, code) <= j < index.len() ==> index[j].0 >= code,
    decreases index.len(),
{
    if index.len() > 0 {
        let front = index.drop_last();
        assert(forall|j: int| 0 <= j < front.len() ==> front[j] == index[j]);
        lemma_rank_partitions(front, code);
        if index.last().0 < code {
            assert forall|j: int| 0 <= j < index.len() implies index[j].0 < code by {
                if j < index.len() - 1 {
                    assert(index[j].0 < index[index.len() - 1].0);
                }
            }
            lemma_rank(front, code, front.len() as int);
        }
    }
}

pub proof fn lemma_index_of_sorted(records: Seq<PhoneMetadata>)
    ensures
        strictly_sorted(index_of(records)),
    decreases records.len(),
{
    if records.len() > 0 {
        lemma_index_of_sorted(records.drop_last());
        let last = records.last();
        if !is_unknown_region(last) {
            lemma_index_with_sorted(
                index_of(records.drop_last()),
                last.spec_country_code(),
                (records.len() - 1) as usize,
                last.main_country_for_code,
            );
        }
    }
}

/// The position in a sorted index where a calling code stands or belongs.
pub fn lower_bound(index: &Vec<CodeEntry>, code: i32) -> (at: usize)
    requires
        strictly_sorted(index_view(index@)),
    ensures
        at == rank(index_view(index@), code),
        at <= index@.len(),
{
    let ghost view = index_view(index@);
    let mut lo: usize = 0;
    let mut hi: usize = index.len();
    while lo < hi
        invariant
            view == index_view(index@),
            strictly_sorted(view),
            0 <= lo <= hi <= index@.len(),
            forall|j: int| 0 <= j < lo ==> view[j].0 < code,
            forall|j: int| hi <= j < view.len() ==> view[j].0 >= code,
        decreases hi - lo,
    {
        let mid: usize = lo + (hi - lo) / 2;
        assert(view[mid as int].0 == index@[mid as int].code);
        if index[mid].code < code {
            assert forall|j: int| 0 <= j < mid + 1 implies view[j].0 < code by {
                if j < mid {
                    assert(view[j].0 < view[mid as int].0);
                }
            }
            lo = mid + 1;
        } else {
            assert forall|j: int| mid <= j < view.len() implies view[j].0 >= code by {
                if j > mid {
                    assert(view[mid as int].0 < view[j].0);
                }
            }
            hi = mid;
        }
    }
    proof {
        lemma_rank(view, code, lo as int);
    }
    lo
}

/// The entry of a calling code in an index, if the index has one.
pub open spec fn entry_of(index: Seq<(i32, Seq<usize>)>, code: i32) -> Option<Seq<usize>> {
    let at = rank(index, code);
    if at < index.len() && index[at].0 == code {
        Some(index[at].1)
    } else {
        None
    }
}

/// Builds the index of a list of records.
pub fn build_index(records: &Vec<PhoneMetadata>) -> (index: Vec<CodeEntry>)
    ensures
        index_view(index@) == index_of(records@),
        strictly_sorted(index_view(index@)),
{
    let mut index: Vec<CodeEntry> = Vec::new();
    let mut i: usize = 0;
    assert(index_view(index@) =~= index_of(records@.take(0)));
    while i < records.len()
        invariant
            i <= records@.len(),
            index_view(index@) == index_of(records@.take(i as int)),
        decreases records@.len() - i,
    {
        let record = &records[i];
        proof {
            assert(records@.take(i + 1).drop_last() == records@.take(i as int));
            assert(records@.take(i + 1).last() == records@[i as int]);
            lemma_index_of_sorted(records@.take(i as int));
        }
        if !str_equal(record.id(), RegionCode::get_unknown()) {
            let code = record.country_code();
            let at = lower_bound(&index, code);
            let ghost before = index_view(index@);
            if at < index.len() && index[at].code == code {
                let mut entry = index.remove(at);
                if record.main_country_for_code {
                    entry.regions.insert(0, i);
                    assert(entry.regions@ =~= seq![i] + before[at as int].1);
                } else {
                    entry.regions.push(i);
                }
                index.insert(at, entry);
                assert(index_view(index@) =~= index_with(
                    before,
                    code,
                    i,
                    record.main_country_for_code,
                ));
            } else {
                let mut regions: Vec<usize> = Vec::new();
                regions.push(i);
                assert(regions@ =~= seq![i]);
                index.insert(at, CodeEntry { code, regions });
                assert(index_view(index@) =~= index_with(
                    before,
                    code,
                    i,
                    record.main_country_for_code,
                ));
            }
        }
        i += 1;
    }
    proof {
        assert(records@.take(i as int) == records@);
        lemma_index_of_sorted(records@);
    }
    index
}

} // verus!
