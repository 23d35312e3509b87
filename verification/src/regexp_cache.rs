//! A cache of compiled patterns, keyed by their source text.

use crate::regex_util::{
    captures_at_start, leftmost_captures, match_at_start, matches_at_start, matches_fully,
    pattern_compiles, replaced_first, CaptureParts, CompiledPattern, MatchParts, RegexConsume,
    RegexFullMatch,
};
use std::sync::Arc;
use vstd::prelude::*;

verus! {

/// `dashmap::DashMap`, a map that many callers can fill at the same time.
/// What it holds cannot be told from a shared reference to it, so nothing is
/// stated of its contents.
#[verifier::external_type_specification]
#[verifier::external_body]
#[verifier::reject_recursive_types(K)]
#[verifier::reject_recursive_types(V)]
#[verifier::reject_recursive_types(S)]
pub struct ExDashMap<K, V, S>(dashmap::DashMap<K, V, S>);

/// A pattern that the regular-expression engine refused.
#[derive(Debug, Clone, PartialEq, Eq)]
pub struct ErrorInvalidRegex {
    pub pattern: String,
}

impl ErrorInvalidRegex {
    /// The text shown for this error.
    pub fn message(&self) -> (text: String)
        ensures
            text@ == "An error occurred while trying to create regex: "@ + self.pattern@,
    {
        let mut text = "An error occurred while trying to create regex: ".to_owned();
        text.append(self.pattern.as_str());
        text
    }
}

/// The largest number of entries a new cache reserves room for.
pub const MAX_RESERVED_ENTRIES: usize = 4096;

/// Compiled patterns memoized by source text. Any number of callers may use
/// one cache at the same time.
pub struct RegexCache {
    cache: dashmap::DashMap<String, Arc<CompiledPattern>>,
}

/// Makes an empty map with `DashMap::with_capacity`, which reserves room for
/// the given number of entries.
#[verifier::external_body]
fn empty_map(capacity: usize) -> (map: dashmap::DashMap<String, Arc<CompiledPattern>>)
    requires
        capacity <= MAX_RESERVED_ENTRIES,
{
    dashmap::DashMap::with_capacity(capacity)
}

/// Looks a key up with `DashMap::get` and hands out a share of the value
/// stored under it, if there is one.
#[verifier::external_body]
fn lookup(map: &dashmap::DashMap<String, Arc<CompiledPattern>>, key: &str) -> (found: Option<
    Arc<CompiledPattern>,
>) {
    match map.get(key) {
        Some(entry) => Some(Arc::clone(entry.value())),
        None => None,
    }
}

/// Stores a share of the value under the key with `DashMap::entry` and
/// `Entry::or_insert`, unless the key is already taken.
#[verifier::external_body]
fn remember(
    map: &dashmap::DashMap<String, Arc<CompiledPattern>>,
    key: &str,
    value: &Arc<CompiledPattern>,
) {
    map.entry(key.to_owned()).or_insert(Arc::clone(value));
}

impl RegexCache {
    /// An empty cache with room for about `capacity` patterns.
    pub fn with_capacity(capacity: usize) -> (cache: RegexCache) {
        let reserved = if capacity <= MAX_RESERVED_ENTRIES {
            capacity
        } else {
            MAX_RESERVED_ENTRIES
        };
        RegexCache { cache: empty_map(reserved) }
    }

    /// The compiled form of a pattern, compiling it on first use. Fails
    /// exactly when the engine refuses the pattern.
    pub fn get_regex(&self, pattern: &str) -> (r: Result<Arc<CompiledPattern>, ErrorInvalidRegex>)
        ensures
            r is Ok <==> pattern_compiles(pattern@),
            r matches Ok(p) ==> p@ == pattern@,
            r matches Err(e) ==> e.pattern@ == pattern@,
    {
        if let Some(found) = lookup(&self.cache, pattern) {
            if found.has_source(pattern) {
                return Ok(found);
            }
        }
        match CompiledPattern::compile(pattern) {
            Ok(compiled) => {
                let shared = Arc::new(compiled);
                remember(&self.cache, pattern, &shared);
                Ok(shared)
            },
            Err(_) => Err(ErrorInvalidRegex { pattern: pattern.to_owned() }),
        }
    }
}

impl RegexCache {
    /// Whether the leftmost match of a pattern covers the whole text.
    pub fn full_match(&self, pattern: &str, text: &str) -> (r: bool)
        requires
            pattern_compiles(pattern@),
        ensures
            r == matches_fully(pattern@, text@),
    {
        match self.get_regex(pattern) {
            Ok(compiled) => compiled.full_match(text),
            Err(_) => false,
        }
    }

    /// Whether the leftmost match of a pattern begins at the start of the
    /// text.
    pub fn matches_start(&self, pattern: &str, text: &str) -> (r: bool)
        requires
            pattern_compiles(pattern@),
        ensures
            r == matches_at_start(pattern@, text@),
    {
        match self.get_regex(pattern) {
            Ok(compiled) => compiled.matches_start(text),
            Err(_) => false,
        }
    }

    /// The leftmost match of a pattern, if it begins at the start of the
    /// text.
    pub fn find_start(&self, pattern: &str, text: &str) -> (r: Option<MatchParts>)
        requires
            pattern_compiles(pattern@),
        ensures
            match r {
                Some(m) => match_at_start(pattern@, text@) == Some((m.matched@, m.after@))
                    && m.matched@ + m.after@ == text@,
                None => match_at_start(pattern@, text@) is None,
            },
    {
        match self.get_regex(pattern) {
            Ok(compiled) => compiled.find_start(text),
            Err(_) => None,
        }
    }

    /// The leftmost match of a pattern with its capture groups, if it begins
    /// at the start of the text.
    pub fn captures_start(&self, pattern: &str, text: &str) -> (r: Option<CaptureParts>)
        requires
            pattern_compiles(pattern@),
        ensures
            match r {
                Some(c) => captures_at_start(pattern@, text@) == Some((c.groups_view(), c.after@))
                    && c.groups@.len() >= 1 && c.groups@[0] is Some && c.groups@[0]->0@
                    + c.after@ == text@,
                None => captures_at_start(pattern@, text@) is None,
            },
    {
        match self.get_regex(pattern) {
            Ok(compiled) => compiled.captures_start(text),
            Err(_) => None,
        }
    }

    /// A text with the leftmost match of a pattern replaced by the expansion
    /// of a template.
    pub fn replace(&self, pattern: &str, text: &str, template: &str) -> (r: String)
        requires
            pattern_compiles(pattern@),
        ensures
            r@ == replaced_first(pattern@, text@, template@),
    {
        match self.get_regex(pattern) {
            Ok(compiled) => compiled.replace(text, template),
            Err(_) => text.to_owned(),
        }
    }

    /// The leftmost match of a pattern with its capture groups.
    pub fn captures(&self, pattern: &str, text: &str) -> (r: Option<CaptureParts>)
        requires
            pattern_compiles(pattern@),
        ensures
            match r {
                Some(c) => leftmost_captures(pattern@, text@) == Some(c.parts()) && c.groups@.len()
                    >= 1 && c.groups@[0] is Some && c.before@ + c.groups@[0]->0@ + c.after@
                    == text@,
                None => leftmost_captures(pattern@, text@) is None,
            },
    {
        match self.get_regex(pattern) {
            Ok(compiled) => compiled.captures(text),
            Err(_) => None,
        }
    }
}

} // verus!
