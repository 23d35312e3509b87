//! The regular-expression engine, consumed as a capability.
//!
//! Patterns are compiled by the `regex` crate. What the engine answers is not
//! modelled here: each answer is given a name, a function of the pattern text
//! and the haystack alone, and the contracts of this library are stated over
//! those names.

use vstd::prelude::*;
use vstd::string::*;

verus! {

/// `regex::Regex`, a compiled pattern. Nothing inside it is visible here.
#[verifier::external_type_specification]
#[verifier::external_body]
pub struct ExRegex(regex::Regex);

/// `regex::Error`, the reason why a pattern was refused. Nothing inside it is
/// visible here.
#[verifier::external_type_specification]
#[verifier::external_body]
pub struct ExRegexError(regex::Error);

/// Whether `regex::Regex::new` accepts the pattern.
pub uninterp spec fn pattern_compiles(pattern: Seq<char>) -> bool;

/// What `regex::Regex::find` answers for a pattern and a haystack: nothing, or
/// the haystack cut in three, the text before the leftmost match, the match
/// itself, and the text after it.
pub uninterp spec fn leftmost_match(pattern: Seq<char>, haystack: Seq<char>) -> Option<
    (Seq<char>, Seq<char>, Seq<char>),
>;

/// What `regex::Regex::captures` answers for a pattern and a haystack:
/// nothing, or the text before the leftmost match, the capture groups (group 0
/// is the whole match; a group that took no part in the match is `None`), and
/// the text after the match.
pub uninterp spec fn leftmost_captures(pattern: Seq<char>, haystack: Seq<char>) -> Option<
    (Seq<char>, Seq<Option<Seq<char>>>, Seq<char>),
>;

/// What `regex::Regex::replace` gives for a pattern, a haystack and a
/// replacement template: the haystack with the leftmost match replaced by the
/// template, in which `$1`, `${1}` and the like stand for the capture groups
/// of that match; the haystack itself where nothing matches.
pub uninterp spec fn replaced_first(pattern: Seq<char>, haystack: Seq<char>, template: Seq<char>)
    -> Seq<char>;

/// A pattern the engine has accepted, together with its source text. Values
/// of this type are only made by `compile`, so the compiled form is always
/// that of the source text.
pub struct CompiledPattern {
    source: String,
    regex: regex::Regex,
}

impl View for CompiledPattern {
    type V = Seq<char>;

    /// The source text the pattern was compiled from.
    closed spec fn view(&self) -> Seq<char> {
        self.source@
    }
}

/// A match cut out of its haystack.
pub struct MatchParts {
    pub before: String,
    pub matched: String,
    pub after: String,
}

impl MatchParts {
    pub open spec fn parts(&self) -> (Seq<char>, Seq<char>, Seq<char>) {
        (self.before@, self.matched@, self.after@)
    }
}

/// A match with its capture groups, cut out of its haystack.
pub struct CaptureParts {
    pub before: String,
    pub groups: Vec<Option<String>>,
    pub after: String,
}

pub open spec fn group_view(group: Option<String>) -> Option<Seq<char>> {
    match group {
        Some(s) => Some(s@),
        None => None,
    }
}

impl CaptureParts {
    pub open spec fn groups_view(&self) -> Seq<Option<Seq<char>>> {
        self.groups@.map_values(|g: Option<String>| group_view(g))
    }

    pub open spec fn parts(&self) -> (Seq<char>, Seq<Option<Seq<char>>>, Seq<char>) {
        (self.before@, self.groups_view(), self.after@)
    }
}

impl CompiledPattern {
    #[verifier::type_invariant]
    spec fn accepted(&self) -> bool {
        pattern_compiles(self.source@)
    }

    /// Compiles a pattern with `regex::Regex::new`. The call succeeds exactly
    /// on the patterns the engine accepts, and the compiled pattern remembers
    /// the text it was compiled from.
    #[verifier::external_body]
    pub(crate) fn compile(pattern: &str) -> (r: Result<CompiledPattern, regex::Error>)
        ensures
            r is Ok <==> pattern_compiles(pattern@),
            r matches Ok(p) ==> p@ == pattern@,
    {
        match regex::Regex::new(pattern) {
            Ok(regex) => Ok(CompiledPattern { source: pattern.to_owned(), regex }),
            Err(e) => Err(e),
        }
    }

    /// Whether this pattern was compiled from the given text.
    pub fn has_source(&self, pattern: &str) -> (same: bool)
        ensures
            same == (self@ == pattern@),
            same ==> pattern_compiles(pattern@),
    {
        proof {
            use_type_invariant(self);
        }
        crate::text::str_equal(self.source.as_str(), pattern)
    }

    /// Runs `regex::Regex::find` and cuts the haystack at the ends of the
    /// leftmost match. The three pieces put together are the haystack again.
    #[verifier::external_body]
    pub(crate) fn find(&self, haystack: &str) -> (r: Option<MatchParts>)
        ensures
            match r {
                Some(m) => leftmost_match(self@, haystack@) == Some(m.parts())
                    && m.before@ + m.matched@ + m.after@ == haystack@,
                None => leftmost_match(self@, haystack@) is None,
            },
    {
        match self.regex.find(haystack) {
            Some(m) => Some(
                MatchParts {
                    before: haystack[..m.start()].to_owned(),
                    matched: m.as_str().to_owned(),
                    after: haystack[m.end()..].to_owned(),
                },
            ),
            None => None,
        }
    }

    /// Runs `regex::Regex::replace`, which replaces the leftmost match by
    /// the expansion of the template.
    #[verifier::external_body]
    pub(crate) fn replace(&self, haystack: &str, template: &str) -> (r: String)
        ensures
            r@ == replaced_first(self@, haystack@, template@),
    {
        self.regex.replace(haystack, template).into_owned()
    }

    /// Runs `regex::Regex::captures` and cuts the haystack at the ends of the
    /// leftmost match, keeping the text of every capture group. Group 0, the
    /// whole match, is always present, and the text before it, the match and
    /// the text after it put together are the haystack again.
    #[verifier::external_body]
    pub(crate) fn captures(&self, haystack: &str) -> (r: Option<CaptureParts>)
        ensures
            match r {
                Some(c) => leftmost_captures(self@, haystack@) == Some(c.parts())
                    && c.groups@.len() >= 1
                    && c.groups@[0] is Some
                    && c.before@ + c.groups@[0]->0@ + c.after@ == haystack@,
                None => leftmost_captures(self@, haystack@) is None,
            },
    {
        let c = self.regex.captures(haystack)?;
        let whole = c.get_match();
        let mut groups = Vec::with_capacity(c.len());
        for group in c.iter() {
            groups.push(match group {
                Some(m) => Some(m.as_str().to_owned()),
                None => None,
            });
        }
        let before = haystack[..whole.start()].to_owned();
        let after = haystack[whole.end()..].to_owned();
        Some(CaptureParts { before, groups, after })
    }
}

/// Whether the leftmost match of a pattern covers the whole text.
pub open spec fn matches_fully(pattern: Seq<char>, text: Seq<char>) -> bool {
    match leftmost_match(pattern, text) {
        Some(m) => m.0.len() == 0 && m.2.len() == 0,
        None => false,
    }
}

/// The leftmost match of a pattern where it begins at the start of the text:
/// the matched text and what follows it.
pub open spec fn match_at_start(pattern: Seq<char>, text: Seq<char>) -> Option<
    (Seq<char>, Seq<char>),
> {
    match leftmost_match(pattern, text) {
        Some(m) => if m.0.len() == 0 {
            Some((m.1, m.2))
        } else {
            None
        },
        None => None,
    }
}

/// Whether the leftmost match of a pattern begins at the start of the text.
pub open spec fn matches_at_start(pattern: Seq<char>, text: Seq<char>) -> bool {
    match_at_start(pattern, text) is Some
}

/// The capture groups of the leftmost match of a pattern where it begins at
/// the start of the text, and what follows the match.
pub open spec fn captures_at_start(pattern: Seq<char>, text: Seq<char>) -> Option<
    (Seq<Option<Seq<char>>>, Seq<char>),
> {
    match leftmost_captures(pattern, text) {
        Some(c) => if c.0.len() == 0 {
            Some((c.1, c.2))
        } else {
            None
        },
        None => None,
    }
}

/// Matching a whole text.
pub trait RegexFullMatch {
    spec fn full_match_spec(&self, s: Seq<char>) -> bool;

    /// Whether the leftmost match covers the whole text.
    fn full_match(&self, s: &str) -> (r: bool)
        ensures
            r == self.full_match_spec(s@),
    ;
}

/// Matching at the start of a text.
pub trait RegexConsume {
    spec fn find_start_spec(&self, s: Seq<char>) -> Option<(Seq<char>, Seq<char>)>;

    spec fn captures_start_spec(&self, s: Seq<char>) -> Option<
        (Seq<Option<Seq<char>>>, Seq<char>),
    >;

    /// Whether the leftmost match begins at the start of the text.
    fn matches_start(&self, s: &str) -> (r: bool)
        ensures
            r == self.find_start_spec(s@).is_some(),
    ;

    /// The leftmost match with its capture groups, if it begins at the start
    /// of the text.
    fn captures_start(&self, s: &str) -> (r: Option<CaptureParts>)
        ensures
            match r {
                Some(c) => c.before@.len() == 0 && self.captures_start_spec(s@) == Some(
                    (c.groups_view(), c.after@),
                ) && c.groups@.len() >= 1 && c.groups@[0] is Some && c.groups@[0]->0@ + c.after@
                    == s@,
                None => self.captures_start_spec(s@) is None,
            },
    ;

    /// The leftmost match, if it begins at the start of the text.
    fn find_start(&self, s: &str) -> (r: Option<MatchParts>)
        ensures
            match r {
                Some(m) => m.before@.len() == 0 && self.find_start_spec(s@) == Some(
                    (m.matched@, m.after@),
                ) && m.matched@ + m.after@ == s@,
                None => self.find_start_spec(s@) is None,
            },
    ;
}

impl RegexFullMatch for CompiledPattern {
    open spec fn full_match_spec(&self, s: Seq<char>) -> bool {
        matches_fully(self@, s)
    }

    fn full_match(&self, s: &str) -> (r: bool) {
        match self.find(s) {
            Some(m) => m.before.as_str().unicode_len() == 0 && m.after.as_str().unicode_len()
                == 0,
            None => false,
        }
    }
}

impl RegexConsume for CompiledPattern {
    open spec fn find_start_spec(&self, s: Seq<char>) -> Option<(Seq<char>, Seq<char>)> {
        match_at_start(self@, s)
    }

    open spec fn captures_start_spec(&self, s: Seq<char>) -> Option<
        (Seq<Option<Seq<char>>>, Seq<char>),
    > {
        captures_at_start(self@, s)
    }

    fn matches_start(&self, s: &str) -> (r: bool) {
        self.find_start(s).is_some()
    }

    fn captures_start(&self, s: &str) -> (r: Option<CaptureParts>) {
        match self.captures(s) {
            Some(c) => if c.before.as_str().unicode_len() == 0 {
                assert(c.before@ =~= Seq::<char>::empty());
                assert(c.before@ + c.groups@[0]->0@ =~= c.groups@[0]->0@);
                Some(c)
            } else {
                None
            },
            None => None,
        }
    }

    fn find_start(&self, s: &str) -> (r: Option<MatchParts>) {
        match self.find(s) {
            Some(m) => if m.before.as_str().unicode_len() == 0 {
                assert(m.before@ =~= Seq::<char>::empty());
                assert(m.before@ + m.matched@ =~= m.matched@);
                Some(m)
            } else {
                None
            },
            None => None,
        }
    }
}

} // verus!
