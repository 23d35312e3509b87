//! Helpers on strings that are borrowed or owned.

use crate::text::{chars_of, starts_with, substring};
use std::borrow::Cow;
use vstd::prelude::*;

verus! {

/// A text without a prefix; nothing if the text does not start with the
/// prefix.
pub open spec fn without_prefix(s: Seq<char>, prefix: Seq<char>) -> Option<Seq<char>> {
    if prefix.is_prefix_of(s) {
        Some(s.skip(prefix.len() as int))
    } else {
        None
    }
}

/// Takes a prefix off a text; nothing if the text does not start with the
/// prefix.
pub fn strip_cow_prefix<'a>(cow: Cow<'a, str>, prefix: &str) -> (r: Option<Cow<'a, str>>)
    ensures
        match r {
            Some(rest) => without_prefix(cow@, prefix@) == Some(rest@),
            None => without_prefix(cow@, prefix@) is None,
        },
{
    let chars = match &cow {
        Cow::Borrowed(s) => chars_of(s),
        Cow::Owned(s) => chars_of(s.as_str()),
    };
    let prefix_chars = chars_of(prefix);
    if starts_with(&chars, &prefix_chars) {
        assert(chars@.skip(prefix_chars@.len() as int) == chars@.subrange(
            prefix_chars@.len() as int,
            chars@.len() as int,
        ));
        Some(Cow::Owned(substring(&chars, prefix_chars.len(), chars.len())))
    } else {
        None
    }
}

} // verus!
