//! Operations on text that the library needs from `std`.

use std::cmp::Ordering;
use vstd::prelude::*;

verus! {

/// The code point of a character.
pub open spec fn code_point(c: char) -> int {
    c as u32 as int
}

/// The order of two texts, character by character; a proper prefix comes
/// first.
pub open spec fn text_order(a: Seq<char>, b: Seq<char>) -> Ordering
    decreases a.len(),
{
    if a.len() == 0 && b.len() == 0 {
        Ordering::Equal
    } else if a.len() == 0 {
        Ordering::Less
    } else if b.len() == 0 {
        Ordering::Greater
    } else if code_point(a[0]) < code_point(b[0]) {
        Ordering::Less
    } else if code_point(a[0]) > code_point(b[0]) {
        Ordering::Greater
    } else {
        text_order(a.skip(1), b.skip(1))
    }
}

/// A text is `Equal` to itself.
pub proof fn lemma_text_order_reflexive(a: Seq<char>)
    ensures
        text_order(a, a) == Ordering::Equal,
    decreases a.len(),
{
    if a.len() > 0 {
        lemma_text_order_reflexive(a.skip(1));
    }
}

/// `a` without the leading `prefix`, where it starts with it.
pub open spec fn without_prefix(prefix: Seq<char>, a: Seq<char>) -> Option<Seq<char>> {
    if prefix.is_prefix_of(a) {
        Some(a.skip(prefix.len() as int))
    } else {
        None
    }
}

/// A text that starts with `prefix` is `prefix` followed by the rest, and the
/// rest of `prefix` followed by `rest` is `rest`.
pub proof fn lemma_without_prefix(prefix: Seq<char>, a: Seq<char>, rest: Seq<char>)
    ensures
        without_prefix(prefix, prefix + rest) == Some(rest),
        without_prefix(prefix, a) == Some(rest) <==> a == prefix + rest,
{
    let joined = prefix + rest;
    assert(joined.subrange(0, prefix.len() as int) =~= prefix);
    assert(joined.skip(prefix.len() as int) =~= rest);
    if without_prefix(prefix, a) == Some(rest) {
        assert(a =~= prefix + rest);
    }
}

/// The text of an optional string.
pub open spec fn text_of(value: Option<String>) -> Option<Seq<char>> {
    match value {
        Some(s) => Some(s@),
        None => None,
    }
}

/// A copy of an optional string.
pub fn copy_text(value: &Option<String>) -> (r: Option<String>)
    ensures
        text_of(r) == text_of(*value),
{
    match value {
        Some(s) => Some(s.clone()),
        None => None,
    }
}

/// Borrows the text of an optional string.
pub fn as_text(value: &Option<String>) -> (r: Option<&str>)
    ensures
        match r {
            Some(s) => text_of(*value) == Some(s@),
            None => text_of(*value) is None,
        },
{
    match value {
        Some(s) => Some(s.as_str()),
        None => None,
    }
}

/// `Ord::cmp` of `str`, which orders texts by their bytes and so, character
/// by character, by code points.
#[verifier::external_body]
pub(crate) fn compare_text(a: &str, b: &str) -> (o: Ordering)
    ensures
        o == text_order(a@, b@),
{
    a.cmp(b)
}

/// `str::strip_prefix` with a text as the pattern: the rest of `a` behind
/// `prefix`, where `a` starts with it.
#[verifier::external_body]
pub(crate) fn strip_prefix(prefix: &str, a: &str) -> (r: Option<String>)
    ensures
        match r {
            Some(rest) => without_prefix(prefix@, a@) == Some(rest@),
            None => without_prefix(prefix@, a@) is None,
        },
{
    match a.strip_prefix(prefix) {
        Some(rest) => Some(rest.to_string()),
        None => None,
    }
}

} // verus!
