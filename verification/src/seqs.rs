//! Searching a sequence for the first item that has a property.

use vstd::prelude::*;

verus! {

/// The place of the first item of `s` that satisfies `p`, or the length of `s`
/// where none does.
pub open spec fn first_index<T>(s: Seq<T>, p: spec_fn(T) -> bool) -> int
    decreases s.len(),
{
    if s.len() == 0 || p(s[0]) {
        0
    } else {
        1 + first_index(s.skip(1), p)
    }
}

/// The first item of `s` that satisfies `p`.
pub open spec fn first_match<T>(s: Seq<T>, p: spec_fn(T) -> bool) -> Option<T> {
    if first_index(s, p) < s.len() {
        Some(s[first_index(s, p)])
    } else {
        None
    }
}

/// The first place is within the sequence or just behind it; no item before
/// it satisfies `p`, and the item at it does.
pub proof fn lemma_first_index<T>(s: Seq<T>, p: spec_fn(T) -> bool)
    ensures
        0 <= first_index(s, p) <= s.len(),
        forall|j: int| 0 <= j < first_index(s, p) ==> !p(#[trigger] s[j]),
        first_index(s, p) < s.len() ==> p(s[first_index(s, p)]),
    decreases s.len(),
{
    if s.len() == 0 || p(s[0]) {
    } else {
        let rest = s.skip(1);
        lemma_first_index(rest, p);
        assert forall|j: int| 0 <= j < first_index(s, p) implies !p(#[trigger] s[j]) by {
            if j > 0 {
                assert(s[j] == rest[j - 1]);
            }
        }
    }
}

/// A place with nothing before it that satisfies `p`, and which is the end
/// or satisfies `p` itself, is the first place.
pub proof fn lemma_first_index_is<T>(s: Seq<T>, p: spec_fn(T) -> bool, i: int)
    requires
        0 <= i <= s.len(),
        forall|j: int| 0 <= j < i ==> !p(#[trigger] s[j]),
        i < s.len() ==> p(s[i]),
    ensures
        first_index(s, p) == i,
{
    lemma_first_index(s, p);
    let k = first_index(s, p);
    if k < i {
        assert(!p(s[k]));
    } else if k > i {
        assert(!p(s[i]));
    }
}

/// An item that comes last is the first match only where nothing matched
/// before and it does.
pub proof fn lemma_first_match_push<T>(s: Seq<T>, p: spec_fn(T) -> bool, x: T)
    ensures
        first_match(s.push(x), p) == if first_match(s, p) is Some {
            first_match(s, p)
        } else if p(x) {
            Some(x)
        } else {
            None
        },
{
    let t = s.push(x);
    let i = first_index(s, p);
    lemma_first_index(s, p);
    assert forall|j: int| 0 <= j < i implies !p(#[trigger] t[j]) by {
        assert(t[j] == s[j]);
    }
    if i < s.len() {
        assert(t[i] == s[i]);
        lemma_first_index_is(t, p, i);
    } else if p(x) {
        lemma_first_index_is(t, p, i);
    } else {
        lemma_first_index_is(t, p, i + 1);
    }
}

} // verus!
