//! The text of a URL, compared as a URI where `iref` can compare it.

use crate::escapes::{decodes, decodes_as_utf8};
use crate::text::{compare_text, lemma_text_order_reflexive, text_order};
use std::cmp::Ordering;
use vstd::prelude::*;

verus! {

/// Whether `text` is an absolute URI by the grammar that `iref` accepts.
pub uninterp spec fn is_uri(text: Seq<char>) -> bool;

/// How `iref` orders two URIs. It compares them component by component, so
/// texts that differ only in the case of the scheme, in percent-encoding or in
/// dot segments are `Equal`. It reads the characters that the escapes of a
/// component write, and so has an answer only for texts that are `comparable`.
pub uninterp spec fn uri_order(a: Seq<char>, b: Seq<char>) -> Ordering;

/// Whether `iref` can compare the text with others: it is an absolute URI,
/// and with every escape replaced by the byte that it writes it is UTF-8.
pub open spec fn comparable(text: Seq<char>) -> bool {
    is_uri(text) && decodes(text)
}

/// The order of two URLs. A text is `Equal` to itself; two texts that
/// `iref` can compare are ordered as it orders them; all others are ordered
/// as texts.
pub open spec fn order_of(a: Seq<char>, b: Seq<char>) -> Ordering {
    if a == b {
        Ordering::Equal
    } else if comparable(a) && comparable(b) {
        uri_order(a, b)
    } else {
        text_order(a, b)
    }
}

/// Whether two URLs are equal.
pub open spec fn same_uri(a: Seq<char>, b: Seq<char>) -> bool {
    order_of(a, b) == Ordering::Equal
}

/// `iref::Uri::from_str`, kept only for whether it accepts `text`, which
/// depends on the text alone.
#[verifier::external_body]
fn uri_accepts(text: &str) -> (ok: bool)
    ensures
        ok == is_uri(text@),
{
    iref::Uri::from_str(text).is_ok()
}

/// `Ord::cmp` of `iref::Uri`, on the URIs that `iref::Uri::from_str` makes of
/// two texts that it accepts. The comparison decodes the escapes of the
/// parts that it reaches and does not return where they write bytes that are
/// no UTF-8, so both texts must decode. The result depends on the two texts
/// alone, and a URI is `Equal` to itself.
#[verifier::external_body]
fn uri_compare(a: &str, b: &str) -> (o: Ordering)
    requires
        is_uri(a@),
        is_uri(b@),
        decodes(a@),
        decodes(b@),
    ensures
        o == uri_order(a@, b@),
        a@ == b@ ==> o == Ordering::Equal,
{
    let x = iref::Uri::from_str(a).unwrap();
    let y = iref::Uri::from_str(b).unwrap();
    x.cmp(y)
}

/// The text of a URL. [`Uri::parse`] admits only absolute URIs. Two URLs are
/// compared as URIs where both are absolute URIs whose escapes write UTF-8,
/// and as texts otherwise.
#[derive(Debug)]
pub struct Uri {
    text: String,
}

/// The text of an optional URL.
pub open spec fn uri_text_of(value: Option<Uri>) -> Option<Seq<char>> {
    match value {
        Some(u) => Some(u@),
        None => None,
    }
}

/// A copy of an optional URL.
pub fn copy_uri(value: &Option<Uri>) -> (r: Option<Uri>)
    ensures
        uri_text_of(r) == uri_text_of(*value),
{
    match value {
        Some(u) => Some(u.clone()),
        None => None,
    }
}

/// What a list of URLs holds.
pub open spec fn texts(list: Seq<Uri>) -> Seq<Seq<char>> {
    Seq::new(list.len(), |i: int| list[i]@)
}

/// A copy of a list of URLs.
pub fn copy_uris(list: &Vec<Uri>) -> (r: Vec<Uri>)
    ensures
        texts(r@) == texts(list@),
{
    let mut copy: Vec<Uri> = Vec::new();
    let mut i: usize = 0;
    while i < list.len()
        invariant
            0 <= i <= list@.len(),
            copy@.len() == i,
            forall|j: int| 0 <= j < i ==> copy@[j]@ == list@[j]@,
        decreases list@.len() - i,
    {
        copy.push(list[i].clone());
        i += 1;
    }
    assert(texts(copy@) =~= texts(list@));
    copy
}

impl View for Uri {
    type V = Seq<char>;

    closed spec fn view(&self) -> Seq<char> {
        self.text@
    }
}

impl Clone for Uri {
    fn clone(&self) -> (r: Uri)
        ensures
            r@ == self@,
    {
        Uri { text: self.text.clone() }
    }
}

impl PartialEq for Uri {
    fn eq(&self, other: &Uri) -> (r: bool) {
        self.same_as(other)
    }
}

impl Eq for Uri {

}

impl vstd::std_specs::cmp::PartialEqSpecImpl for Uri {
    open spec fn obeys_eq_spec() -> bool {
        true
    }

    open spec fn eq_spec(&self, other: &Uri) -> bool {
        same_uri(self@, other@)
    }
}

impl PartialOrd for Uri {
    fn partial_cmp(&self, other: &Uri) -> (r: Option<Ordering>) {
        Some(self.compare(other))
    }
}

impl vstd::std_specs::cmp::PartialOrdSpecImpl for Uri {
    open spec fn obeys_partial_cmp_spec() -> bool {
        true
    }

    open spec fn partial_cmp_spec(&self, other: &Uri) -> Option<Ordering> {
        Some(order_of(self@, other@))
    }
}

impl Uri {
    /// The URL with this text, whatever it is.
    pub fn new(text: &str) -> (r: Uri)
        ensures
            r@ == text@,
    {
        Uri { text: text.to_owned() }
    }

    /// The URL with this text; `None` where the text is no absolute URI.
    pub fn parse(text: &str) -> (r: Option<Uri>)
        ensures
            r is Some <==> is_uri(text@),
            r matches Some(u) ==> u@ == text@,
    {
        if uri_accepts(text) {
            Some(Uri { text: text.to_owned() })
        } else {
            None
        }
    }

    /// Whether the text is an absolute URI.
    pub fn is_valid(&self) -> (r: bool)
        ensures
            r == is_uri(self@),
    {
        uri_accepts(self.text.as_str())
    }

    /// Whether the URL is compared as a URI: whether it is an absolute URI
    /// whose escapes write UTF-8. Any other URL is compared as a text.
    pub fn is_comparable(&self) -> (r: bool)
        ensures
            r == comparable(self@),
    {
        uri_accepts(self.text.as_str()) && decodes_as_utf8(self.text.as_str())
    }

    /// The text, as it was given.
    pub fn as_str(&self) -> (s: &str)
        ensures
            s@ == self@,
    {
        self.text.as_str()
    }

    /// Whether the two URLs are equal.
    pub fn same_as(&self, other: &Uri) -> (r: bool)
        ensures
            r == same_uri(self@, other@),
    {
        match self.compare(other) {
            Ordering::Equal => true,
            _ => false,
        }
    }

    /// Orders two URLs.
    pub fn compare(&self, other: &Uri) -> (o: Ordering)
        ensures
            o == order_of(self@, other@),
    {
        let a = self.text.as_str();
        let b = other.text.as_str();
        if self.is_comparable() && other.is_comparable() {
            uri_compare(a, b)
        } else {
            proof {
                lemma_text_order_reflexive(a@);
            }
            compare_text(a, b)
        }
    }
}

} // verus!
