//! Reading and writing the text fields of a JSON object.

use crate::error::Error;
use crate::json::{has_key, key_index, lookup, put, Attributes, Entries, Json, JsonView};
use vstd::prelude::*;

verus! {

/// How the field `key` of an object reads. A field that is absent or `null`
/// holds nothing; one that is a string holds its text; any other value makes
/// the object unreadable, which is the outer `None`.
pub open spec fn text_field(entries: Entries, key: Seq<char>) -> Option<Option<Seq<char>>> {
    match lookup(entries, key) {
        None => Some(None),
        Some(JsonView::Null) => Some(None),
        Some(JsonView::String(s)) => Some(Some(s)),
        Some(_) => None,
    }
}

/// Whether an optional text is nothing or satisfies `ok`.
pub open spec fn nothing_or(field: Option<Seq<char>>, ok: spec_fn(Seq<char>) -> bool) -> bool {
    match field {
        Some(t) => ok(t),
        None => true,
    }
}

/// The JSON of an optional text: a string, or `null`.
pub open spec fn written_text(field: Option<Seq<char>>) -> JsonView {
    match field {
        Some(t) => JsonView::String(t),
        None => JsonView::Null,
    }
}

/// The entry of an optional text: one entry with a string, or none.
pub open spec fn optional_entry(key: Seq<char>, field: Option<Seq<char>>) -> Entries {
    match field {
        Some(t) => seq![(key, JsonView::String(t))],
        None => Entries::empty(),
    }
}

/// The view of an optional text.
pub open spec fn view_of(field: Option<&str>) -> Option<Seq<char>> {
    match field {
        Some(t) => Some(t@),
        None => None,
    }
}

/// An entry of an optional text has no key but its own.
pub proof fn lemma_optional_has_key(key: Seq<char>, field: Option<Seq<char>>, other: Seq<char>)
    ensures
        has_key(optional_entry(key, field), other) ==> other == key && field is Some,
{
}

/// Entries one behind the other have the keys of both.
pub proof fn lemma_has_key_concat(a: Entries, b: Entries, key: Seq<char>)
    ensures
        has_key(a + b, key) == (has_key(a, key) || has_key(b, key)),
{
    let joined = a + b;
    if has_key(a, key) {
        let i = choose|i: int| 0 <= i < a.len() && #[trigger] a[i].0 == key;
        assert(joined[i].0 == key);
    }
    if has_key(b, key) {
        let i = choose|i: int| 0 <= i < b.len() && #[trigger] b[i].0 == key;
        assert(joined[a.len() + i].0 == key);
    }
    if has_key(joined, key) {
        let i = choose|i: int| 0 <= i < joined.len() && #[trigger] joined[i].0 == key;
        if i < a.len() {
            assert(a[i].0 == key);
        } else {
            assert(b[i - a.len()].0 == key);
        }
    }
}

/// An optional text that was written between entries without its key reads
/// back as it was.
pub proof fn lemma_optional_field(
    before: Entries,
    key: Seq<char>,
    field: Option<Seq<char>>,
    after: Entries,
)
    requires
        !has_key(before, key),
        !has_key(after, key),
    ensures
        text_field(before + optional_entry(key, field) + after, key) == Some(field),
{
    let all = before + optional_entry(key, field) + after;
    match field {
        Some(t) => {
            let at = before.len() as int;
            assert(all[at] == (key, JsonView::String(t)));
            assert(all[at].0 == key);
            assert(has_key(all, key));
            let k = key_index(all, key);
            assert(0 <= k < all.len() && all[k].0 == key);
            if k < at {
                assert(before[k].0 == key);
            } else if k > at {
                assert(after[k - at - 1].0 == key);
            }
        },
        None => {
            if has_key(all, key) {
                let k = key_index(all, key);
                assert(0 <= k < all.len() && all[k].0 == key);
                if k < before.len() {
                    assert(before[k].0 == key);
                } else {
                    assert(after[k - before.len()].0 == key);
                }
            }
        },
    }
}

/// Reads the field `key` of an object as a text or as nothing.
pub fn read_text_field<'a>(record: &'a Attributes, key: &str) -> (r: Result<Option<&'a str>, Error>)
    ensures
        match r {
            Ok(field) => text_field(record@, key@) == Some(view_of(field)),
            Err(e) => text_field(record@, key@) is None && e@ is Decode,
        },
{
    match record.get(key) {
        None => Ok(None),
        Some(Json::Null) => Ok(None),
        Some(Json::String(s)) => Ok(Some(s.as_str())),
        Some(_) => Err(Error::Decode("a field that is neither text nor null".to_owned())),
    }
}

/// The JSON of an optional text.
pub fn write_text(field: Option<&str>) -> (r: Json)
    ensures
        r@ == written_text(view_of(field)),
{
    match field {
        Some(t) => Json::String(t.to_owned()),
        None => Json::Null,
    }
}

/// Writes an optional text under `key`, which the object does not have yet:
/// a text comes last as a string, nothing leaves the object as it is.
pub fn write_optional(record: &mut Attributes, key: &str, field: Option<&str>)
    ensures
        !has_key(old(record)@, key@) ==> final(record)@ == old(record)@ + optional_entry(
            key@,
            view_of(field),
        ),
        has_key(old(record)@, key@) ==> final(record)@ == match field {
            Some(t) => put(old(record)@, key@, JsonView::String(t@)),
            None => old(record)@,
        },
{
    match field {
        Some(t) => {
            record.insert(key.to_owned(), Json::String(t.to_owned()));
            assert(!has_key(old(record)@, key@) ==> record@ =~= old(record)@ + optional_entry(
                key@,
                view_of(field),
            ));
        },
        None => {
            assert(old(record)@ + optional_entry(key@, view_of(field)) =~= old(record)@);
        },
    }
}

} // verus!
