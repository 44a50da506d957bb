//! The identifiers of the conventions that a node's attributes declare.
//!
//! The UUIDs are kept in an ordered set. The URLs are kept in lists and
//! looked up from the front: two URLs are equal where `iref` says so, which
//! no order on their texts decides.

use crate::codec::read_record;
use crate::convention::{
    has_identifier, Convention, ConventionDefinition, ConventionId, ConventionView, DefinitionView,
    IdView,
};
use crate::error::{Error, ErrorView};
use crate::json::{lookup, Attributes, Entries, Json, JsonView};
use crate::seqs::{first_index, lemma_first_index_is};
use crate::traits::FromJson;
use crate::uri::{copy_uris, same_uri, texts, Uri};
use std::collections::BTreeSet;
use vstd::prelude::*;

verus! {

broadcast use {vstd::std_specs::btree::group_btree_axioms, vstd::laws_cmp::group_laws_cmp};

/// The key under which attributes list the conventions in use.
pub open spec fn conventions_key() -> Seq<char> {
    "zarr_conventions"@
}

/// What a [`ZarrConventions`] holds: the set of UUIDs in use, and the schema
/// URLs and specification URLs in use, each once, in the order in which they
/// were first seen.
#[verifier::ext_equal]
pub struct InUseView {
    pub uuids: Set<u128>,
    pub schema_urls: Seq<Seq<char>>,
    pub spec_urls: Seq<Seq<char>>,
}

/// Nothing in use.
pub open spec fn none_in_use() -> InUseView {
    InUseView { uuids: Set::empty(), schema_urls: Seq::empty(), spec_urls: Seq::empty() }
}

/// Whether one of the URIs in `s` is equal to `x`.
pub open spec fn holds_uri(s: Seq<Seq<char>>, x: Seq<char>) -> bool {
    exists|i: int| 0 <= i < s.len() && same_uri(#[trigger] s[i], x)
}

/// `s` with `x`, which enters last unless `s` holds an equal URI already.
pub open spec fn with_uri(s: Seq<Seq<char>>, x: Seq<char>) -> Seq<Seq<char>> {
    if holds_uri(s, x) {
        s
    } else {
        s.push(x)
    }
}

/// The identifiers in use after the record `c` was seen.
pub open spec fn noted(v: InUseView, c: ConventionView) -> InUseView {
    InUseView {
        uuids: match c.uuid {
            Some(u) => v.uuids.insert(u),
            None => v.uuids,
        },
        schema_urls: match c.schema_url {
            Some(u) => with_uri(v.schema_urls, u),
            None => v.schema_urls,
        },
        spec_urls: match c.spec_url {
            Some(u) => with_uri(v.spec_urls, u),
            None => v.spec_urls,
        },
    }
}

/// The identifiers in use after all of `records` were seen, in their order.
pub open spec fn collected(records: Seq<ConventionView>) -> InUseView
    decreases records.len(),
{
    if records.len() == 0 {
        none_in_use()
    } else {
        noted(collected(records.drop_last()), records.last())
    }
}

/// Whether the identifier is in use.
pub open spec fn holds_id(v: InUseView, id: IdView) -> bool {
    match id {
        IdView::Uuid(u) => v.uuids.contains(u),
        IdView::SchemaUrl(url) => holds_uri(v.schema_urls, url),
        IdView::SpecUrl(url) => holds_uri(v.spec_urls, url),
    }
}

/// Whether a convention is in use: whether any of its three identifiers is.
pub open spec fn convention_in_use(v: InUseView, d: DefinitionView) -> bool {
    v.uuids.contains(d.uuid) || holds_uri(v.schema_urls, d.schema_url) || holds_uri(
        v.spec_urls,
        d.spec_url,
    )
}

/// Whether all identifiers of the record are in use.
pub open spec fn holds_record(v: InUseView, c: ConventionView) -> bool {
    &&& c.uuid matches Some(u) ==> v.uuids.contains(u)
    &&& c.schema_url matches Some(url) ==> holds_uri(v.schema_urls, url)
    &&& c.spec_url matches Some(url) ==> holds_uri(v.spec_urls, url)
}

/// A record that was seen has its identifiers in use, and what was in use
/// before stays in use.
pub proof fn law_noted_is_in_use(v: InUseView, c: ConventionView, id: IdView)
    ensures
        holds_record(noted(v, c), c),
        holds_id(v, id) ==> holds_id(noted(v, c), id),
{
    if let Some(url) = c.schema_url {
        lemma_with_uri(v.schema_urls, url);
        if let IdView::SchemaUrl(x) = id {
            if holds_uri(v.schema_urls, x) {
                lemma_with_uri_keeps(v.schema_urls, url, x);
            }
        }
    }
    if let Some(url) = c.spec_url {
        lemma_with_uri(v.spec_urls, url);
        if let IdView::SpecUrl(x) = id {
            if holds_uri(v.spec_urls, x) {
                lemma_with_uri_keeps(v.spec_urls, url, x);
            }
        }
    }
}

/// Each of the records that were seen has its identifiers in use.
pub proof fn law_collected_are_in_use(records: Seq<ConventionView>, k: int)
    requires
        0 <= k < records.len(),
    ensures
        holds_record(collected(records), records[k]),
    decreases records.len(),
{
    let front = records.drop_last();
    let last = records.last();
    let c = records[k];
    if k == records.len() - 1 {
        law_noted_is_in_use(collected(front), last, IdView::Uuid(0));
    } else {
        law_collected_are_in_use(front, k);
        assert(front[k] == c);
        if let Some(u) = c.uuid {
            law_noted_is_in_use(collected(front), last, IdView::Uuid(u));
        }
        if let Some(url) = c.schema_url {
            law_noted_is_in_use(collected(front), last, IdView::SchemaUrl(url));
        }
        if let Some(url) = c.spec_url {
            law_noted_is_in_use(collected(front), last, IdView::SpecUrl(url));
        }
    }
}

/// A list with `x` holds `x`.
proof fn lemma_with_uri(s: Seq<Seq<char>>, x: Seq<char>)
    ensures
        holds_uri(with_uri(s, x), x),
{
    if !holds_uri(s, x) {
        let t = s.push(x);
        assert(same_uri(t[s.len() as int], x));
    }
}

/// A list with `x` still holds what it held.
proof fn lemma_with_uri_keeps(s: Seq<Seq<char>>, x: Seq<char>, y: Seq<char>)
    requires
        holds_uri(s, y),
    ensures
        holds_uri(with_uri(s, x), y),
{
    let i = choose|i: int| 0 <= i < s.len() && same_uri(#[trigger] s[i], y);
    assert(same_uri(with_uri(s, x)[i], y));
}

/// Whether a value fails to read as the record of a convention.
pub open spec fn unreadable(v: JsonView) -> bool {
    match read_record(v) {
        Some(c) => !has_identifier(c),
        None => true,
    }
}

/// The records that a list of values holds, where each value holds one.
pub open spec fn records_of(items: Seq<JsonView>) -> Seq<ConventionView> {
    Seq::new(items.len(), |i: int| read_record(items[i])->Some_0)
}

/// Whether `e` is the failure of reading `v` as a record.
pub open spec fn fails_as(v: JsonView, e: ErrorView) -> bool {
    match read_record(v) {
        Some(c) => !has_identifier(c) && e == ErrorView::MissingIdentifier,
        None => e is Decode,
    }
}

/// What attributes say of the conventions in use.
pub enum Declared {
    /// These identifiers are in use.
    InUse(InUseView),
    /// The value under the key is no list.
    NoList,
    /// This value of the list is the first that fails to read as a record
    /// with an identifier.
    BadRecord(JsonView),
}

/// What `entries` say of the conventions in use. Without the key nothing is
/// in use.
pub open spec fn declaration(entries: Entries) -> Declared {
    match lookup(entries, conventions_key()) {
        None => Declared::InUse(none_in_use()),
        Some(JsonView::Array(values)) => {
            let at = first_index(values, |v: JsonView| unreadable(v));
            if at < values.len() {
                Declared::BadRecord(values[at])
            } else {
                Declared::InUse(collected(records_of(values)))
            }
        },
        Some(_) => Declared::NoList,
    }
}

/// The identifiers of the conventions in use for a node.
#[derive(Debug)]
pub struct ZarrConventions {
    uuids: BTreeSet<u128>,
    schema_urls: Vec<Uri>,
    spec_urls: Vec<Uri>,
}

impl View for ZarrConventions {
    type V = InUseView;

    closed spec fn view(&self) -> InUseView {
        InUseView {
            uuids: self.uuids@,
            schema_urls: texts(self.schema_urls@),
            spec_urls: texts(self.spec_urls@),
        }
    }
}

/// Whether `list` holds a URI equal to `x`.
fn holds(list: &Vec<Uri>, x: &Uri) -> (r: bool)
    ensures
        r == holds_uri(texts(list@), x@),
{
    let mut i: usize = 0;
    while i < list.len()
        invariant
            0 <= i <= list@.len(),
            forall|j: int| 0 <= j < i ==> !same_uri(#[trigger] texts(list@)[j], x@),
        decreases list@.len() - i,
    {
        if list[i].same_as(x) {
            assert(same_uri(texts(list@)[i as int], x@));
            return true;
        }
        i += 1;
    }
    false
}

impl Clone for ZarrConventions {
    fn clone(&self) -> (r: ZarrConventions)
        ensures
            r@ == self@,
    {
        ZarrConventions {
            uuids: self.uuids.clone(),
            schema_urls: copy_uris(&self.schema_urls),
            spec_urls: copy_uris(&self.spec_urls),
        }
    }
}

impl Default for ZarrConventions {
    fn default() -> (r: ZarrConventions)
        ensures
            r@ == none_in_use(),
    {
        ZarrConventions::new()
    }
}

impl ZarrConventions {
    /// Nothing in use.
    pub fn new() -> (r: ZarrConventions)
        ensures
            r@ == none_in_use(),
    {
        let r = ZarrConventions {
            uuids: BTreeSet::new(),
            schema_urls: Vec::new(),
            spec_urls: Vec::new(),
        };
        assert(r@.schema_urls =~= Seq::empty());
        assert(r@.spec_urls =~= Seq::empty());
        r
    }

    /// Takes note of the identifiers of one record.
    pub fn note(&mut self, record: &Convention)
        ensures
            final(self)@ == noted(old(self)@, record@),
    {
        if let Some(uuid) = record.uuid() {
            self.uuids.insert(uuid);
        }
        if let Some(url) = record.schema_url() {
            if !holds(&self.schema_urls, url) {
                self.schema_urls.push(url.clone());
                assert(self@.schema_urls =~= old(self)@.schema_urls.push(url@));
            }
        }
        if let Some(url) = record.spec_url() {
            if !holds(&self.spec_urls, url) {
                self.spec_urls.push(url.clone());
                assert(self@.spec_urls =~= old(self)@.spec_urls.push(url@));
            }
        }
    }

    /// The identifiers of a list of records.
    pub fn from_conventions(records: &Vec<Convention>) -> (r: ZarrConventions)
        ensures
            r@ == collected(Seq::new(records@.len(), |i: int| records@[i]@)),
    {
        let ghost all = Seq::new(records@.len(), |i: int| records@[i]@);
        let mut r = ZarrConventions::new();
        let mut i: usize = 0;
        while i < records.len()
            invariant
                0 <= i <= records@.len(),
                all == Seq::new(records@.len(), |i: int| records@[i]@),
                r@ == collected(all.take(i as int)),
            decreases records@.len() - i,
        {
            r.note(&records[i]);
            proof {
                assert(all.take(i + 1).drop_last() =~= all.take(i as int));
            }
            i += 1;
        }
        assert(all.take(i as int) =~= all);
        r
    }

    /// The identifiers that a list of JSON records declares. Fails at the
    /// first value that does not read as a record with an identifier.
    pub fn from_json_list(items: &Vec<Json>) -> (r: Result<ZarrConventions, Error>)
        ensures
            match r {
                Ok(z) => first_index(json_views(items@), |v: JsonView| unreadable(v)) == items@.len()
                    && z@ == collected(records_of(json_views(items@))),
                Err(e) => {
                    let at = first_index(json_views(items@), |v: JsonView| unreadable(v));
                    at < items@.len() && fails_as(json_views(items@)[at], e@)
                },
            },
    {
        let ghost values = json_views(items@);
        let ghost all = records_of(values);
        let ghost bad = |v: JsonView| unreadable(v);
        let mut r = ZarrConventions::new();
        let mut i: usize = 0;
        while i < items.len()
            invariant
                0 <= i <= items@.len(),
                values == json_views(items@),
                all == records_of(values),
                bad == |v: JsonView| unreadable(v),
                forall|j: int| 0 <= j < i ==> !bad(#[trigger] values[j]),
                r@ == collected(all.take(i as int)),
            decreases items@.len() - i,
        {
            match Convention::from_json(&items[i]) {
                Ok(record) => {
                    r.note(&record);
                    proof {
                        assert(all.take(i + 1).drop_last() =~= all.take(i as int));
                        assert(all.take(i + 1).last() == record@);
                    }
                },
                Err(e) => {
                    proof {
                        assert(bad(values[i as int]));
                        lemma_first_index_is(values, bad, i as int);
                    }
                    return Err(e);
                },
            }
            i += 1;
        }
        proof {
            lemma_first_index_is(values, bad, i as int);
            assert(all.take(i as int) =~= all);
        }
        Ok(r)
    }

    /// The identifiers that attributes declare under `zarr_conventions`: none
    /// where the key is absent. Fails with `Decode` where the value is no
    /// list, and at the first value of the list that does not read as a
    /// record with an identifier.
    pub fn from_attributes(attributes: &Attributes) -> (r: Result<ZarrConventions, Error>)
        ensures
            match r {
                Ok(z) => declaration(attributes@) == Declared::InUse(z@),
                Err(e) => match declaration(attributes@) {
                    Declared::InUse(_) => false,
                    Declared::NoList => e@ is Decode,
                    Declared::BadRecord(v) => fails_as(v, e@),
                },
            },
    {
        match attributes.get("zarr_conventions") {
            None => Ok(ZarrConventions::new()),
            Some(Json::Array(items)) => {
                assert(json_views(items@) =~= lookup(attributes@, conventions_key())->Some_0->Array_0);
                ZarrConventions::from_json_list(items)
            },
            Some(_) => Err(Error::Decode("a list of conventions that is no list".to_owned())),
        }
    }

    /// Whether the identifier is in use.
    pub fn contains(&self, id: &ConventionId) -> (r: bool)
        ensures
            r == holds_id(self@, id@),
    {
        match id {
            ConventionId::Uuid(u) => self.uuids.contains(u),
            ConventionId::SchemaUrl(url) => holds(&self.schema_urls, url),
            ConventionId::SpecUrl(url) => holds(&self.spec_urls, url),
        }
    }

    /// Whether the convention is in use: whether any of its identifiers is.
    pub fn uses(&self, definition: &ConventionDefinition) -> (r: bool)
        ensures
            r == convention_in_use(self@, definition@),
    {
        self.uuids.contains(&definition.uuid) || holds(&self.schema_urls, &definition.schema_url)
            || holds(&self.spec_urls, &definition.spec_url)
    }
}

impl FromJson for ZarrConventions {
    /// The identifiers that a JSON list of records declares.
    fn from_json(value: &Json) -> (r: Result<ZarrConventions, Error>)
        ensures
            match value@ {
                JsonView::Array(values) => match r {
                    Ok(z) => first_index(values, |v: JsonView| unreadable(v)) == values.len() && z@
                        == collected(records_of(values)),
                    Err(e) => {
                        let at = first_index(values, |v: JsonView| unreadable(v));
                        at < values.len() && fails_as(values[at], e@)
                    },
                },
                _ => r matches Err(e) && e@ is Decode,
            },
    {
        match value {
            Json::Array(items) => {
                assert(json_views(items@) =~= value@->Array_0);
                ZarrConventions::from_json_list(items)
            },
            _ => Err(Error::Decode("a list of conventions that is no list".to_owned())),
        }
    }
}

/// What a list of JSON values holds.
pub open spec fn json_views(items: Seq<Json>) -> Seq<JsonView> {
    Seq::new(items.len(), |i: int| items[i]@)
}

} // verus!
