//! Building the attributes of a node from the data of conventions and free
//! fields, and reading them back.
//!
//! The builder keeps the definitions of the conventions that were added in a
//! list in the order of definitions, each once. That order goes by the UUID
//! first and then by the URLs as `iref` orders them, of which nothing is
//! known but what a comparison returns, so the list is kept by comparing and
//! not in an ordered set.

use crate::codec::{law_record_round_trip, read_record, urls_are_uris, uuid_reads_back, written_record};
use crate::convention::{
    precedes, same_definition, Convention, ConventionBuilder, ConventionDefinition,
    ConventionView, DefinitionView,
};
use crate::error::{Error, ErrorView};
use crate::in_use::{
    collected, convention_in_use, conventions_key, declaration, fails_as, law_collected_are_in_use,
    records_of, unreadable, Declared, InUseView, ZarrConventions,
};
use crate::json::{
    distinct_keys, lemma_put, lemma_removed, lookup, put, removed, Attributes, Entries, Json,
    JsonView,
};
use crate::registry::{copy_definitions, views};
use crate::repr::{
    combined, combined_value, nested, nested_value, prefixed_value, spread, store_nested,
    store_prefixed,
};
use crate::seqs::{first_index, lemma_first_index, lemma_first_index_is};
use crate::traits::{FromJson, FromNestedOrPrefixed, NestedRepr, PrefixedRepr, ToJson, ZarrConventionImpl};
use vstd::prelude::*;

verus! {

/// Which fields of a definition the attributes give for each convention.
#[derive(Clone, Copy, Debug, PartialEq, Eq, Structural)]
pub struct Selection {
    pub uuid: bool,
    pub schema_url: bool,
    pub spec_url: bool,
    pub name: bool,
    pub description: bool,
}

/// Everything is given.
pub open spec fn all_selected() -> Selection {
    Selection { uuid: true, schema_url: true, spec_url: true, name: true, description: true }
}

/// Whether at least one kind of identifier is given.
pub open spec fn identifies(s: Selection) -> bool {
    s.uuid || s.schema_url || s.spec_url
}

/// The record of a definition with the selected fields.
pub open spec fn selected(d: DefinitionView, s: Selection) -> ConventionView {
    ConventionView {
        uuid: if s.uuid {
            Some(d.uuid)
        } else {
            None
        },
        schema_url: if s.schema_url {
            Some(d.schema_url)
        } else {
            None
        },
        spec_url: if s.spec_url {
            Some(d.spec_url)
        } else {
            None
        },
        name: if s.name {
            Some(d.name)
        } else {
            None
        },
        description: if s.description {
            Some(d.description)
        } else {
            None
        },
    }
}

/// Where `d` belongs in a list in the order of definitions: at the first
/// definition that does not come before it.
pub open spec fn place(defs: Seq<DefinitionView>, d: DefinitionView) -> int {
    first_index(defs, |x: DefinitionView| !precedes(x, d))
}

/// The ordered list with `d`: it enters at its place, unless the definition
/// there is equal to it.
pub open spec fn included(defs: Seq<DefinitionView>, d: DefinitionView) -> Seq<DefinitionView> {
    let at = place(defs, d);
    if at < defs.len() && same_definition(defs[at], d) {
        defs
    } else {
        defs.insert(at, d)
    }
}

/// A list with `d` holds `d` or a definition equal to it, and keeps every
/// definition that it held, in their order.
pub proof fn law_included(defs: Seq<DefinitionView>, d: DefinitionView)
    ensures
        exists|i: int|
            0 <= i < included(defs, d).len() && (included(defs, d)[i] == d || same_definition(
                #[trigger] included(defs, d)[i],
                d,
            )),
        included(defs, d) == defs || (0 <= place(defs, d) <= defs.len() && included(defs, d)
            == defs.insert(place(defs, d), d)),
{
    lemma_first_index(defs, |x: DefinitionView| !precedes(x, d));
    let at = place(defs, d);
    let after = included(defs, d);
    if at < defs.len() && same_definition(defs[at], d) {
        assert(same_definition(after[at], d));
    } else {
        assert(after[at] == d);
    }
}

/// The records that declare the definitions with the selected fields.
pub open spec fn declared(defs: Seq<DefinitionView>, s: Selection) -> Seq<JsonView> {
    Seq::new(defs.len(), |i: int| written_record(selected(defs[i], s)))
}

/// What an [`AttributesBuilder`] holds: the definitions of the conventions
/// whose data was added, in order and each once; the attributes so far; and
/// the selection.
pub struct BuilderView {
    pub definitions: Seq<DefinitionView>,
    pub attributes: Entries,
    pub selection: Selection,
}

/// The attributes that a builder makes, `None` where it cannot make any:
/// where conventions were added but no kind of identifier is selected. The
/// conventions are declared under `zarr_conventions`, in place of what was
/// there; where none was added the key is not written.
pub open spec fn built(b: BuilderView) -> Option<JsonView> {
    if b.definitions.len() == 0 {
        Some(JsonView::Object(b.attributes))
    } else if identifies(b.selection) {
        Some(
            JsonView::Object(
                put(
                    b.attributes,
                    conventions_key(),
                    JsonView::Array(declared(b.definitions, b.selection)),
                ),
            ),
        )
    } else {
        None
    }
}

/// Whether the selected URLs of each definition are absolute URIs.
pub open spec fn selects_uris(defs: Seq<DefinitionView>, s: Selection) -> bool {
    forall|i: int| 0 <= i < defs.len() ==> urls_are_uris(#[trigger] selected(defs[i], s))
}

/// Whether the selected UUID of each definition reads back from its text.
pub open spec fn uuids_read_back(defs: Seq<DefinitionView>, s: Selection) -> bool {
    forall|i: int| 0 <= i < defs.len() ==> uuid_reads_back(#[trigger] selected(defs[i], s))
}

/// Whether attributes declare each of the definitions as in use.
pub open spec fn declares(entries: Entries, defs: Seq<DefinitionView>) -> bool {
    declaration(entries) matches Declared::InUse(v) && forall|k: int|
        0 <= k < defs.len() ==> convention_in_use(v, #[trigger] defs[k])
}

/// The attributes that a builder makes declare every convention that was
/// added: read back, each of them is in use. This holds where the selected
/// URLs are absolute URIs, without which the list cannot be read.
pub proof fn law_built_declares_its_conventions(b: BuilderView)
    requires
        distinct_keys(b.attributes),
        b.definitions.len() > 0,
        identifies(b.selection),
        selects_uris(b.definitions, b.selection),
        uuids_read_back(b.definitions, b.selection),
    ensures
        built(b) matches Some(JsonView::Object(entries)) && declares(entries, b.definitions),
{
    let defs = b.definitions;
    let values = declared(defs, b.selection);
    let entries = put(b.attributes, conventions_key(), JsonView::Array(values));
    lemma_put(b.attributes, conventions_key(), JsonView::Array(values), conventions_key());
    let bad = |v: JsonView| unreadable(v);
    let records = Seq::new(defs.len(), |i: int| selected(defs[i], b.selection));
    assert forall|i: int| 0 <= i < values.len() implies !bad(#[trigger] values[i]) && read_record(
        values[i],
    ) == Some(records[i]) by {
        assert(urls_are_uris(selected(defs[i], b.selection)));
        law_record_round_trip(selected(defs[i], b.selection));
    }
    lemma_first_index_is(values, bad, values.len() as int);
    assert(records_of(values) =~= records);
    assert forall|k: int| 0 <= k < defs.len() implies convention_in_use(
        collected(records),
        #[trigger] defs[k],
    ) by {
        law_collected_are_in_use(records, k);
    }
}

/// Builds the attributes of a node.
#[derive(Debug)]
pub struct AttributesBuilder {
    convention_definitions: Vec<ConventionDefinition>,
    attributes: Attributes,
    selection: Selection,
}

impl View for AttributesBuilder {
    type V = BuilderView;

    closed spec fn view(&self) -> BuilderView {
        BuilderView {
            definitions: views(self.convention_definitions@),
            attributes: self.attributes@,
            selection: self.selection,
        }
    }
}

impl Clone for AttributesBuilder {
    fn clone(&self) -> (r: AttributesBuilder)
        ensures
            r@ == self@,
    {
        AttributesBuilder {
            convention_definitions: copy_definitions(&self.convention_definitions),
            attributes: self.attributes.clone(),
            selection: self.selection,
        }
    }
}

impl Default for AttributesBuilder {
    fn default() -> (b: AttributesBuilder)
        ensures
            b@ == (BuilderView {
                definitions: Seq::empty(),
                attributes: Entries::empty(),
                selection: all_selected(),
            }),
    {
        let b = AttributesBuilder {
            convention_definitions: Vec::new(),
            attributes: Attributes::new(),
            selection: Selection {
                uuid: true,
                schema_url: true,
                spec_url: true,
                name: true,
                description: true,
            },
        };
        assert(b@.definitions =~= Seq::empty());
        b
    }
}

/// The record of a definition with the selected fields.
fn select(definition: &ConventionDefinition, selection: Selection) -> (r: Result<Convention, Error>)
    ensures
        match r {
            Ok(c) => identifies(selection) && c@ == selected(definition@, selection),
            Err(e) => !identifies(selection) && e@ == ErrorView::MissingIdentifier,
        },
{
    let mut builder = ConventionBuilder::default();
    if selection.uuid {
        builder = builder.uuid(definition.uuid);
    }
    if selection.schema_url {
        builder = builder.schema_url(definition.schema_url.clone());
    }
    if selection.spec_url {
        builder = builder.spec_url(definition.spec_url.clone());
    }
    if selection.name {
        builder = builder.name(definition.name.as_str());
    }
    if selection.description {
        builder = builder.description(definition.description.as_str());
    }
    builder.build()
}

impl AttributesBuilder {
    /// Whether to give the conventions' UUID.
    pub fn uuid(&mut self, enable: bool) -> (r: &mut AttributesBuilder)
        ensures
            r@ == (BuilderView {
                selection: Selection { uuid: enable, ..old(self)@.selection },
                ..old(self)@
            }),
            *final(self) == *final(r),
    {
        self.selection.uuid = enable;
        self
    }

    /// Whether to give the conventions' schema URL.
    pub fn schema_url(&mut self, enable: bool) -> (r: &mut AttributesBuilder)
        ensures
            r@ == (BuilderView {
                selection: Selection { schema_url: enable, ..old(self)@.selection },
                ..old(self)@
            }),
            *final(self) == *final(r),
    {
        self.selection.schema_url = enable;
        self
    }

    /// Whether to give the conventions' specification URL.
    pub fn spec_url(&mut self, enable: bool) -> (r: &mut AttributesBuilder)
        ensures
            r@ == (BuilderView {
                selection: Selection { spec_url: enable, ..old(self)@.selection },
                ..old(self)@
            }),
            *final(self) == *final(r),
    {
        self.selection.spec_url = enable;
        self
    }

    /// Whether to give the conventions' name.
    pub fn name(&mut self, enable: bool) -> (r: &mut AttributesBuilder)
        ensures
            r@ == (BuilderView {
                selection: Selection { name: enable, ..old(self)@.selection },
                ..old(self)@
            }),
            *final(self) == *final(r),
    {
        self.selection.name = enable;
        self
    }

    /// Whether to give the conventions' description.
    pub fn description(&mut self, enable: bool) -> (r: &mut AttributesBuilder)
        ensures
            r@ == (BuilderView {
                selection: Selection { description: enable, ..old(self)@.selection },
                ..old(self)@
            }),
            *final(self) == *final(r),
    {
        self.selection.description = enable;
        self
    }

    /// Adds a convention to those that the attributes declare.
    pub fn add_definition(&mut self, definition: ConventionDefinition)
        ensures
            final(self)@ == (BuilderView {
                definitions: included(old(self)@.definitions, definition@),
                ..old(self)@
            }),
    {
        let ghost defs = views(self.convention_definitions@);
        let ghost p = |x: DefinitionView| !precedes(x, definition@);
        let n = self.convention_definitions.len();
        let mut i: usize = 0;
        while i < n
            invariant
                0 <= i <= n,
                n == self.convention_definitions@.len(),
                *self == *old(self),
                defs == views(self.convention_definitions@),
                p == |x: DefinitionView| !precedes(x, definition@),
                forall|j: int| 0 <= j < i ==> !p(#[trigger] defs[j]),
            decreases n - i,
        {
            if !self.convention_definitions[i].precedes(&definition) {
                proof {
                    assert(p(defs[i as int]));
                    lemma_first_index_is(defs, p, i as int);
                }
                if !self.convention_definitions[i].same_as(&definition) {
                    self.convention_definitions.insert(i, definition);
                    assert(views(self.convention_definitions@) =~= defs.insert(i as int, definition@));
                }
                return ;
            }
            i += 1;
        }
        proof {
            lemma_first_index_is(defs, p, i as int);
        }
        self.convention_definitions.push(definition);
        assert(views(self.convention_definitions@) =~= defs.insert(i as int, definition@));
    }

    /// Adds the data of a convention in nested form, under `key`, and the
    /// convention to those that the attributes declare.
    pub fn add_nested_value(&mut self, definition: ConventionDefinition, key: &str, value: Json)
        ensures
            final(self)@ == (BuilderView {
                definitions: included(old(self)@.definitions, definition@),
                attributes: put(old(self)@.attributes, key@, value@),
                ..old(self)@
            }),
    {
        store_nested(key, value, &mut self.attributes);
        self.add_definition(definition);
    }

    /// Adds the data of a convention in prefixed form, and the convention to
    /// those that the attributes declare. Fails with `NotAnObject`, and
    /// changes nothing, where `value` is no object.
    pub fn add_prefixed_value(
        &mut self,
        definition: ConventionDefinition,
        prefix: &str,
        value: Json,
    ) -> (r: Result<(), Error>)
        ensures
            match r {
                Ok(_) => value@ is Object && final(self)@ == (BuilderView {
                    definitions: included(old(self)@.definitions, definition@),
                    attributes: spread(prefix@, value@->Object_0, old(self)@.attributes),
                    ..old(self)@
                }),
                Err(e) => !(value@ is Object) && e@ == ErrorView::NotAnObject && final(self)@ == old(
                    self,
                )@,
            },
    {
        match store_prefixed(prefix, value, &mut self.attributes) {
            Ok(_) => {
                self.add_definition(definition);
                Ok(())
            },
            Err(e) => Err(e),
        }
    }

    /// Adds a free field, in place of what was under `key`.
    pub fn add_attribute_value(&mut self, key: &str, value: Json)
        ensures
            final(self)@ == (BuilderView {
                attributes: put(old(self)@.attributes, key@, value@),
                ..old(self)@
            }),
    {
        self.attributes.insert(key.to_owned(), value);
    }

    /// Adds the convention of `T` to those that the attributes declare. The
    /// methods that add data do so themselves.
    pub fn add_convention<T: ZarrConventionImpl>(&mut self) -> (r: &mut AttributesBuilder)
        ensures
            r@ == (BuilderView {
                definitions: included(old(self)@.definitions, T::definition_view()),
                ..old(self)@
            }),
            *final(self) == *final(r),
    {
        self.add_definition(T::definition());
        self
    }

    /// Adds the data of a convention in nested form: what `to_json` makes of
    /// `value`, under the key of `T`; and the convention of `T` to those that
    /// the attributes declare. Fails with what `to_json` fails with, and then
    /// changes nothing.
    pub fn add_nested<T: NestedRepr>(&mut self, value: &T) -> (r: Result<&mut AttributesBuilder, Error>)
        ensures
            match r {
                Ok(b) => *final(self) == *final(b) && exists|json: Json|
                    call_ensures(T::to_json, (value,), Ok::<Json, Error>(json)) && b@ == (BuilderView {
                        definitions: included(old(self)@.definitions, T::definition_view()),
                        attributes: put(old(self)@.attributes, T::KEY@, json@),
                        ..old(self)@
                    }),
                Err(e) => final(self)@ == old(self)@ && call_ensures(
                    T::to_json,
                    (value,),
                    Err::<Json, Error>(e),
                ),
            },
    {
        match value.to_json() {
            Ok(json) => {
                self.add_nested_value(T::definition(), T::KEY, json);
                Ok(self)
            },
            Err(e) => Err(e),
        }
    }

    /// Adds the data of a convention in prefixed form: the fields of what
    /// `to_json` makes of `value`, each under the prefix of `T`; and the
    /// convention of `T` to those that the attributes declare. Fails with
    /// what `to_json` fails with, and with `NotAnObject` where the JSON is no
    /// object, and then changes nothing.
    pub fn add_prefixed<T: PrefixedRepr>(&mut self, value: &T) -> (r: Result<
        &mut AttributesBuilder,
        Error,
    >)
        ensures
            match r {
                Ok(b) => *final(self) == *final(b) && exists|json: Json|
                    call_ensures(T::to_json, (value,), Ok::<Json, Error>(json)) && json@ is Object
                        && b@ == (BuilderView {
                        definitions: included(old(self)@.definitions, T::definition_view()),
                        attributes: spread(T::PREFIX@, json@->Object_0, old(self)@.attributes),
                        ..old(self)@
                    }),
                Err(e) => final(self)@ == old(self)@ && (call_ensures(
                    T::to_json,
                    (value,),
                    Err::<Json, Error>(e),
                ) || (e@ == ErrorView::NotAnObject && exists|json: Json|
                    call_ensures(T::to_json, (value,), Ok::<Json, Error>(json)) && !(json@ is Object))),
            },
    {
        match value.to_json() {
            Ok(json) => match self.add_prefixed_value(T::definition(), T::PREFIX, json) {
                Ok(_) => Ok(self),
                Err(e) => Err(e),
            },
            Err(e) => Err(e),
        }
    }

    /// Adds a free field: what `to_json` makes of `value`, in place of what
    /// was under `key`. Fails with what `to_json` fails with, and then changes
    /// nothing.
    pub fn add_attribute<T: ToJson>(&mut self, key: &str, value: T) -> (r: Result<
        &mut AttributesBuilder,
        Error,
    >)
        ensures
            match r {
                Ok(b) => *final(self) == *final(b) && exists|json: Json|
                    call_ensures(T::to_json, (&value,), Ok::<Json, Error>(json)) && b@ == (BuilderView {
                        attributes: put(old(self)@.attributes, key@, json@),
                        ..old(self)@
                    }),
                Err(e) => final(self)@ == old(self)@ && call_ensures(
                    T::to_json,
                    (&value,),
                    Err::<Json, Error>(e),
                ),
            },
    {
        match value.to_json() {
            Ok(json) => {
                self.add_attribute_value(key, json);
                Ok(self)
            },
            Err(e) => Err(e),
        }
    }

    /// The attributes. Fails with `MissingIdentifier` where conventions were
    /// added but none of UUID, schema URL and specification URL is selected.
    /// Where the selected URLs are absolute URIs, the attributes declare each
    /// convention that was added as in use.
    pub fn build(self) -> (r: Result<Json, Error>)
        ensures
            match r {
                Ok(v) => built(self@) == Some(v@) && (self@.definitions.len() > 0 && selects_uris(
                    self@.definitions,
                    self@.selection,
                ) ==> declares(v@->Object_0, self@.definitions)),
                Err(e) => built(self@) is None && e@ == ErrorView::MissingIdentifier,
            },
    {
        let ghost defs = self@.definitions;
        let selection = self.selection;
        let mut attributes = self.attributes;
        let definitions = self.convention_definitions;
        if definitions.len() == 0 {
            return Ok(Json::Object(attributes));
        }
        if !selection.uuid && !selection.schema_url && !selection.spec_url {
            return Err(Error::MissingIdentifier);
        }
        let mut records: Vec<Json> = Vec::new();
        let mut i: usize = 0;
        while i < definitions.len()
            invariant
                0 <= i <= definitions@.len(),
                defs == views(definitions@),
                identifies(selection),
                records@.len() == i,
                forall|j: int|
                    0 <= j < i ==> (#[trigger] records@[j])@ == written_record(
                        selected(defs[j], selection),
                    ),
                forall|j: int| 0 <= j < i ==> uuid_reads_back(#[trigger] selected(defs[j], selection)),
            decreases definitions@.len() - i,
        {
            let record = match select(&definitions[i], selection) {
                Ok(record) => record,
                Err(e) => {
                    return Err(e);
                },
            };
            match record.to_json() {
                Ok(json) => {
                    records.push(json);
                },
                Err(e) => {
                    return Err(e);
                },
            }
            i += 1;
        }
        let list = Json::Array(records);
        assert(list@ =~= JsonView::Array(declared(defs, selection))) by {
            assert(list@->Array_0 =~= declared(defs, selection));
        }
        attributes.insert("zarr_conventions".to_owned(), list);
        proof {
            if selects_uris(defs, selection) {
                law_built_declares_its_conventions(self@);
            }
        }
        Ok(Json::Object(attributes))
    }
}

/// What an [`AttributesParser`] holds: the identifiers in use, and all
/// attributes but the list of conventions.
pub struct ParserView {
    pub in_use: InUseView,
    pub fields: Entries,
}

/// The result of reading a value that is there only where the convention is
/// in use.
pub open spec fn gated<T>(read: Result<T, Error>) -> Result<Option<T>, Error> {
    match read {
        Ok(t) => Ok(Some(t)),
        Err(e) => Err(e),
    }
}

/// Whether `fields` hold nothing under `zarr_conventions`, and under every
/// other key what `attributes` hold there.
pub open spec fn kept(attributes: Entries, fields: Entries) -> bool {
    forall|key: Seq<char>| #[trigger]
        lookup(fields, key) == if key == conventions_key() {
            None
        } else {
            lookup(attributes, key)
        }
}

/// Reads the data of conventions and free fields from attributes.
#[derive(Debug)]
pub struct AttributesParser {
    zarr_conventions: ZarrConventions,
    fields: Attributes,
}

impl View for AttributesParser {
    type V = ParserView;

    closed spec fn view(&self) -> ParserView {
        ParserView { in_use: self.zarr_conventions@, fields: self.fields@ }
    }
}

impl Clone for AttributesParser {
    fn clone(&self) -> (r: AttributesParser)
        ensures
            r@ == self@,
    {
        AttributesParser { zarr_conventions: self.zarr_conventions.clone(), fields: self.fields.clone() }
    }
}

impl FromJson for AttributesParser {
    /// As [`AttributesParser::new`], from a JSON value, which must be an object:
    /// any other value fails with `Decode`.
    fn from_json(value: &Json) -> (r: Result<AttributesParser, Error>)
        ensures
            match value@ {
                JsonView::Object(entries) => match r {
                    Ok(p) => declaration(entries) == Declared::InUse(p@.in_use) && p@.fields
                        == removed(entries, conventions_key()) && kept(entries, p@.fields),
                    Err(e) => match declaration(entries) {
                        Declared::InUse(_) => false,
                        Declared::NoList => e@ is Decode,
                        Declared::BadRecord(v) => fails_as(v, e@),
                    },
                },
                _ => r matches Err(e) && e@ is Decode,
            },
    {
        match value {
            Json::Object(attributes) => AttributesParser::new(attributes),
            _ => Err(Error::Decode("attributes that are no object".to_owned())),
        }
    }
}

impl AttributesParser {
    /// Takes the identifiers in use from the list under `zarr_conventions`,
    /// none where the key is absent, and keeps all other attributes as they
    /// are. Fails with `Decode` where the value under the key is no list, and
    /// at the first value of the list that does not read as a record with an
    /// identifier.
    pub fn new(attributes: &Attributes) -> (r: Result<AttributesParser, Error>)
        ensures
            match r {
                Ok(p) => declaration(attributes@) == Declared::InUse(p@.in_use) && p@.fields
                    == removed(attributes@, conventions_key()) && kept(attributes@, p@.fields),
                Err(e) => match declaration(attributes@) {
                    Declared::InUse(_) => false,
                    Declared::NoList => e@ is Decode,
                    Declared::BadRecord(v) => fails_as(v, e@),
                },
            },
    {
        match ZarrConventions::from_attributes(attributes) {
            Ok(zarr_conventions) => {
                let fields = attributes.without("zarr_conventions");
                proof {
                    assert forall|key: Seq<char>| #[trigger]
                        lookup(fields@, key) == if key == conventions_key() {
                            None
                        } else {
                            lookup(attributes@, key)
                        } by {
                        lemma_removed(attributes@, conventions_key(), key);
                    }
                }
                Ok(AttributesParser { zarr_conventions, fields })
            },
            Err(e) => Err(e),
        }
    }

    /// Whether the convention is in use: whether any of its three identifiers
    /// is in the list of conventions.
    pub fn uses(&self, definition: &ConventionDefinition) -> (r: bool)
        ensures
            r == convention_in_use(self@.in_use, definition@),
    {
        self.zarr_conventions.uses(definition)
    }

    /// The data of a convention in nested form, under `key`: nothing where
    /// the convention is not in use, whatever lies under the key. Fails with
    /// `KeyNotFound` where it is in use and the key has no value.
    pub fn parse_nested_value(&self, definition: &ConventionDefinition, key: &str) -> (r: Result<
        Option<Json>,
        Error,
    >)
        ensures
            match r {
                Ok(None) => !convention_in_use(self@.in_use, definition@),
                Ok(Some(v)) => convention_in_use(self@.in_use, definition@) && lookup(self@.fields, key@)
                    == Some(v@),
                Err(e) => convention_in_use(self@.in_use, definition@) && lookup(self@.fields, key@)
                    is None && e@ == ErrorView::KeyNotFound(key@),
            },
    {
        if !self.zarr_conventions.uses(definition) {
            return Ok(None);
        }
        match nested_value(key, &self.fields) {
            Ok(v) => Ok(Some(v)),
            Err(e) => Err(e),
        }
    }

    /// The data of a convention in prefixed form: nothing where the
    /// convention is not in use, else the object made of the fields whose key
    /// starts with `prefix`.
    pub fn parse_prefixed_value(&self, definition: &ConventionDefinition, prefix: &str) -> (r: Option<
        Json,
    >)
        ensures
            match r {
                None => !convention_in_use(self@.in_use, definition@),
                Some(v) => convention_in_use(self@.in_use, definition@) && v@ == JsonView::Object(
                    nested(prefix@, self@.fields, Entries::empty()),
                ),
            },
    {
        if !self.zarr_conventions.uses(definition) {
            return None;
        }
        Some(prefixed_value(prefix, &self.fields))
    }

    /// The data of a convention in combined form: nothing where the
    /// convention is not in use, else the nested object completed by the
    /// prefixed fields that it lacks, any other nested value alone, or the
    /// prefixed fields where nothing is nested.
    pub fn parse_value(&self, definition: &ConventionDefinition, key: &str, prefix: &str) -> (r:
        Option<Json>)
        ensures
            match r {
                None => !convention_in_use(self@.in_use, definition@),
                Some(v) => convention_in_use(self@.in_use, definition@) && v@ == combined(
                    key@,
                    prefix@,
                    self@.fields,
                ),
            },
    {
        if !self.zarr_conventions.uses(definition) {
            return None;
        }
        Some(combined_value(key, prefix, &self.fields))
    }

    /// The free field under `key`.
    pub fn get_value(&self, key: &str) -> (r: Option<&Json>)
        ensures
            match r {
                Some(v) => lookup(self@.fields, key@) == Some(v@),
                None => lookup(self@.fields, key@) is None,
            },
    {
        self.fields.get(key)
    }

    /// Whether the convention of `T` is in use.
    pub fn in_use<T: ZarrConventionImpl>(&self) -> (r: bool)
        ensures
            r == convention_in_use(self@.in_use, T::definition_view()),
    {
        T::in_use(&self.zarr_conventions)
    }

    /// The data of `T` from its nested form: nothing where its convention is
    /// not in use, else what `from_json` makes of the value under its key.
    /// Fails with `KeyNotFound` where the convention is in use and the key has
    /// no value, and with what `from_json` fails with.
    pub fn parse_nested<T: NestedRepr>(&self) -> (r: Result<Option<T>, Error>)
        ensures
            if !convention_in_use(self@.in_use, T::definition_view()) {
                r matches Ok(None)
            } else {
                match lookup(self@.fields, T::KEY@) {
                    Some(v) => exists|value: Json, read: Result<T, Error>|
                        value@ == v && call_ensures(T::from_json, (&value,), read) && r == gated(read),
                    None => r matches Err(e) && e@ == ErrorView::KeyNotFound(T::KEY@),
                }
            },
    {
        if !T::in_use(&self.zarr_conventions) {
            return Ok(None);
        }
        match T::from_attributes_nested(&self.fields) {
            Ok(t) => Ok(Some(t)),
            Err(e) => Err(e),
        }
    }

    /// The data of `T` from its prefixed form: nothing where its convention
    /// is not in use, else what `from_json` makes of the object made of the
    /// fields whose key starts with its prefix. Fails with what `from_json`
    /// fails with.
    pub fn parse_prefixed<T: PrefixedRepr>(&self) -> (r: Result<Option<T>, Error>)
        ensures
            if !convention_in_use(self@.in_use, T::definition_view()) {
                r matches Ok(None)
            } else {
                exists|value: Json, read: Result<T, Error>|
                    value@ == JsonView::Object(nested(T::PREFIX@, self@.fields, Entries::empty()))
                        && call_ensures(T::from_json, (&value,), read) && r == gated(read)
            },
    {
        if !T::in_use(&self.zarr_conventions) {
            return Ok(None);
        }
        match T::from_attributes_prefixed(&self.fields) {
            Ok(t) => Ok(Some(t)),
            Err(e) => Err(e),
        }
    }

    /// The data of `T` from its combined form: nothing where its convention
    /// is not in use, else what `from_json` makes of the combined value. Fails
    /// with what `from_json` fails with.
    pub fn parse<T: FromNestedOrPrefixed>(&self) -> (r: Result<Option<T>, Error>)
        ensures
            if !convention_in_use(self@.in_use, T::definition_view()) {
                r matches Ok(None)
            } else {
                exists|value: Json, read: Result<T, Error>|
                    value@ == combined(T::KEY@, T::PREFIX@, self@.fields) && call_ensures(
                        T::from_json,
                        (&value,),
                        read,
                    ) && r == gated(read)
            },
    {
        if !T::in_use(&self.zarr_conventions) {
            return Ok(None);
        }
        match T::from_attributes(&self.fields) {
            Ok(t) => Ok(Some(t)),
            Err(e) => Err(e),
        }
    }

    /// The free field under `key`, read as a `T`: nothing where the key has no
    /// value, else what `from_json` makes of the value. Fails with what
    /// `from_json` fails with.
    pub fn get<T: FromJson>(&self, key: &str) -> (r: Result<Option<T>, Error>)
        ensures
            match lookup(self@.fields, key@) {
                Some(v) => exists|value: Json, read: Result<T, Error>|
                    value@ == v && call_ensures(T::from_json, (&value,), read) && r == gated(read),
                None => r matches Ok(None),
            },
    {
        match self.fields.get(key) {
            Some(value) => match T::from_json(value) {
                Ok(t) => Ok(Some(t)),
                Err(e) => Err(e),
            },
            None => Ok(None),
        }
    }
}

} // verus!
