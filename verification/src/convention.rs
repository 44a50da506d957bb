//! How a convention is named: its full definition, the partial record of it
//! that travels in attributes, and the single identifier either reduces to.

use crate::error::Error;
use crate::text::{as_text, compare_text, copy_text, text_of, text_order};
use crate::uri::{copy_uri, is_uri, order_of, same_uri, uri_text_of, Uri};
use crate::uuids::{parse_uuid, uuid_of_text};
use std::cmp::Ordering;
use vstd::prelude::*;

verus! {

/// The one identifier by which a convention is looked up.
#[derive(Debug, PartialEq, Eq)]
pub enum ConventionId {
    Uuid(u128),
    SchemaUrl(Uri),
    SpecUrl(Uri),
}

/// What a [`ConventionId`] holds.
pub enum IdView {
    Uuid(u128),
    SchemaUrl(Seq<char>),
    SpecUrl(Seq<char>),
}

/// Whether two identifiers are of one kind and name the same thing: equal
/// UUIDs, or URLs that are equal as URIs.
pub open spec fn same_id(a: IdView, b: IdView) -> bool {
    match (a, b) {
        (IdView::Uuid(x), IdView::Uuid(y)) => x == y,
        (IdView::SchemaUrl(x), IdView::SchemaUrl(y)) => same_uri(x, y),
        (IdView::SpecUrl(x), IdView::SpecUrl(y)) => same_uri(x, y),
        _ => false,
    }
}

impl View for ConventionId {
    type V = IdView;

    open spec fn view(&self) -> IdView {
        match self {
            ConventionId::Uuid(id) => IdView::Uuid(*id),
            ConventionId::SchemaUrl(url) => IdView::SchemaUrl(url@),
            ConventionId::SpecUrl(url) => IdView::SpecUrl(url@),
        }
    }
}

impl Clone for ConventionId {
    fn clone(&self) -> (r: ConventionId)
        ensures
            r@ == self@,
    {
        match self {
            ConventionId::Uuid(id) => ConventionId::Uuid(*id),
            ConventionId::SchemaUrl(url) => ConventionId::SchemaUrl(url.clone()),
            ConventionId::SpecUrl(url) => ConventionId::SpecUrl(url.clone()),
        }
    }
}

impl ConventionId {
    /// Whether the two identifiers name the same thing.
    pub fn same_as(&self, other: &ConventionId) -> (r: bool)
        ensures
            r == same_id(self@, other@),
    {
        match (self, other) {
            (ConventionId::Uuid(x), ConventionId::Uuid(y)) => *x == *y,
            (ConventionId::SchemaUrl(x), ConventionId::SchemaUrl(y)) => x.same_as(y),
            (ConventionId::SpecUrl(x), ConventionId::SpecUrl(y)) => x.same_as(y),
            _ => false,
        }
    }
}

/// The full definition of a convention.
#[derive(Debug, PartialEq, Eq)]
pub struct ConventionDefinition {
    pub uuid: u128,
    pub schema_url: Uri,
    pub spec_url: Uri,
    pub name: String,
    pub description: String,
}

/// What a [`ConventionDefinition`] holds.
pub struct DefinitionView {
    pub uuid: u128,
    pub schema_url: Seq<char>,
    pub spec_url: Seq<char>,
    pub name: Seq<char>,
    pub description: Seq<char>,
}

impl View for ConventionDefinition {
    type V = DefinitionView;

    open spec fn view(&self) -> DefinitionView {
        DefinitionView {
            uuid: self.uuid,
            schema_url: self.schema_url@,
            spec_url: self.spec_url@,
            name: self.name@,
            description: self.description@,
        }
    }
}

/// The first of two orders that is not `Equal`.
pub open spec fn or_else(first: Ordering, second: Ordering) -> Ordering {
    match first {
        Ordering::Equal => second,
        _ => first,
    }
}

/// The order of two definitions: by UUID, then by schema URL and by
/// specification URL as URIs, then by name and by description as texts.
pub open spec fn definition_order(a: DefinitionView, b: DefinitionView) -> Ordering {
    if a.uuid < b.uuid {
        Ordering::Less
    } else if a.uuid > b.uuid {
        Ordering::Greater
    } else {
        or_else(
            order_of(a.schema_url, b.schema_url),
            or_else(
                order_of(a.spec_url, b.spec_url),
                or_else(text_order(a.name, b.name), text_order(a.description, b.description)),
            ),
        )
    }
}

/// Whether `a` comes before `b` in the order of definitions.
pub open spec fn precedes(a: DefinitionView, b: DefinitionView) -> bool {
    definition_order(a, b) == Ordering::Less
}

/// Whether two definitions are equal in the order of definitions.
pub open spec fn same_definition(a: DefinitionView, b: DefinitionView) -> bool {
    definition_order(a, b) == Ordering::Equal
}

impl Clone for ConventionDefinition {
    fn clone(&self) -> (r: ConventionDefinition)
        ensures
            r@ == self@,
    {
        ConventionDefinition {
            uuid: self.uuid,
            schema_url: self.schema_url.clone(),
            spec_url: self.spec_url.clone(),
            name: self.name.clone(),
            description: self.description.clone(),
        }
    }
}

impl PartialOrd for ConventionDefinition {
    fn partial_cmp(&self, other: &ConventionDefinition) -> (r: Option<Ordering>) {
        Some(self.compare(other))
    }
}

impl vstd::std_specs::cmp::PartialOrdSpecImpl for ConventionDefinition {
    open spec fn obeys_partial_cmp_spec() -> bool {
        true
    }

    open spec fn partial_cmp_spec(&self, other: &ConventionDefinition) -> Option<Ordering> {
        Some(definition_order(self@, other@))
    }
}

impl ConventionDefinition {
    /// A definition from texts. `None` where `uuid` is no UUID or one of the
    /// URLs is no absolute URI.
    pub fn new(uuid: &str, schema_url: &str, spec_url: &str, name: &str, description: &str) -> (r:
        Option<ConventionDefinition>)
        ensures
            r is Some <==> uuid_of_text(uuid@) is Some && is_uri(schema_url@) && is_uri(spec_url@),
            r matches Some(d) ==> d@ == (DefinitionView {
                uuid: uuid_of_text(uuid@)->Some_0,
                schema_url: schema_url@,
                spec_url: spec_url@,
                name: name@,
                description: description@,
            }),
    {
        let id = match parse_uuid(uuid) {
            Some(id) => id,
            None => {
                return None;
            },
        };
        let schema = match Uri::parse(schema_url) {
            Some(u) => u,
            None => {
                return None;
            },
        };
        let spec = match Uri::parse(spec_url) {
            Some(u) => u,
            None => {
                return None;
            },
        };
        Some(
            ConventionDefinition {
                uuid: id,
                schema_url: schema,
                spec_url: spec,
                name: name.to_owned(),
                description: description.to_owned(),
            },
        )
    }

    /// Orders two definitions field by field.
    pub fn compare(&self, other: &ConventionDefinition) -> (o: Ordering)
        ensures
            o == definition_order(self@, other@),
    {
        if self.uuid < other.uuid {
            return Ordering::Less;
        }
        if self.uuid > other.uuid {
            return Ordering::Greater;
        }
        match self.schema_url.compare(&other.schema_url) {
            Ordering::Equal => {},
            o => {
                return o;
            },
        }
        match self.spec_url.compare(&other.spec_url) {
            Ordering::Equal => {},
            o => {
                return o;
            },
        }
        match compare_text(self.name.as_str(), other.name.as_str()) {
            Ordering::Equal => {},
            o => {
                return o;
            },
        }
        compare_text(self.description.as_str(), other.description.as_str())
    }

    /// Whether this definition comes before `other`.
    pub fn precedes(&self, other: &ConventionDefinition) -> (r: bool)
        ensures
            r == precedes(self@, other@),
    {
        match self.compare(other) {
            Ordering::Less => true,
            _ => false,
        }
    }

    /// Whether this definition is equal to `other`.
    pub fn same_as(&self, other: &ConventionDefinition) -> (r: bool)
        ensures
            r == same_definition(self@, other@),
    {
        match self.compare(other) {
            Ordering::Equal => true,
            _ => false,
        }
    }

    /// The identifier made of the UUID.
    pub fn id_uuid(&self) -> (id: ConventionId)
        ensures
            id@ == IdView::Uuid(self@.uuid),
    {
        ConventionId::Uuid(self.uuid)
    }

    /// The identifier made of the schema URL.
    pub fn id_schema(&self) -> (id: ConventionId)
        ensures
            id@ == IdView::SchemaUrl(self@.schema_url),
    {
        ConventionId::SchemaUrl(self.schema_url.clone())
    }

    /// The identifier made of the specification URL.
    pub fn id_spec(&self) -> (id: ConventionId)
        ensures
            id@ == IdView::SpecUrl(self@.spec_url),
    {
        ConventionId::SpecUrl(self.spec_url.clone())
    }
}

/// A partial record of a convention, as found in attributes. At least one of
/// UUID, schema URL and specification URL is present.
#[derive(Debug, PartialEq, Eq)]
pub struct Convention {
    pub(crate) uuid: Option<u128>,
    pub(crate) schema_url: Option<Uri>,
    pub(crate) spec_url: Option<Uri>,
    pub(crate) name: Option<String>,
    pub(crate) description: Option<String>,
}

/// What a [`Convention`] or a [`ConventionBuilder`] holds.
pub struct ConventionView {
    pub uuid: Option<u128>,
    pub schema_url: Option<Seq<char>>,
    pub spec_url: Option<Seq<char>>,
    pub name: Option<Seq<char>>,
    pub description: Option<Seq<char>>,
}

/// Whether the record names its convention in at least one way.
pub open spec fn has_identifier(v: ConventionView) -> bool {
    v.uuid is Some || v.schema_url is Some || v.spec_url is Some
}

/// The preferred identifier of a record: the UUID, else the schema URL, else
/// the specification URL.
pub open spec fn preferred_id(v: ConventionView) -> IdView
    recommends
        has_identifier(v),
{
    if v.uuid is Some {
        IdView::Uuid(v.uuid->Some_0)
    } else if v.schema_url is Some {
        IdView::SchemaUrl(v.schema_url->Some_0)
    } else {
        IdView::SpecUrl(v.spec_url->Some_0)
    }
}

/// The record that holds all of a definition.
pub open spec fn full_record(d: DefinitionView) -> ConventionView {
    ConventionView {
        uuid: Some(d.uuid),
        schema_url: Some(d.schema_url),
        spec_url: Some(d.spec_url),
        name: Some(d.name),
        description: Some(d.description),
    }
}

impl View for Convention {
    type V = ConventionView;

    closed spec fn view(&self) -> ConventionView {
        ConventionView {
            uuid: self.uuid,
            schema_url: uri_text_of(self.schema_url),
            spec_url: uri_text_of(self.spec_url),
            name: text_of(self.name),
            description: text_of(self.description),
        }
    }
}

impl Clone for Convention {
    fn clone(&self) -> (r: Convention)
        ensures
            r@ == self@,
    {
        proof {
            use_type_invariant(self);
        }
        Convention {
            uuid: self.uuid,
            schema_url: copy_uri(&self.schema_url),
            spec_url: copy_uri(&self.spec_url),
            name: copy_text(&self.name),
            description: copy_text(&self.description),
        }
    }
}

/// Collects the parts of a [`Convention`].
#[derive(Debug)]
pub struct ConventionBuilder {
    uuid: Option<u128>,
    schema_url: Option<Uri>,
    spec_url: Option<Uri>,
    name: Option<String>,
    description: Option<String>,
}

impl View for ConventionBuilder {
    type V = ConventionView;

    closed spec fn view(&self) -> ConventionView {
        ConventionView {
            uuid: self.uuid,
            schema_url: uri_text_of(self.schema_url),
            spec_url: uri_text_of(self.spec_url),
            name: text_of(self.name),
            description: text_of(self.description),
        }
    }
}

/// A view with nothing present.
pub open spec fn empty_record() -> ConventionView {
    ConventionView { uuid: None, schema_url: None, spec_url: None, name: None, description: None }
}

impl Clone for ConventionBuilder {
    fn clone(&self) -> (r: ConventionBuilder)
        ensures
            r@ == self@,
    {
        ConventionBuilder {
            uuid: self.uuid,
            schema_url: copy_uri(&self.schema_url),
            spec_url: copy_uri(&self.spec_url),
            name: copy_text(&self.name),
            description: copy_text(&self.description),
        }
    }
}

impl Default for ConventionBuilder {
    fn default() -> (b: ConventionBuilder)
        ensures
            b@ == empty_record(),
    {
        ConventionBuilder { uuid: None, schema_url: None, spec_url: None, name: None, description: None }
    }
}

impl ConventionBuilder {
    /// Sets the UUID.
    pub fn uuid(self, uuid: u128) -> (b: ConventionBuilder)
        ensures
            b@ == (ConventionView { uuid: Some(uuid), ..self@ }),
    {
        ConventionBuilder { uuid: Some(uuid), ..self }
    }

    /// Sets the schema URL.
    pub fn schema_url(self, url: Uri) -> (b: ConventionBuilder)
        ensures
            b@ == (ConventionView { schema_url: Some(url@), ..self@ }),
    {
        ConventionBuilder { schema_url: Some(url), ..self }
    }

    /// Sets the specification URL.
    pub fn spec_url(self, url: Uri) -> (b: ConventionBuilder)
        ensures
            b@ == (ConventionView { spec_url: Some(url@), ..self@ }),
    {
        ConventionBuilder { spec_url: Some(url), ..self }
    }

    /// Sets the name.
    pub fn name(self, name: &str) -> (b: ConventionBuilder)
        ensures
            b@ == (ConventionView { name: Some(name@), ..self@ }),
    {
        ConventionBuilder { name: Some(name.to_owned()), ..self }
    }

    /// Sets the description.
    pub fn description(self, description: &str) -> (b: ConventionBuilder)
        ensures
            b@ == (ConventionView { description: Some(description@), ..self@ }),
    {
        ConventionBuilder { description: Some(description.to_owned()), ..self }
    }

    /// The record with the parts that were set. Fails where none of UUID,
    /// schema URL and specification URL was.
    pub fn build(self) -> (r: Result<Convention, Error>)
        ensures
            match r {
                Ok(c) => has_identifier(self@) && c@ == self@,
                Err(e) => !has_identifier(self@) && e == Error::MissingIdentifier,
            },
    {
        if self.uuid.is_none() && self.schema_url.is_none() && self.spec_url.is_none() {
            return Err(Error::MissingIdentifier);
        }
        Ok(
            Convention {
                uuid: self.uuid,
                schema_url: self.schema_url,
                spec_url: self.spec_url,
                name: self.name,
                description: self.description,
            },
        )
    }
}

impl From<ConventionDefinition> for Convention {
    fn from(def: ConventionDefinition) -> (c: Convention) {
        Convention {
            uuid: Some(def.uuid),
            schema_url: Some(def.schema_url),
            spec_url: Some(def.spec_url),
            name: Some(def.name),
            description: Some(def.description),
        }
    }
}

impl vstd::std_specs::convert::FromSpecImpl<ConventionDefinition> for Convention {
    open spec fn obeys_from_spec() -> bool {
        true
    }

    closed spec fn from_spec(def: ConventionDefinition) -> Convention {
        Convention {
            uuid: Some(def.uuid),
            schema_url: Some(def.schema_url),
            spec_url: Some(def.spec_url),
            name: Some(def.name),
            description: Some(def.description),
        }
    }
}

impl From<u128> for ConventionId {
    fn from(value: u128) -> (id: ConventionId)
        ensures
            id@ == IdView::Uuid(value),
    {
        ConventionId::Uuid(value)
    }
}

impl vstd::std_specs::convert::FromSpecImpl<u128> for ConventionId {
    open spec fn obeys_from_spec() -> bool {
        true
    }

    open spec fn from_spec(value: u128) -> ConventionId {
        ConventionId::Uuid(value)
    }
}

impl From<ConventionDefinition> for ConventionId {
    fn from(value: ConventionDefinition) -> (id: ConventionId)
        ensures
            id@ == IdView::Uuid(value@.uuid),
    {
        value.id_uuid()
    }
}

impl vstd::std_specs::convert::FromSpecImpl<ConventionDefinition> for ConventionId {
    open spec fn obeys_from_spec() -> bool {
        true
    }

    open spec fn from_spec(value: ConventionDefinition) -> ConventionId {
        ConventionId::Uuid(value.uuid)
    }
}

impl From<Convention> for ConventionId {
    fn from(value: Convention) -> (id: ConventionId) {
        proof {
            use_type_invariant(&value);
        }
        if let Some(i) = value.uuid {
            ConventionId::Uuid(i)
        } else if let Some(i) = value.schema_url {
            ConventionId::SchemaUrl(i)
        } else if let Some(i) = value.spec_url {
            ConventionId::SpecUrl(i)
        } else {
            vstd::pervasive::unreached()
        }
    }
}

impl vstd::std_specs::convert::FromSpecImpl<Convention> for ConventionId {
    open spec fn obeys_from_spec() -> bool {
        true
    }

    closed spec fn from_spec(value: Convention) -> ConventionId {
        if value.uuid is Some {
            ConventionId::Uuid(value.uuid->Some_0)
        } else if value.schema_url is Some {
            ConventionId::SchemaUrl(value.schema_url->Some_0)
        } else {
            ConventionId::SpecUrl(value.spec_url->Some_0)
        }
    }
}

/// What the conversions from a definition to a record, and from a record to
/// an identifier, give: the record that holds all of the definition, and the
/// preferred identifier of the record.
pub proof fn law_conversions(def: ConventionDefinition, record: Convention)
    ensures
        <Convention as vstd::std_specs::convert::FromSpec<ConventionDefinition>>::from_spec(def)@
            == full_record(def@),
        has_identifier(record@) ==> <ConventionId as vstd::std_specs::convert::FromSpec<
            Convention,
        >>::from_spec(record)@ == preferred_id(record@),
{
}

impl Convention {
    #[verifier::type_invariant]
    spec fn identified(self) -> bool {
        has_identifier(self@)
    }

    /// A builder with nothing set.
    pub fn builder() -> (b: ConventionBuilder)
        ensures
            b@ == empty_record(),
    {
        ConventionBuilder::default()
    }

    /// The record that holds all of a definition.
    pub fn from_definition(def: ConventionDefinition) -> (c: Convention)
        ensures
            c@ == full_record(def@),
    {
        Convention {
            uuid: Some(def.uuid),
            schema_url: Some(def.schema_url),
            spec_url: Some(def.spec_url),
            name: Some(def.name),
            description: Some(def.description),
        }
    }

    /// The preferred identifier: the UUID, else the schema URL, else the
    /// specification URL.
    pub fn id(&self) -> (id: ConventionId)
        ensures
            has_identifier(self@),
            id@ == preferred_id(self@),
    {
        proof {
            use_type_invariant(self);
        }
        if let Some(uuid) = self.uuid {
            ConventionId::Uuid(uuid)
        } else if let Some(url) = &self.schema_url {
            ConventionId::SchemaUrl(url.clone())
        } else if let Some(url) = &self.spec_url {
            ConventionId::SpecUrl(url.clone())
        } else {
            vstd::pervasive::unreached()
        }
    }

    /// The UUID, where the record has one.
    pub fn uuid(&self) -> (r: Option<u128>)
        ensures
            has_identifier(self@),
            r == self@.uuid,
    {
        proof {
            use_type_invariant(self);
        }
        self.uuid
    }

    /// The schema URL, where the record has one.
    pub fn schema_url(&self) -> (r: Option<&Uri>)
        ensures
            match r {
                Some(u) => self@.schema_url == Some(u@),
                None => self@.schema_url is None,
            },
    {
        match &self.schema_url {
            Some(u) => Some(u),
            None => None,
        }
    }

    /// The specification URL, where the record has one.
    pub fn spec_url(&self) -> (r: Option<&Uri>)
        ensures
            match r {
                Some(u) => self@.spec_url == Some(u@),
                None => self@.spec_url is None,
            },
    {
        match &self.spec_url {
            Some(u) => Some(u),
            None => None,
        }
    }

    /// The name, where the record has one.
    pub fn name(&self) -> (r: Option<&str>)
        ensures
            match r {
                Some(s) => self@.name == Some(s@),
                None => self@.name is None,
            },
    {
        as_text(&self.name)
    }

    /// The description, where the record has one.
    pub fn description(&self) -> (r: Option<&str>)
        ensures
            match r {
                Some(s) => self@.description == Some(s@),
                None => self@.description is None,
            },
    {
        as_text(&self.description)
    }
}

} // verus!
