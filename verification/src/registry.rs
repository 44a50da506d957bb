//! A catalogue of convention definitions that can be looked up by any of
//! their three identifiers.
//!
//! The catalogue keeps each definition three times, once for each kind of
//! identifier. Under their UUIDs the definitions lie in an ordered map. Under
//! their URLs they lie in lists that are searched from the front: two URLs
//! are equal where `iref` says so, which no order on their texts decides.

use crate::convention::{ConventionDefinition, ConventionId, DefinitionView, IdView};
use crate::error::{Error, ErrorView};
use crate::license::{license_definition, License};
use crate::seqs::{
    first_index, first_match, lemma_first_index, lemma_first_index_is, lemma_first_match_push,
};
use crate::traits::ZarrConventionImpl;
use crate::uom::{uom_definition, UnitOfMeasurement};
use crate::uri::same_uri;
use std::collections::BTreeMap;
use vstd::prelude::*;
use vstd::std_specs::btree::increasing_seq;
use vstd::std_specs::cmp::OrdSpec;
use vstd::std_specs::iter::IteratorSpec;

verus! {

broadcast use {vstd::std_specs::btree::group_btree_axioms, vstd::laws_cmp::group_laws_cmp};

/// Whether `id` is one of the identifiers of `d`.
pub open spec fn names(d: DefinitionView, id: IdView) -> bool {
    match id {
        IdView::Uuid(u) => d.uuid == u,
        IdView::SchemaUrl(url) => same_uri(d.schema_url, url),
        IdView::SpecUrl(url) => same_uri(d.spec_url, url),
    }
}

/// What a list of definitions holds.
pub open spec fn views(list: Seq<ConventionDefinition>) -> Seq<DefinitionView> {
    Seq::new(list.len(), |i: int| list[i]@)
}

/// What a map of definitions holds.
pub open spec fn definition_views(m: Map<u128, ConventionDefinition>) -> Map<u128, DefinitionView> {
    Map::new(|k: u128| m.contains_key(k), |k: u128| m[k]@)
}

/// What a [`ConventionRegistry`] holds: its definitions three times over, by
/// UUID, and by schema URL and by specification URL in the order of
/// registration.
#[verifier::ext_equal]
pub struct RegistryView {
    pub by_uuid: Map<u128, DefinitionView>,
    pub by_schema: Seq<DefinitionView>,
    pub by_spec: Seq<DefinitionView>,
}

/// The definition that is found under `id`: under a UUID the one that the
/// map holds for it, under a URL the first of the list that the URL names.
pub open spec fn found(r: RegistryView, id: IdView) -> Option<DefinitionView> {
    match id {
        IdView::Uuid(u) => if r.by_uuid.contains_key(u) {
            Some(r.by_uuid[u])
        } else {
            None
        },
        IdView::SchemaUrl(_) => first_match(r.by_schema, |d: DefinitionView| names(d, id)),
        IdView::SpecUrl(_) => first_match(r.by_spec, |d: DefinitionView| names(d, id)),
    }
}

/// The identifier of `d` that stops its registration: the first of UUID,
/// schema URL and specification URL that the registry already holds.
pub open spec fn duplicate(r: RegistryView, d: DefinitionView) -> Option<IdView> {
    if found(r, IdView::Uuid(d.uuid)) is Some {
        Some(IdView::Uuid(d.uuid))
    } else if found(r, IdView::SchemaUrl(d.schema_url)) is Some {
        Some(IdView::SchemaUrl(d.schema_url))
    } else if found(r, IdView::SpecUrl(d.spec_url)) is Some {
        Some(IdView::SpecUrl(d.spec_url))
    } else {
        None
    }
}

/// The registry after `d` was offered to it. The three are tried in the order
/// UUID, schema URL, specification URL; `d` enters each until one already
/// holds its identifier, and what it entered before stays.
pub open spec fn registered(r: RegistryView, d: DefinitionView) -> RegistryView {
    if found(r, IdView::Uuid(d.uuid)) is Some {
        r
    } else if found(r, IdView::SchemaUrl(d.schema_url)) is Some {
        RegistryView { by_uuid: r.by_uuid.insert(d.uuid, d), ..r }
    } else if found(r, IdView::SpecUrl(d.spec_url)) is Some {
        RegistryView { by_uuid: r.by_uuid.insert(d.uuid, d), by_schema: r.by_schema.push(d), ..r }
    } else {
        RegistryView {
            by_uuid: r.by_uuid.insert(d.uuid, d),
            by_schema: r.by_schema.push(d),
            by_spec: r.by_spec.push(d),
        }
    }
}

/// Each definition lies under its own UUID, and there are finitely many.
pub open spec fn keyed(m: Map<u128, DefinitionView>) -> bool {
    m.dom().finite() && forall|k: u128| m.contains_key(k) ==> (#[trigger] m[k]).uuid == k
}

/// The UUIDs increase along the list.
pub open spec fn increasing(s: Seq<DefinitionView>) -> bool {
    forall|i: int, j: int| 0 <= i < j < s.len() ==> (#[trigger] s[i]).uuid < (#[trigger] s[j]).uuid
}

/// Whether the list holds the definitions of the map, each once, by
/// increasing UUID.
pub open spec fn lists(s: Seq<DefinitionView>, m: Map<u128, DefinitionView>) -> bool {
    &&& increasing(s)
    &&& s.len() == m.dom().len()
    &&& forall|i: int|
        0 <= i < s.len() ==> m.contains_key((#[trigger] s[i]).uuid) && m[s[i].uuid] == s[i]
}

/// No two items of the list have the same schema URL.
pub open spec fn schemas_differ(s: Seq<DefinitionView>) -> bool {
    forall|i: int, j: int|
        0 <= i < j < s.len() ==> !same_uri((#[trigger] s[i]).schema_url, (#[trigger] s[j]).schema_url)
}

/// No two items of the list have the same specification URL.
pub open spec fn specs_differ(s: Seq<DefinitionView>) -> bool {
    forall|i: int, j: int|
        0 <= i < j < s.len() ==> !same_uri((#[trigger] s[i]).spec_url, (#[trigger] s[j]).spec_url)
}

/// What holds of every registry.
pub open spec fn well_formed(r: RegistryView) -> bool {
    keyed(r.by_uuid) && schemas_differ(r.by_schema) && specs_differ(r.by_spec)
}

/// Registration never changes what is found under an identifier that the
/// registry already holds: who registered first keeps the identifier.
pub proof fn law_first_registration_stays(r: RegistryView, d: DefinitionView, id: IdView)
    requires
        well_formed(r),
        found(r, id) is Some,
    ensures
        found(registered(r, d), id) == found(r, id),
{
    let p = |x: DefinitionView| names(x, id);
    match id {
        IdView::Uuid(_) => {},
        IdView::SchemaUrl(_) => {
            lemma_first_match_push(r.by_schema, p, d);
        },
        IdView::SpecUrl(_) => {
            lemma_first_match_push(r.by_spec, p, d);
        },
    }
}

/// Whether `d` is found under each of its three identifiers.
pub open spec fn holds(r: RegistryView, d: DefinitionView) -> bool {
    &&& found(r, IdView::Uuid(d.uuid)) == Some(d)
    &&& found(r, IdView::SchemaUrl(d.schema_url)) == Some(d)
    &&& found(r, IdView::SpecUrl(d.spec_url)) == Some(d)
}

/// A definition that was registered without a duplicate is found under each
/// of its three identifiers.
pub proof fn law_registered_is_found(r: RegistryView, d: DefinitionView)
    requires
        well_formed(r),
        duplicate(r, d) is None,
    ensures
        holds(registered(r, d), d),
{
    lemma_first_match_push(r.by_schema, |x: DefinitionView| names(x, IdView::SchemaUrl(d.schema_url)), d);
    lemma_first_match_push(r.by_spec, |x: DefinitionView| names(x, IdView::SpecUrl(d.spec_url)), d);
}

/// Registering a definition a second time fails on its UUID and leaves the
/// registry as the first registration made it, with the definition still
/// found under each of its identifiers.
pub proof fn law_second_registration_fails(r: RegistryView, d: DefinitionView)
    requires
        well_formed(r),
        duplicate(r, d) is None,
    ensures
        duplicate(registered(r, d), d) == Some(IdView::Uuid(d.uuid)),
        registered(registered(r, d), d) == registered(r, d),
        holds(registered(registered(r, d), d), d),
{
    law_registered_is_found(r, d);
}

/// Registration keeps a registry well formed.
pub proof fn law_registration_keeps_well_formed(r: RegistryView, d: DefinitionView)
    requires
        well_formed(r),
    ensures
        well_formed(registered(r, d)),
{
    if found(r, IdView::Uuid(d.uuid)) is None {
        if found(r, IdView::SchemaUrl(d.schema_url)) is None {
            lemma_first_index(r.by_schema, |x: DefinitionView| names(x, IdView::SchemaUrl(d.schema_url)));
            if found(r, IdView::SpecUrl(d.spec_url)) is None {
                lemma_first_index(r.by_spec, |x: DefinitionView| names(x, IdView::SpecUrl(d.spec_url)));
            }
        }
    }
}

/// A catalogue of conventions.
#[derive(Debug)]
pub struct ConventionRegistry {
    by_uuid: BTreeMap<u128, ConventionDefinition>,
    by_schema: Vec<ConventionDefinition>,
    by_spec: Vec<ConventionDefinition>,
}

impl View for ConventionRegistry {
    type V = RegistryView;

    closed spec fn view(&self) -> RegistryView {
        RegistryView {
            by_uuid: definition_views(self.by_uuid@),
            by_schema: views(self.by_schema@),
            by_spec: views(self.by_spec@),
        }
    }
}

/// A copy of a list of definitions.
pub fn copy_definitions(list: &Vec<ConventionDefinition>) -> (r: Vec<ConventionDefinition>)
    ensures
        views(r@) == views(list@),
{
    let mut copy: Vec<ConventionDefinition> = Vec::new();
    let mut i: usize = 0;
    while i < list.len()
        invariant
            0 <= i <= list@.len(),
            copy@.len() == i,
            forall|j: int| 0 <= j < i ==> copy@[j]@ == list@[j]@,
        decreases list@.len() - i,
    {
        copy.push(list[i].clone());
        i += 1;
    }
    assert(views(copy@) =~= views(list@));
    copy
}

/// Whether `id` is one of the identifiers of `def`.
fn is_named_by(def: &ConventionDefinition, id: &ConventionId) -> (r: bool)
    ensures
        r == names(def@, id@),
{
    match id {
        ConventionId::Uuid(u) => def.uuid == *u,
        ConventionId::SchemaUrl(url) => def.schema_url.same_as(url),
        ConventionId::SpecUrl(url) => def.spec_url.same_as(url),
    }
}

/// The place of the first definition in `list` that `id` names, or the length
/// of `list`.
fn position(list: &Vec<ConventionDefinition>, id: &ConventionId) -> (i: usize)
    ensures
        i == first_index(views(list@), |d: DefinitionView| names(d, id@)),
        i <= list@.len(),
{
    let ghost p = |d: DefinitionView| names(d, id@);
    let mut i: usize = 0;
    while i < list.len()
        invariant
            0 <= i <= list@.len(),
            p == |d: DefinitionView| names(d, id@),
            forall|j: int| 0 <= j < i ==> !p(#[trigger] views(list@)[j]),
        decreases list@.len() - i,
    {
        if is_named_by(&list[i], id) {
            proof {
                assert(p(views(list@)[i as int]));
                lemma_first_index_is(views(list@), p, i as int);
            }
            return i;
        }
        i += 1;
    }
    proof {
        lemma_first_index_is(views(list@), p, i as int);
    }
    i
}

/// The definitions of the map, each once, by increasing UUID.
fn listed(m: &BTreeMap<u128, ConventionDefinition>) -> (r: Vec<ConventionDefinition>)
    requires
        keyed(definition_views(m@)),
    ensures
        lists(views(r@), definition_views(m@)),
{
    let values = m.values();
    let ghost keys: Seq<u128> = choose|key_seq: Seq<u128>|
        {
            &&& increasing_seq(key_seq)
            &&& key_seq.to_set() == m@.dom()
            &&& key_seq.no_duplicates()
            &&& IteratorSpec::remaining(&values) == key_seq.map(|i: int, k: u128| &m@[k])
        };
    let mut out: Vec<ConventionDefinition> = Vec::new();
    for v in it: values
        invariant
            out@.len() == it.index(),
            it.seq() == keys.map(|i: int, k: u128| &m@[k]),
            forall|j: int| 0 <= j < out@.len() ==> (#[trigger] out@[j])@ == m@[keys[j]]@,
    {
        out.push(v.clone());
    }
    proof {
        let s = views(out@);
        let held = definition_views(m@);
        keys.unique_seq_to_set();
        assert forall|i: int| 0 <= i < s.len() implies held.contains_key((#[trigger] s[i]).uuid)
            && held[s[i].uuid] == s[i] by {
            assert(keys.to_set().contains(keys[i]));
            assert(held[keys[i]].uuid == keys[i]);
        }
        assert forall|i: int, j: int| 0 <= i < j < s.len() implies (#[trigger] s[i]).uuid < (
        #[trigger] s[j]).uuid by {
            assert(keys.to_set().contains(keys[i]));
            assert(keys.to_set().contains(keys[j]));
            assert(held[keys[i]].uuid == keys[i]);
            assert(held[keys[j]].uuid == keys[j]);
            assert(keys[i].cmp_spec(&keys[j]) is Less);
        }
        assert(held.dom() =~= m@.dom());
    }
    out
}

/// A registry without definitions.
pub open spec fn empty_registry() -> RegistryView {
    RegistryView { by_uuid: Map::empty(), by_schema: Seq::empty(), by_spec: Seq::empty() }
}

impl Default for ConventionRegistry {
    fn default() -> (r: ConventionRegistry)
        ensures
            r@ == empty_registry(),
    {
        ConventionRegistry::new()
    }
}

impl ConventionRegistry {
    #[verifier::type_invariant]
    spec fn sound(self) -> bool {
        well_formed(self@)
    }

    /// A registry without definitions.
    pub fn new() -> (r: ConventionRegistry)
        ensures
            r@ == empty_registry(),
    {
        let by_uuid: BTreeMap<u128, ConventionDefinition> = BTreeMap::new();
        assert(definition_views(by_uuid@) =~= Map::empty());
        let r = ConventionRegistry { by_uuid, by_schema: Vec::new(), by_spec: Vec::new() };
        assert(r@.by_schema =~= Seq::empty());
        assert(r@.by_spec =~= Seq::empty());
        r
    }

    /// Registers `definition` under its UUID, its schema URL and its
    /// specification URL, in this order. Where one of them is registered
    /// already, the call fails with that identifier: the definition found
    /// there stays, and so does what this call entered before.
    pub fn register_definition(&mut self, definition: ConventionDefinition) -> (r: Result<(), Error>)
        ensures
            well_formed(old(self)@),
            well_formed(final(self)@),
            final(self)@ == registered(old(self)@, definition@),
            match r {
                Ok(_) => duplicate(old(self)@, definition@) is None && holds(
                    final(self)@,
                    definition@,
                ),
                Err(e) => duplicate(old(self)@, definition@) is Some && e@
                    == ErrorView::DuplicateIdentifier(duplicate(old(self)@, definition@)->Some_0),
            },
            forall|id: IdView| #[trigger]
                found(old(self)@, id) is Some ==> found(final(self)@, id) == found(old(self)@, id),
    {
        proof {
            use_type_invariant(&*self);
        }
        let ghost before = self@;
        let ghost d = definition@;
        proof {
            if duplicate(before, d) is None {
                law_registered_is_found(before, d);
            }
            assert forall|id: IdView| #[trigger] found(before, id) is Some implies found(
                registered(before, d),
                id,
            ) == found(before, id) by {
                law_first_registration_stays(before, d, id);
            }
        }
        let uuid_id = definition.id_uuid();
        let schema_id = definition.id_schema();
        let spec_id = definition.id_spec();

        if self.by_uuid.contains_key(&definition.uuid) {
            return Err(Error::DuplicateIdentifier(uuid_id));
        }
        let mut by_uuid: BTreeMap<u128, ConventionDefinition> = BTreeMap::new();
        assert(definition_views(by_uuid@) =~= Map::empty());
        std::mem::swap(&mut self.by_uuid, &mut by_uuid);
        by_uuid.insert(definition.uuid, definition.clone());
        assert(definition_views(by_uuid@) =~= before.by_uuid.insert(d.uuid, d));
        std::mem::swap(&mut self.by_uuid, &mut by_uuid);

        if position(&self.by_schema, &schema_id) < self.by_schema.len() {
            return Err(Error::DuplicateIdentifier(schema_id));
        }
        proof {
            lemma_first_index(before.by_schema, |x: DefinitionView| names(x, schema_id@));
        }
        let mut by_schema: Vec<ConventionDefinition> = Vec::new();
        std::mem::swap(&mut self.by_schema, &mut by_schema);
        by_schema.push(definition.clone());
        assert(views(by_schema@) =~= before.by_schema.push(d));
        std::mem::swap(&mut self.by_schema, &mut by_schema);

        if position(&self.by_spec, &spec_id) < self.by_spec.len() {
            return Err(Error::DuplicateIdentifier(spec_id));
        }
        proof {
            lemma_first_index(before.by_spec, |x: DefinitionView| names(x, spec_id@));
        }
        let mut by_spec: Vec<ConventionDefinition> = Vec::new();
        std::mem::swap(&mut self.by_spec, &mut by_spec);
        by_spec.push(definition);
        assert(views(by_spec@) =~= before.by_spec.push(d));
        std::mem::swap(&mut self.by_spec, &mut by_spec);
        Ok(())
    }

    /// Registers the convention of `T`: what
    /// [`ConventionRegistry::register_definition`] does with its definition.
    pub fn register<T: ZarrConventionImpl>(&mut self) -> (r: Result<(), Error>)
        ensures
            well_formed(old(self)@),
            well_formed(final(self)@),
            final(self)@ == registered(old(self)@, T::definition_view()),
            match r {
                Ok(_) => duplicate(old(self)@, T::definition_view()) is None && holds(
                    final(self)@,
                    T::definition_view(),
                ),
                Err(e) => duplicate(old(self)@, T::definition_view()) is Some && e@
                    == ErrorView::DuplicateIdentifier(
                    duplicate(old(self)@, T::definition_view())->Some_0,
                ),
            },
            forall|id: IdView| #[trigger]
                found(old(self)@, id) is Some ==> found(final(self)@, id) == found(old(self)@, id),
    {
        self.register_definition(T::definition())
    }

    /// Whether a definition is registered under `id`.
    pub fn contains(&self, id: &ConventionId) -> (r: bool)
        ensures
            well_formed(self@),
            r == found(self@, id@) is Some,
    {
        proof {
            use_type_invariant(self);
        }
        match id {
            ConventionId::Uuid(u) => self.by_uuid.contains_key(u),
            ConventionId::SchemaUrl(_) => position(&self.by_schema, id) < self.by_schema.len(),
            ConventionId::SpecUrl(_) => position(&self.by_spec, id) < self.by_spec.len(),
        }
    }

    /// The definition that is registered under `id`.
    pub fn get(&self, id: &ConventionId) -> (r: Option<ConventionDefinition>)
        ensures
            well_formed(self@),
            match r {
                Some(d) => found(self@, id@) == Some(d@),
                None => found(self@, id@) is None,
            },
    {
        proof {
            use_type_invariant(self);
        }
        let (list, i) = match id {
            ConventionId::Uuid(u) => {
                return match self.by_uuid.get(u) {
                    Some(d) => Some(d.clone()),
                    None => None,
                };
            },
            ConventionId::SchemaUrl(_) => (&self.by_schema, position(&self.by_schema, id)),
            ConventionId::SpecUrl(_) => (&self.by_spec, position(&self.by_spec, id)),
        };
        if i < list.len() {
            Some(list[i].clone())
        } else {
            None
        }
    }

    /// All registered definitions, each once, by increasing UUID.
    pub fn conventions(&self) -> (r: Vec<ConventionDefinition>)
        ensures
            well_formed(self@),
            lists(views(r@), self@.by_uuid),
    {
        proof {
            use_type_invariant(self);
        }
        listed(&self.by_uuid)
    }
}

/// The identifier that stops the registration of the conventions that come
/// with the library: that of the licences, or else that of the units of
/// measurement once the licences are registered.
pub open spec fn known_duplicate(r: RegistryView) -> Option<IdView> {
    if duplicate(r, license_definition()) is Some {
        duplicate(r, license_definition())
    } else {
        duplicate(registered(r, license_definition()), uom_definition())
    }
}

/// The registry after the conventions that come with the library were
/// offered to it: the licences, and then, unless the licences were stopped,
/// the units of measurement.
pub open spec fn with_known(r: RegistryView) -> RegistryView {
    if duplicate(r, license_definition()) is Some {
        registered(r, license_definition())
    } else {
        registered(registered(r, license_definition()), uom_definition())
    }
}

/// Registers the conventions that come with the library, licences first and
/// units of measurement second, and stops at the first that fails. To be
/// called once, before the registry is used.
pub fn register_all(registry: &mut ConventionRegistry) -> (r: Result<(), Error>)
    ensures
        final(registry)@ == with_known(old(registry)@),
        match r {
            Ok(_) => known_duplicate(old(registry)@) is None && holds(
                final(registry)@,
                license_definition(),
            ) && holds(final(registry)@, uom_definition()),
            Err(e) => known_duplicate(old(registry)@) is Some && e@ == ErrorView::DuplicateIdentifier(
                known_duplicate(old(registry)@)->Some_0,
            ),
        },
{
    match registry.register_definition(License::definition()) {
        Ok(_) => {},
        Err(e) => {
            return Err(e);
        },
    }
    let ghost middle = registry@;
    match registry.register_definition(UnitOfMeasurement::definition()) {
        Ok(_) => {
            assert(found(middle, IdView::Uuid(license_definition().uuid)) is Some);
            assert(found(middle, IdView::SchemaUrl(license_definition().schema_url)) is Some);
            assert(found(middle, IdView::SpecUrl(license_definition().spec_url)) is Some);
            Ok(())
        },
        Err(e) => Err(e),
    }
}

} // verus!
