//! Units of measurement for numerical Zarr arrays.

use crate::convention::{ConventionDefinition, DefinitionView};
use crate::error::Error;
use crate::fields::{
    lemma_optional_field, lemma_optional_has_key, optional_entry, read_text_field, text_field,
    write_optional,
};
use crate::json::{has_key, key_index, lookup, Attributes, Entries, Json, JsonView};
use crate::text::{as_text, text_of};
use crate::traits::{FromJson, NestedRepr, ToJson, ZarrConventionImpl};
use crate::uri::Uri;
use vstd::prelude::*;

verus! {

/// A unit in the Unified Code for Units of Measure.
#[derive(Debug)]
pub struct Ucum {
    unit: Option<String>,
    version: Option<String>,
}

/// What a [`Ucum`] holds.
pub struct UcumView {
    pub unit: Option<Seq<char>>,
    pub version: Option<Seq<char>>,
}

/// The unit of an array's values, with a free description.
#[derive(Debug)]
pub struct UnitOfMeasurement {
    ucum: Ucum,
    description: Option<String>,
}

/// What a [`UnitOfMeasurement`] holds.
pub struct UnitOfMeasurementView {
    pub ucum: UcumView,
    pub description: Option<Seq<char>>,
}

/// Collects the parts of a [`UnitOfMeasurement`].
#[derive(Debug)]
pub struct Builder {
    unit: Option<String>,
    version: Option<String>,
    description: Option<String>,
}

/// What a [`Builder`] holds.
pub struct BuilderView {
    pub unit: Option<Seq<char>>,
    pub version: Option<Seq<char>>,
    pub description: Option<Seq<char>>,
}

impl View for Ucum {
    type V = UcumView;

    closed spec fn view(&self) -> UcumView {
        UcumView { unit: text_of(self.unit), version: text_of(self.version) }
    }
}

impl View for UnitOfMeasurement {
    type V = UnitOfMeasurementView;

    closed spec fn view(&self) -> UnitOfMeasurementView {
        UnitOfMeasurementView { ucum: self.ucum@, description: text_of(self.description) }
    }
}

impl View for Builder {
    type V = BuilderView;

    closed spec fn view(&self) -> BuilderView {
        BuilderView {
            unit: text_of(self.unit),
            version: text_of(self.version),
            description: text_of(self.description),
        }
    }
}

/// The definition of the convention for units of measurement.
pub open spec fn uom_definition() -> DefinitionView {
    DefinitionView {
        uuid: 0x3bbe438d_df37_49fe_8e2b_739296d46dfb,
        schema_url: "https://raw.githubusercontent.com/clbarnes/zarr-convention-uom/refs/tags/v1/schema.json"@,
        spec_url: "https://github.com/clbarnes/zarr-convention-uom/blob/v1/README.md"@,
        name: "uom"@,
        description: "Units of measurement for Zarr arrays"@,
    }
}

/// The JSON of a unit: an object with the fields `unit` and `version`, each
/// only where it is present.
pub open spec fn written_ucum(u: UcumView) -> JsonView {
    JsonView::Object(optional_entry("unit"@, u.unit) + optional_entry("version"@, u.version))
}

/// The JSON of a unit of measurement: an object with the unit under `ucum`
/// and, where there is one, the description.
pub open spec fn written_uom(u: UnitOfMeasurementView) -> JsonView {
    JsonView::Object(
        seq![("ucum"@, written_ucum(u.ucum))] + optional_entry("description"@, u.description),
    )
}

/// The unit that a JSON value holds, `None` where it holds none: the value
/// must be an object whose fields `unit` and `version` each read as a text or
/// as nothing.
pub open spec fn read_ucum(v: JsonView) -> Option<UcumView> {
    match v {
        JsonView::Object(entries) => {
            let unit = text_field(entries, "unit"@);
            let version = text_field(entries, "version"@);
            if unit is Some && version is Some {
                Some(UcumView { unit: unit->Some_0, version: version->Some_0 })
            } else {
                None
            }
        },
        _ => None,
    }
}

/// The unit of measurement that a JSON value holds, `None` where it holds
/// none: the value must be an object with a unit under `ucum`, and its field
/// `description` must read as a text or as nothing.
pub open spec fn read_uom(v: JsonView) -> Option<UnitOfMeasurementView> {
    match v {
        JsonView::Object(entries) => match lookup(entries, "ucum"@) {
            Some(inner) => {
                let ucum = read_ucum(inner);
                let description = text_field(entries, "description"@);
                if ucum is Some && description is Some {
                    Some(UnitOfMeasurementView { ucum: ucum->Some_0, description: description->Some_0 })
                } else {
                    None
                }
            },
            None => None,
        },
        _ => None,
    }
}

/// A unit of measurement that was written as JSON is read back as it was.
pub proof fn law_uom_round_trip(u: UnitOfMeasurementView)
    ensures
        read_ucum(written_ucum(u.ucum)) == Some(u.ucum),
        read_uom(written_uom(u)) == Some(u),
{
    reveal_strlit("unit");
    reveal_strlit("version");
    reveal_strlit("ucum");
    reveal_strlit("description");
    assert("unit"@.len() == 4 && "version"@.len() == 7);
    assert("ucum"@.len() == 4 && "description"@.len() == 11);
    let none = Entries::empty();
    let unit = optional_entry("unit"@, u.ucum.unit);
    let version = optional_entry("version"@, u.ucum.version);
    lemma_optional_has_key("version"@, u.ucum.version, "unit"@);
    lemma_optional_has_key("unit"@, u.ucum.unit, "version"@);
    lemma_optional_field(none, "unit"@, u.ucum.unit, version);
    lemma_optional_field(unit, "version"@, u.ucum.version, none);
    assert(none + unit + version =~= unit + version);
    assert(unit + version + none =~= unit + version);

    let head = seq![("ucum"@, written_ucum(u.ucum))];
    let all = head + optional_entry("description"@, u.description);
    lemma_optional_field(head, "description"@, u.description, none);
    assert(all + none =~= all);
    assert(all[0] == ("ucum"@, written_ucum(u.ucum)));
    assert(all[0].0 == "ucum"@);
    assert(has_key(all, "ucum"@));
    let k = key_index(all, "ucum"@);
    assert(0 <= k < all.len() && all[k].0 == "ucum"@);
    if k != 0 {
        assert(all[k] == optional_entry("description"@, u.description)[k - 1]);
    }
}

impl ToJson for Ucum {
    fn to_json(&self) -> (r: Result<Json, Error>)
        ensures
            r matches Ok(v) && v@ == written_ucum(self@) && read_ucum(v@) == Some(self@),
    {
        proof {
            law_uom_round_trip(UnitOfMeasurementView { ucum: self@, description: None });
        }
        let mut record = Attributes::new();
        write_optional(&mut record, "unit", self.unit());
        proof {
            reveal_strlit("unit");
            reveal_strlit("version");
            assert("unit"@.len() == 4 && "version"@.len() == 7);
        }
        write_optional(&mut record, "version", self.version());
        assert(record@ =~= written_ucum(self@)->Object_0);
        Ok(Json::Object(record))
    }
}

impl FromJson for Ucum {
    fn from_json(value: &Json) -> (r: Result<Ucum, Error>)
        ensures
            match r {
                Ok(u) => read_ucum(value@) == Some(u@),
                Err(e) => read_ucum(value@) is None && e@ is Decode,
            },
    {
        let record = match value {
            Json::Object(record) => record,
            _ => {
                return Err(Error::Decode("a unit that is no object".to_owned()));
            },
        };
        let unit = match read_text_field(record, "unit") {
            Ok(Some(t)) => Some(t.to_owned()),
            Ok(None) => None,
            Err(e) => {
                return Err(e);
            },
        };
        let version = match read_text_field(record, "version") {
            Ok(Some(t)) => Some(t.to_owned()),
            Ok(None) => None,
            Err(e) => {
                return Err(e);
            },
        };
        Ok(Ucum { unit, version })
    }
}

impl ToJson for UnitOfMeasurement {
    fn to_json(&self) -> (r: Result<Json, Error>)
        ensures
            r matches Ok(v) && v@ == written_uom(self@) && read_uom(v@) == Some(self@),
    {
        proof {
            law_uom_round_trip(self@);
        }
        let ucum = match self.ucum.to_json() {
            Ok(v) => v,
            Err(e) => {
                return Err(e);
            },
        };
        let mut record = Attributes::new();
        record.insert("ucum".to_owned(), ucum);
        proof {
            reveal_strlit("ucum");
            reveal_strlit("description");
            assert("ucum"@.len() == 4 && "description"@.len() == 11);
        }
        write_optional(&mut record, "description", as_text(&self.description));
        assert(record@ =~= written_uom(self@)->Object_0);
        Ok(Json::Object(record))
    }
}

impl FromJson for UnitOfMeasurement {
    fn from_json(value: &Json) -> (r: Result<UnitOfMeasurement, Error>)
        ensures
            match r {
                Ok(u) => read_uom(value@) == Some(u@),
                Err(e) => read_uom(value@) is None && e@ is Decode,
            },
    {
        let record = match value {
            Json::Object(record) => record,
            _ => {
                return Err(Error::Decode("a unit of measurement that is no object".to_owned()));
            },
        };
        let ucum = match record.get("ucum") {
            Some(inner) => match Ucum::from_json(inner) {
                Ok(u) => u,
                Err(e) => {
                    return Err(e);
                },
            },
            None => {
                return Err(Error::Decode("a unit of measurement without a unit".to_owned()));
            },
        };
        let description = match read_text_field(record, "description") {
            Ok(Some(t)) => Some(t.to_owned()),
            Ok(None) => None,
            Err(e) => {
                return Err(e);
            },
        };
        Ok(UnitOfMeasurement { ucum, description })
    }
}

impl ZarrConventionImpl for UnitOfMeasurement {
    open spec fn definition_view() -> DefinitionView {
        uom_definition()
    }

    fn definition() -> (d: ConventionDefinition) {
        ConventionDefinition {
            uuid: 0x3bbe438d_df37_49fe_8e2b_739296d46dfb,
            schema_url: Uri::new(
                "https://raw.githubusercontent.com/clbarnes/zarr-convention-uom/refs/tags/v1/schema.json",
            ),
            spec_url: Uri::new("https://github.com/clbarnes/zarr-convention-uom/blob/v1/README.md"),
            name: "uom".to_owned(),
            description: "Units of measurement for Zarr arrays".to_owned(),
        }
    }
}

impl NestedRepr for UnitOfMeasurement {
    const KEY: &'static str = "uom";
}

/// A builder's view with nothing set.
pub open spec fn nothing_set() -> BuilderView {
    BuilderView { unit: None, version: None, description: None }
}

impl Default for Builder {
    fn default() -> (b: Builder)
        ensures
            b@ == nothing_set(),
    {
        Builder { unit: None, version: None, description: None }
    }
}

impl Default for Ucum {
    fn default() -> (u: Ucum)
        ensures
            u@ == (UcumView { unit: None, version: None }),
    {
        Ucum { unit: None, version: None }
    }
}

impl Default for UnitOfMeasurement {
    fn default() -> (u: UnitOfMeasurement)
        ensures
            u@ == (UnitOfMeasurementView {
                ucum: UcumView { unit: None, version: None },
                description: None,
            }),
    {
        UnitOfMeasurement { ucum: Ucum::default(), description: None }
    }
}

/// The unit of measurement that a builder's parts make: the unit and the
/// version go into the unit, the description stands beside it.
pub open spec fn made_of(b: BuilderView) -> UnitOfMeasurementView {
    UnitOfMeasurementView {
        ucum: UcumView { unit: b.unit, version: b.version },
        description: b.description,
    }
}

/// Turning a builder into a unit of measurement gives what `build` gives.
pub proof fn law_from_builder(builder: Builder)
    ensures
        <UnitOfMeasurement as vstd::std_specs::convert::FromSpec<Builder>>::from_spec(builder)@
            == made_of(builder@),
{
}

impl From<Builder> for UnitOfMeasurement {
    fn from(value: Builder) -> (u: UnitOfMeasurement) {
        UnitOfMeasurement {
            ucum: Ucum { unit: value.unit, version: value.version },
            description: value.description,
        }
    }
}

impl vstd::std_specs::convert::FromSpecImpl<Builder> for UnitOfMeasurement {
    open spec fn obeys_from_spec() -> bool {
        true
    }

    closed spec fn from_spec(value: Builder) -> UnitOfMeasurement {
        UnitOfMeasurement {
            ucum: Ucum { unit: value.unit, version: value.version },
            description: value.description,
        }
    }
}

impl Ucum {
    /// The case-sensitive unit, possibly with a magnitude. Without one, the
    /// unit is arbitrary and of magnitude 1.
    pub fn unit(&self) -> (r: Option<&str>)
        ensures
            match r {
                Some(s) => self@.unit == Some(s@),
                None => self@.unit is None,
            },
    {
        as_text(&self.unit)
    }

    /// The version of the code that the unit is written in.
    pub fn version(&self) -> (r: Option<&str>)
        ensures
            match r {
                Some(s) => self@.version == Some(s@),
                None => self@.version is None,
            },
    {
        as_text(&self.version)
    }
}

impl UnitOfMeasurement {
    /// A builder with nothing set.
    pub fn builder() -> (b: Builder)
        ensures
            b@ == nothing_set(),
    {
        Builder::default()
    }

    /// The description, empty where none was given.
    pub fn description(&self) -> (r: &str)
        ensures
            r@ == match self@.description {
                Some(d) => d,
                None => Seq::<char>::empty(),
            },
    {
        match &self.description {
            Some(d) => d.as_str(),
            None => {
                let empty = "";
                proof {
                    reveal_strlit("");
                    assert(empty@ =~= Seq::<char>::empty());
                }
                empty
            },
        }
    }

    /// The unit.
    pub fn ucum(&self) -> (r: &Ucum)
        ensures
            r@ == self@.ucum,
    {
        &self.ucum
    }
}

impl Builder {
    /// Sets the case-sensitive unit, which may have a magnitude.
    pub fn unit(self, unit: &str) -> (b: Builder)
        ensures
            b@ == (BuilderView { unit: Some(unit@), ..self@ }),
    {
        Builder { unit: Some(unit.to_owned()), version: self.version, description: self.description }
    }

    /// Sets the version of the code that the unit is written in.
    pub fn version(self, version: &str) -> (b: Builder)
        ensures
            b@ == (BuilderView { version: Some(version@), ..self@ }),
    {
        Builder { unit: self.unit, version: Some(version.to_owned()), description: self.description }
    }

    /// Describes in free text what is measured.
    pub fn description(self, description: &str) -> (b: Builder)
        ensures
            b@ == (BuilderView { description: Some(description@), ..self@ }),
    {
        Builder { unit: self.unit, version: self.version, description: Some(description.to_owned()) }
    }

    /// The unit of measurement with the parts that were set.
    pub fn build(self) -> (u: UnitOfMeasurement)
        ensures
            u@ == made_of(self@),
    {
        UnitOfMeasurement {
            ucum: Ucum { unit: self.unit, version: self.version },
            description: self.description,
        }
    }
}

} // verus!
