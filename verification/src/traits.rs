//! What a type does to carry the data of a convention: it names the
//! convention's definition, it can be written as JSON and read from it, and
//! it says under which key or prefix its data lies.

use crate::convention::{full_record, Convention, ConventionDefinition, DefinitionView};
use crate::error::{Error, ErrorView};
use crate::in_use::{convention_in_use, ZarrConventions};
use crate::json::{lookup, put, Attributes, Entries, Json, JsonView, Number};
use crate::repr::{
    combined, combined_value, nested, nested_value, prefixed_value, spread, store_nested,
    store_prefixed,
};
use vstd::prelude::*;

verus! {

/// A type that can be written as JSON.
pub trait ToJson {
    /// The JSON of the value, or why it has none.
    fn to_json(&self) -> Result<Json, Error>;
}

/// A type that can be read from JSON.
pub trait FromJson: Sized {
    /// The value that the JSON holds, or why it holds none.
    fn from_json(value: &Json) -> Result<Self, Error>;
}

impl ToJson for Json {
    fn to_json(&self) -> (r: Result<Json, Error>)
        ensures
            r matches Ok(v) && v@ == self@,
    {
        Ok(self.clone())
    }
}

impl FromJson for Json {
    fn from_json(value: &Json) -> (r: Result<Json, Error>)
        ensures
            r matches Ok(v) && v@ == value@,
    {
        Ok(value.clone())
    }
}

impl ToJson for &str {
    fn to_json(&self) -> (r: Result<Json, Error>)
        ensures
            r matches Ok(v) && v@ == JsonView::String(self@),
    {
        Ok(Json::String((*self).to_owned()))
    }
}

impl ToJson for String {
    fn to_json(&self) -> (r: Result<Json, Error>)
        ensures
            r matches Ok(v) && v@ == JsonView::String(self@),
    {
        Ok(Json::String(self.clone()))
    }
}

impl FromJson for String {
    fn from_json(value: &Json) -> (r: Result<String, Error>)
        ensures
            match r {
                Ok(s) => value@ == JsonView::String(s@),
                Err(e) => !(value@ is String) && e@ is Decode,
            },
    {
        match value {
            Json::String(s) => Ok(s.clone()),
            _ => Err(Error::Decode("a value that is no text".to_owned())),
        }
    }
}

impl ToJson for bool {
    fn to_json(&self) -> (r: Result<Json, Error>)
        ensures
            r matches Ok(v) && v@ == JsonView::Bool(*self),
    {
        Ok(Json::Bool(*self))
    }
}

impl FromJson for bool {
    fn from_json(value: &Json) -> (r: Result<bool, Error>)
        ensures
            match r {
                Ok(b) => value@ == JsonView::Bool(b),
                Err(e) => !(value@ is Bool) && e@ is Decode,
            },
    {
        match value {
            Json::Bool(b) => Ok(*b),
            _ => Err(Error::Decode("a value that is neither true nor false".to_owned())),
        }
    }
}

impl ToJson for u64 {
    fn to_json(&self) -> (r: Result<Json, Error>)
        ensures
            r matches Ok(v) && v@ == JsonView::Number(Number::PosInt(*self)),
    {
        Ok(Json::Number(Number::PosInt(*self)))
    }
}

impl FromJson for u64 {
    fn from_json(value: &Json) -> (r: Result<u64, Error>)
        ensures
            match r {
                Ok(n) => value@ == JsonView::Number(Number::PosInt(n)),
                Err(e) => !(value@ matches JsonView::Number(Number::PosInt(_))) && e@ is Decode,
            },
    {
        match value {
            Json::Number(Number::PosInt(n)) => Ok(*n),
            _ => Err(Error::Decode("a value that is no unsigned integer".to_owned())),
        }
    }
}

impl ToJson for u8 {
    fn to_json(&self) -> (r: Result<Json, Error>)
        ensures
            r matches Ok(v) && v@ == JsonView::Number(Number::PosInt(*self as u64)),
    {
        Ok(Json::Number(Number::PosInt(*self as u64)))
    }
}

impl FromJson for u8 {
    fn from_json(value: &Json) -> (r: Result<u8, Error>)
        ensures
            match r {
                Ok(n) => value@ == JsonView::Number(Number::PosInt(n as u64)),
                Err(e) => !(value@ matches JsonView::Number(Number::PosInt(n)) && n <= 255) && e@
                    is Decode,
            },
    {
        match value {
            Json::Number(Number::PosInt(n)) if *n <= 255 => Ok(*n as u8),
            _ => Err(Error::Decode("a value that is no integer from 0 to 255".to_owned())),
        }
    }
}

/// A type that holds the data of one convention. It should also implement
/// at least one of [`NestedRepr`] and [`PrefixedRepr`].
pub trait ZarrConventionImpl {
    /// What the definition of the convention holds. A type says it here
    /// where its `definition` is to be verified; of any other type it is
    /// taken that `definition` gives one and the same definition at every
    /// call.
    open spec fn definition_view() -> DefinitionView {
        arbitrary()
    }

    /// The definition of the convention, the same at every call.
    fn definition() -> (d: ConventionDefinition)
        ensures
            d@ == Self::definition_view(),
    ;

    /// Whether the convention is among those in use: whether any of the
    /// three identifiers of its definition is.
    fn in_use(identifiers: &ZarrConventions) -> (r: bool)
        ensures
            r == convention_in_use(identifiers@, Self::definition_view()),
    {
        let d = Self::definition();
        identifiers.uses(&d)
    }

    /// The record that holds all of the definition.
    fn to_convention() -> (c: Convention)
        ensures
            c@ == full_record(Self::definition_view()),
    {
        Convention::from_definition(Self::definition())
    }
}

/// A convention whose data can lie field by field under keys that share a
/// prefix. Its JSON must be an object.
pub trait PrefixedRepr: ZarrConventionImpl + FromJson + ToJson {
    /// The prefix, with its delimiter: `"proj:"`.
    const PREFIX: &'static str;

    /// Reads the data from the entries whose key starts with the prefix:
    /// what `from_json` makes of the object that they form.
    fn from_attributes_prefixed(attributes: &Attributes) -> (r: Result<Self, Error>)
        ensures
            exists|value: Json|
                value@ == JsonView::Object(nested(Self::PREFIX@, attributes@, Entries::empty()))
                    && call_ensures(Self::from_json, (&value,), r),
    {
        let value = prefixed_value(Self::PREFIX, attributes);
        Self::from_json(&value)
    }

    /// Writes the data field by field under the prefix. Fails with what
    /// `to_json` fails with, and with `NotAnObject` where the JSON is no
    /// object; `output` is then as it was.
    fn to_attributes_prefixed(&self, output: &mut Attributes) -> (r: Result<(), Error>)
        ensures
            match r {
                Ok(_) => exists|value: Json|
                    call_ensures(Self::to_json, (self,), Ok::<Json, Error>(value)) && value@ is Object
                        && final(output)@ == spread(Self::PREFIX@, value@->Object_0, old(output)@),
                Err(e) => final(output)@ == old(output)@ && (call_ensures(
                    Self::to_json,
                    (self,),
                    Err::<Json, Error>(e),
                ) || (e@ == ErrorView::NotAnObject && exists|value: Json|
                    call_ensures(Self::to_json, (self,), Ok::<Json, Error>(value)) && !(value@ is Object))),
            },
    {
        match self.to_json() {
            Ok(value) => store_prefixed(Self::PREFIX, value, output),
            Err(e) => Err(e),
        }
    }
}

/// A convention whose data can lie under one key.
pub trait NestedRepr: ZarrConventionImpl + FromJson + ToJson {
    /// The key.
    const KEY: &'static str;

    /// Reads the data from under the key: what `from_json` makes of the value
    /// there. Fails with `KeyNotFound` where there is none.
    fn from_attributes_nested(attributes: &Attributes) -> (r: Result<Self, Error>)
        ensures
            match lookup(attributes@, Self::KEY@) {
                Some(v) => exists|value: Json|
                    value@ == v && call_ensures(Self::from_json, (&value,), r),
                None => r matches Err(e) && e@ == ErrorView::KeyNotFound(Self::KEY@),
            },
    {
        match nested_value(Self::KEY, attributes) {
            Ok(value) => Self::from_json(&value),
            Err(e) => Err(e),
        }
    }

    /// Writes the data under the key, in place of what was there. Fails with
    /// what `to_json` fails with; `output` is then as it was.
    fn to_attributes_nested(&self, output: &mut Attributes) -> (r: Result<(), Error>)
        ensures
            match r {
                Ok(_) => exists|value: Json|
                    call_ensures(Self::to_json, (self,), Ok::<Json, Error>(value)) && final(output)@
                        == put(old(output)@, Self::KEY@, value@),
                Err(e) => final(output)@ == old(output)@ && call_ensures(
                    Self::to_json,
                    (self,),
                    Err::<Json, Error>(e),
                ),
            },
    {
        match self.to_json() {
            Ok(value) => {
                store_nested(Self::KEY, value, output);
                Ok(())
            },
            Err(e) => Err(e),
        }
    }
}

/// A convention whose data can lie under a key, under a prefix, or partly
/// under both.
pub trait FromNestedOrPrefixed: NestedRepr + PrefixedRepr {
    /// Reads the data from the combined form: what `from_json` makes of the
    /// nested object completed by the prefixed fields that it lacks, of any
    /// other nested value alone, or of the prefixed fields where nothing is
    /// nested.
    fn from_attributes(attributes: &Attributes) -> (r: Result<Self, Error>)
        ensures
            exists|value: Json|
                value@ == combined(Self::KEY@, Self::PREFIX@, attributes@) && call_ensures(
                    Self::from_json,
                    (&value,),
                    r,
                ),
    {
        let value = combined_value(Self::KEY, Self::PREFIX, attributes);
        Self::from_json(&value)
    }
}

impl<T: NestedRepr + PrefixedRepr> FromNestedOrPrefixed for T {

}

} // verus!
