//! Conventions for the metadata in the attributes of a Zarr node.
//!
//! A convention is a self-describing schema for part of a node's attributes.
//! This library says how a convention is named ([`convention`]), keeps a
//! catalogue of known conventions ([`registry`]), lays the data of a
//! convention out in the attributes, nested under one key or field by field
//! under a prefix ([`repr`], [`traits`]), and builds and reads whole
//! attribute maps ([`attributes`]). Two conventions come with it: licences
//! ([`license`]) and units of measurement ([`uom`]).
//!
//! The attributes are JSON ([`json`]). UUIDs are read and written by the
//! `uuid` crate ([`uuids`]); URLs are validated and compared by `iref`
//! ([`uri`]).

pub mod attributes;
pub mod codec;
pub mod convention;
pub mod error;
pub mod escapes;
pub mod fields;
pub mod in_use;
pub mod json;
pub mod license;
pub mod registry;
pub mod repr;
pub mod seqs;
pub mod text;
pub mod traits;
pub mod uom;
pub mod uri;
pub mod uuids;

pub use attributes::{AttributesBuilder, AttributesParser};
pub use convention::{Convention, ConventionBuilder, ConventionDefinition, ConventionId};
pub use error::Error;
pub use in_use::ZarrConventions;
pub use json::{Attributes, Json, Number};
pub use license::{License, LicenseItem, LicenseItemBuilder};
pub use registry::ConventionRegistry;
pub use repr::nest_prefixed;
pub use traits::{
    FromJson, FromNestedOrPrefixed, NestedRepr, PrefixedRepr, ToJson, ZarrConventionImpl,
};
pub use uom::{Builder, Ucum, UnitOfMeasurement};
pub use uri::Uri;
