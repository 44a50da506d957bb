//! The ways in which the library's operations fail.

use crate::convention::{ConventionId, IdView};
use crate::uuids::{format_uuid, uuid_text};
use vstd::prelude::*;
use vstd::string::StringExecFns;

verus! {

/// A failure of one of the library's operations.
#[derive(Debug, PartialEq, Eq)]
pub enum Error {
    /// A record names a convention by none of UUID, schema URL and
    /// specification URL.
    MissingIdentifier,
    /// A catalogue already holds the identifier.
    DuplicateIdentifier(ConventionId),
    /// The attributes have no value under the key of a nested convention.
    KeyNotFound(String),
    /// A value that has to be written key by key is no object.
    NotAnObject,
    /// A value does not have the shape that reading it asks for; the text says
    /// what was found.
    Decode(String),
    /// A value cannot be written as JSON; the text says why.
    Encode(String),
}

/// What an [`Error`] holds.
pub enum ErrorView {
    MissingIdentifier,
    DuplicateIdentifier(IdView),
    KeyNotFound(Seq<char>),
    NotAnObject,
    Decode(Seq<char>),
    Encode(Seq<char>),
}

impl View for Error {
    type V = ErrorView;

    open spec fn view(&self) -> ErrorView {
        match self {
            Error::MissingIdentifier => ErrorView::MissingIdentifier,
            Error::DuplicateIdentifier(id) => ErrorView::DuplicateIdentifier(id@),
            Error::KeyNotFound(key) => ErrorView::KeyNotFound(key@),
            Error::NotAnObject => ErrorView::NotAnObject,
            Error::Decode(found) => ErrorView::Decode(found@),
            Error::Encode(why) => ErrorView::Encode(why@),
        }
    }
}

impl Clone for Error {
    fn clone(&self) -> (r: Error)
        ensures
            r@ == self@,
    {
        match self {
            Error::MissingIdentifier => Error::MissingIdentifier,
            Error::DuplicateIdentifier(id) => Error::DuplicateIdentifier(id.clone()),
            Error::KeyNotFound(key) => Error::KeyNotFound(key.clone()),
            Error::NotAnObject => Error::NotAnObject,
            Error::Decode(found) => Error::Decode(found.clone()),
            Error::Encode(why) => Error::Encode(why.clone()),
        }
    }
}

/// The text that tells a failure to a reader.
pub open spec fn message_of(e: ErrorView) -> Seq<char> {
    match e {
        ErrorView::MissingIdentifier => "At least one of uuid, schema_url, or spec_url must be set"@,
        ErrorView::DuplicateIdentifier(IdView::Uuid(u)) => "Convention with UUID "@ + uuid_text(u)
            + " is already registered"@,
        ErrorView::DuplicateIdentifier(IdView::SchemaUrl(url)) => "Convention with schema URL "@ + url
            + " is already registered"@,
        ErrorView::DuplicateIdentifier(IdView::SpecUrl(url)) => "Convention with spec URL "@ + url
            + " is already registered"@,
        ErrorView::KeyNotFound(key) => "Zarr convention key not found: '"@ + key + "'"@,
        ErrorView::NotAnObject => "Prefixed representation must serialize to a JSON object"@,
        ErrorView::Decode(found) => found,
        ErrorView::Encode(why) => why,
    }
}

impl Error {
    /// The text that tells the failure to a reader.
    pub fn message(&self) -> (m: String)
        ensures
            m@ == message_of(self@),
    {
        match self {
            Error::MissingIdentifier => "At least one of uuid, schema_url, or spec_url must be set".to_owned(),
            Error::DuplicateIdentifier(ConventionId::Uuid(u)) => {
                let id = format_uuid(*u);
                "Convention with UUID ".to_owned().concat(id.as_str()).concat(" is already registered")
            },
            Error::DuplicateIdentifier(ConventionId::SchemaUrl(url)) => {
                "Convention with schema URL ".to_owned().concat(url.as_str()).concat(
                    " is already registered",
                )
            },
            Error::DuplicateIdentifier(ConventionId::SpecUrl(url)) => {
                "Convention with spec URL ".to_owned().concat(url.as_str()).concat(
                    " is already registered",
                )
            },
            Error::KeyNotFound(key) => {
                "Zarr convention key not found: '".to_owned().concat(key.as_str()).concat("'")
            },
            Error::NotAnObject => "Prefixed representation must serialize to a JSON object".to_owned(),
            Error::Decode(found) => found.clone(),
            Error::Encode(why) => why.clone(),
        }
    }
}

} // verus!
