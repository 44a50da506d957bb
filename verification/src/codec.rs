//! How the record of a convention is written as JSON and read from it.

use crate::convention::{has_identifier, Convention, ConventionView};
use crate::error::{Error, ErrorView};
use crate::fields::{nothing_or, read_text_field, text_field, write_text, written_text};
use crate::json::{distinct_keys, lemma_entry_is_found, Attributes, Json, JsonView};
use crate::traits::{FromJson, ToJson};
use crate::uri::{is_uri, Uri};
use crate::uuids::{format_uuid, parse_uuid, uuid_of_text, uuid_text};
use vstd::prelude::*;

verus! {

/// The UUID that an optional text names.
pub open spec fn uuid_field(field: Option<Seq<char>>) -> Option<u128> {
    match field {
        Some(t) => uuid_of_text(t),
        None => None,
    }
}

/// The record that a JSON value holds, `None` where it holds none: the value
/// must be an object whose fields `uuid`, `schema_url`, `spec_url`, `name` and
/// `description` each read as a text or as nothing, the UUID's text must be
/// a UUID, and each URL's text an absolute URI. Other fields are passed over.
pub open spec fn read_record(v: JsonView) -> Option<ConventionView> {
    match v {
        JsonView::Object(entries) => {
            let uuid = text_field(entries, "uuid"@);
            let schema_url = text_field(entries, "schema_url"@);
            let spec_url = text_field(entries, "spec_url"@);
            let name = text_field(entries, "name"@);
            let description = text_field(entries, "description"@);
            if uuid is Some && schema_url is Some && spec_url is Some && name is Some
                && description is Some && nothing_or(
                uuid->Some_0,
                |t: Seq<char>| uuid_of_text(t) is Some,
            ) && nothing_or(schema_url->Some_0, |t: Seq<char>| is_uri(t)) && nothing_or(
                spec_url->Some_0,
                |t: Seq<char>| is_uri(t),
            ) {
                Some(
                    ConventionView {
                        uuid: uuid_field(uuid->Some_0),
                        schema_url: schema_url->Some_0,
                        spec_url: spec_url->Some_0,
                        name: name->Some_0,
                        description: description->Some_0,
                    },
                )
            } else {
                None
            }
        },
        _ => None,
    }
}

/// The JSON of an optional UUID: its hyphenated text, or `null`.
pub open spec fn written_uuid(field: Option<u128>) -> JsonView {
    match field {
        Some(u) => JsonView::String(uuid_text(u)),
        None => JsonView::Null,
    }
}

/// The JSON of a record: an object with the five fields in the order `uuid`,
/// `schema_url`, `spec_url`, `name`, `description`, each a string or `null`.
pub open spec fn written_record(c: ConventionView) -> JsonView {
    JsonView::Object(
        seq![
            ("uuid"@, written_uuid(c.uuid)),
            ("schema_url"@, written_text(c.schema_url)),
            ("spec_url"@, written_text(c.spec_url)),
            ("name"@, written_text(c.name)),
            ("description"@, written_text(c.description)),
        ],
    )
}

/// Whether each URL of the record is an absolute URI.
pub open spec fn urls_are_uris(c: ConventionView) -> bool {
    &&& c.schema_url matches Some(url) ==> is_uri(url)
    &&& c.spec_url matches Some(url) ==> is_uri(url)
}

/// Whether the text of the record's UUID reads as that UUID.
pub open spec fn uuid_reads_back(c: ConventionView) -> bool {
    c.uuid matches Some(u) ==> uuid_of_text(uuid_text(u)) == Some(u)
}

/// A record whose URLs are absolute URIs, and whose UUID reads back from its
/// text, is read back as it was from the JSON that was written for it.
pub proof fn law_record_round_trip(c: ConventionView)
    requires
        urls_are_uris(c),
        uuid_reads_back(c),
    ensures
        read_record(written_record(c)) == Some(c),
{
    reveal_strlit("uuid");
    reveal_strlit("schema_url");
    reveal_strlit("spec_url");
    reveal_strlit("name");
    reveal_strlit("description");
    assert("uuid"@.len() == 4 && "schema_url"@.len() == 10 && "spec_url"@.len() == 8);
    assert("name"@.len() == 4 && "description"@.len() == 11);
    assert("uuid"@[0] == 'u' && "name"@[0] == 'n');
    let entries = written_record(c)->Object_0;
    assert(distinct_keys(entries));
    lemma_entry_is_found(entries, 0);
    lemma_entry_is_found(entries, 1);
    lemma_entry_is_found(entries, 2);
    lemma_entry_is_found(entries, 3);
    lemma_entry_is_found(entries, 4);
}

impl FromJson for Convention {
    /// Reads a record. Fails with `Decode` where the value holds no record,
    /// and with `MissingIdentifier` where the record has none of UUID, schema
    /// URL and specification URL.
    fn from_json(value: &Json) -> (r: Result<Convention, Error>)
        ensures
            match r {
                Ok(c) => read_record(value@) == Some(c@) && has_identifier(c@),
                Err(e) => match read_record(value@) {
                    Some(c) => !has_identifier(c) && e@ == ErrorView::MissingIdentifier,
                    None => e@ is Decode,
                },
            },
    {
        let record = match value {
            Json::Object(record) => record,
            _ => {
                return Err(Error::Decode("a convention that is no object".to_owned()));
            },
        };
        let mut builder = Convention::builder();
        match read_text_field(record, "uuid") {
            Ok(Some(t)) => match parse_uuid(t) {
                Some(uuid) => {
                    builder = builder.uuid(uuid);
                },
                None => {
                    return Err(Error::Decode("a UUID that cannot be read".to_owned()));
                },
            },
            Ok(None) => {},
            Err(e) => {
                return Err(e);
            },
        }
        match read_text_field(record, "schema_url") {
            Ok(Some(t)) => match Uri::parse(t) {
                Some(url) => {
                    builder = builder.schema_url(url);
                },
                None => {
                    return Err(Error::Decode("a schema URL that is no absolute URI".to_owned()));
                },
            },
            Ok(None) => {},
            Err(e) => {
                return Err(e);
            },
        }
        match read_text_field(record, "spec_url") {
            Ok(Some(t)) => match Uri::parse(t) {
                Some(url) => {
                    builder = builder.spec_url(url);
                },
                None => {
                    return Err(Error::Decode("a specification URL that is no absolute URI".to_owned()));
                },
            },
            Ok(None) => {},
            Err(e) => {
                return Err(e);
            },
        }
        match read_text_field(record, "name") {
            Ok(Some(t)) => {
                builder = builder.name(t);
            },
            Ok(None) => {},
            Err(e) => {
                return Err(e);
            },
        }
        match read_text_field(record, "description") {
            Ok(Some(t)) => {
                builder = builder.description(t);
            },
            Ok(None) => {},
            Err(e) => {
                return Err(e);
            },
        }
        builder.build()
    }
}

impl ToJson for Convention {
    /// Writes the record as a JSON object, from which it is read back as it
    /// is where its URLs are absolute URIs.
    fn to_json(&self) -> (r: Result<Json, Error>)
        ensures
            r matches Ok(v) && v@ == written_record(self@) && (urls_are_uris(self@) ==> read_record(
                v@,
            ) == Some(self@)),
            uuid_reads_back(self@),
    {
        proof {
            reveal_strlit("uuid");
            reveal_strlit("schema_url");
            reveal_strlit("spec_url");
            reveal_strlit("name");
            reveal_strlit("description");
        }
        let uuid = match self.uuid() {
            Some(u) => Json::String(format_uuid(u)),
            None => Json::Null,
        };
        let schema_url = match self.schema_url() {
            Some(u) => Json::String(u.as_str().to_owned()),
            None => Json::Null,
        };
        let spec_url = match self.spec_url() {
            Some(u) => Json::String(u.as_str().to_owned()),
            None => Json::Null,
        };
        let name = write_text(self.name());
        let description = write_text(self.description());
        let ghost e0 = ("uuid"@, uuid@);
        let ghost e1 = ("schema_url"@, schema_url@);
        let ghost e2 = ("spec_url"@, spec_url@);
        let ghost e3 = ("name"@, name@);
        let ghost e4 = ("description"@, description@);
        proof {
            assert("uuid"@.len() == 4 && "schema_url"@.len() == 10 && "spec_url"@.len() == 8);
            assert("name"@.len() == 4 && "description"@.len() == 11);
            assert("uuid"@[0] == 'u' && "name"@[0] == 'n');
        }
        let mut record = Attributes::new();
        record.insert("uuid".to_owned(), uuid);
        assert(record@ =~= seq![e0]);
        record.insert("schema_url".to_owned(), schema_url);
        assert(record@ =~= seq![e0, e1]);
        record.insert("spec_url".to_owned(), spec_url);
        assert(record@ =~= seq![e0, e1, e2]);
        record.insert("name".to_owned(), name);
        assert(record@ =~= seq![e0, e1, e2, e3]);
        record.insert("description".to_owned(), description);
        assert(record@ =~= seq![e0, e1, e2, e3, e4]);
        let r = Json::Object(record);
        assert(r@->Object_0 =~= written_record(self@)->Object_0);
        proof {
            if urls_are_uris(self@) {
                law_record_round_trip(self@);
            }
        }
        Ok(r)
    }
}

} // verus!
