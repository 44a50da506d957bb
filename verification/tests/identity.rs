use std::cmp::Ordering;
use zarrs_conventions::escapes::decodes_as_utf8;
use zarrs_conventions::uuids::{format_uuid, parse_uuid};
use zarrs_conventions::{
    Attributes, Convention, ConventionDefinition, ConventionId, Error, FromJson, Json, ToJson, Uri,
    ZarrConventions,
};

fn text(s: &str) -> Json {
    Json::String(s.to_string())
}

fn object(entries: Vec<(&str, Json)>) -> Json {
    let mut attributes = Attributes::new();
    for (key, value) in entries {
        attributes.insert(key.to_string(), value);
    }
    Json::Object(attributes)
}

fn schema() -> Uri {
    Uri::parse("https://example.com/schema.json").unwrap()
}

fn spec() -> Uri {
    Uri::parse("https://example.com/spec").unwrap()
}

const ID: u128 = 0x2dc8d146_3932_4e08_8542_06aa0e826508;

#[test]
fn uuid_text_is_hyphenated_lower_case() {
    assert_eq!(format_uuid(ID), "2dc8d146-3932-4e08-8542-06aa0e826508");
    assert_eq!(format_uuid(0), "00000000-0000-0000-0000-000000000000");
    assert_eq!(format_uuid(u128::MAX), "ffffffff-ffff-ffff-ffff-ffffffffffff");
    assert_eq!(
        format_uuid(0x0123456789abcdef_fedcba9876543210),
        "01234567-89ab-cdef-fedc-ba9876543210"
    );
}

#[test]
fn uuid_is_read_from_its_forms() {
    assert_eq!(parse_uuid("2dc8d146-3932-4e08-8542-06aa0e826508"), Some(ID));
    assert_eq!(parse_uuid("2DC8D146-3932-4E08-8542-06AA0E826508"), Some(ID));
    assert_eq!(parse_uuid("2dc8d14639324e08854206aa0e826508"), Some(ID));
    assert_eq!(parse_uuid("urn:uuid:2dc8d146-3932-4e08-8542-06aa0e826508"), Some(ID));
    assert_eq!(parse_uuid(&format_uuid(ID)), Some(ID));
    assert_eq!(parse_uuid("2dc8d146"), None);
    assert_eq!(parse_uuid(""), None);
}

#[test]
fn uri_must_be_absolute() {
    assert!(Uri::parse("https://example.com/a?b#c").is_some());
    assert!(Uri::parse("urn:isbn:0451450523").is_some());
    assert!(Uri::parse("/relative/path").is_none());
    assert!(Uri::parse("not a uri").is_none());
    assert!(Uri::parse("").is_none());
    assert_eq!(Uri::parse("https://example.com").unwrap().as_str(), "https://example.com");
    assert!(!Uri::new("not a uri").is_valid());
    assert!(Uri::new("https://example.com").is_valid());
}

#[test]
fn uris_are_compared_as_uris() {
    let plain = Uri::parse("https://example.com/a/b").unwrap();
    assert!(plain.same_as(&Uri::parse("HTTPS://example.com/a/b").unwrap()));
    assert!(plain.same_as(&Uri::parse("https://example.com/a/./b").unwrap()));
    assert!(plain.same_as(&Uri::parse("https://example.com/a/c/../b").unwrap()));
    assert!(!plain.same_as(&Uri::parse("https://example.com/a/B").unwrap()));
    assert_eq!(plain, Uri::parse("HTTPS://example.com/a/b").unwrap());
    assert_eq!(plain.compare(&plain), Ordering::Equal);
    let other = Uri::parse("https://example.com/a/c").unwrap();
    assert_eq!(plain.compare(&other), Ordering::Less);
    assert_eq!(other.compare(&plain), Ordering::Greater);
}

#[test]
fn texts_that_are_no_uris_are_compared_as_texts() {
    let a = Uri::new("a b");
    assert_eq!(a.compare(&Uri::new("a b")), Ordering::Equal);
    assert_eq!(a.compare(&Uri::new("a c")), Ordering::Less);
    assert_eq!(a.compare(&Uri::new("a")), Ordering::Greater);
    assert_eq!(Uri::new("HTTPS://x y").compare(&Uri::new("https://x y")), Ordering::Less);
    assert!(!a.same_as(&Uri::new("https://example.com")));
}

#[test]
fn builder_without_identifier_fails() {
    assert_eq!(Convention::builder().build(), Err(Error::MissingIdentifier));
    assert_eq!(
        Convention::builder().name("n").description("d").build(),
        Err(Error::MissingIdentifier)
    );
    assert_eq!(
        Error::MissingIdentifier.message(),
        "At least one of uuid, schema_url, or spec_url must be set"
    );
}

#[test]
fn builder_with_one_identifier_succeeds() {
    let by_uuid = Convention::builder().uuid(ID).build().unwrap();
    assert_eq!(by_uuid.id(), ConventionId::Uuid(ID));
    assert_eq!((by_uuid.name(), by_uuid.description()), (None, None));
    let by_schema = Convention::builder().schema_url(schema()).build().unwrap();
    assert_eq!(by_schema.id(), ConventionId::SchemaUrl(schema()));
    let by_spec = Convention::builder().spec_url(spec()).build().unwrap();
    assert_eq!(by_spec.id(), ConventionId::SpecUrl(spec()));
}

#[test]
fn id_prefers_uuid_then_schema_url() {
    let all =
        Convention::builder().spec_url(spec()).schema_url(schema()).uuid(ID).build().unwrap();
    assert_eq!(all.id(), ConventionId::Uuid(ID));
    let urls = Convention::builder().spec_url(spec()).schema_url(schema()).build().unwrap();
    assert_eq!(urls.id(), ConventionId::SchemaUrl(schema()));
}

#[test]
fn identifiers_of_a_definition() {
    let d = ConventionDefinition::new(
        "2dc8d146-3932-4e08-8542-06aa0e826508",
        "https://example.com/schema.json",
        "https://example.com/spec",
        "proj:",
        "Coordinate reference system information.",
    )
    .unwrap();
    assert_eq!(d.id_uuid(), ConventionId::Uuid(ID));
    assert_eq!(d.id_schema(), ConventionId::SchemaUrl(schema()));
    assert_eq!(d.id_spec(), ConventionId::SpecUrl(spec()));
    assert!(!d.id_schema().same_as(&d.id_spec()));
    assert!(!d.id_schema().same_as(&ConventionId::SpecUrl(schema())));
    assert!(d.id_uuid().same_as(&ConventionId::Uuid(ID)));
    let record = Convention::from_definition(d.clone());
    assert_eq!(record.uuid(), Some(ID));
    assert_eq!(record.schema_url(), Some(&schema()));
    assert_eq!(record.spec_url(), Some(&spec()));
    assert_eq!(record.name(), Some("proj:"));
    assert_eq!(record.description(), Some("Coordinate reference system information."));
}

#[test]
fn definition_from_bad_texts() {
    let ok = "https://example.com/x";
    assert!(ConventionDefinition::new("nope", ok, ok, "", "").is_none());
    assert!(ConventionDefinition::new("2dc8d146-3932-4e08-8542-06aa0e826508", "x y", ok, "", "").is_none());
    assert!(ConventionDefinition::new("2dc8d146-3932-4e08-8542-06aa0e826508", ok, "/x", "", "").is_none());
}

#[test]
fn definitions_are_ordered_field_by_field() {
    let make = |uuid: u128, schema_url: &str, spec_url: &str, name: &str, description: &str| {
        ConventionDefinition {
            uuid,
            schema_url: Uri::new(schema_url),
            spec_url: Uri::new(spec_url),
            name: name.to_string(),
            description: description.to_string(),
        }
    };
    let base = make(5, "https://e.org/b", "https://e.org/b", "name", "text");
    assert_eq!(base.compare(&base), Ordering::Equal);
    assert!(base.same_as(&make(5, "HTTPS://e.org/b", "https://e.org/./b", "name", "text")));
    assert_eq!(base.compare(&make(6, "https://e.org/a", "", "", "")), Ordering::Less);
    assert_eq!(base.compare(&make(4, "https://e.org/c", "", "", "")), Ordering::Greater);
    assert_eq!(base.compare(&make(5, "https://e.org/c", "", "", "")), Ordering::Less);
    assert_eq!(
        base.compare(&make(5, "https://e.org/b", "https://e.org/a", "z", "z")),
        Ordering::Greater
    );
    assert_eq!(
        base.compare(&make(5, "https://e.org/b", "https://e.org/b", "namf", "")),
        Ordering::Less
    );
    assert_eq!(
        base.compare(&make(5, "https://e.org/b", "https://e.org/b", "nam", "z")),
        Ordering::Greater
    );
    assert_eq!(
        base.compare(&make(5, "https://e.org/b", "https://e.org/b", "name", "texts")),
        Ordering::Less
    );
    assert!(base.precedes(&make(5, "https://e.org/b", "https://e.org/b", "name", "tey")));
    assert!(!base.precedes(&base));
}

#[test]
fn record_is_written_with_nulls() {
    let record = Convention::builder().uuid(ID).name("proj:").build().unwrap();
    assert_eq!(
        record.to_json().unwrap(),
        object(vec![
            ("uuid", text("2dc8d146-3932-4e08-8542-06aa0e826508")),
            ("schema_url", Json::Null),
            ("spec_url", Json::Null),
            ("name", text("proj:")),
            ("description", Json::Null),
        ])
    );
    assert_eq!(Convention::from_json(&record.to_json().unwrap()), Ok(record));
}

#[test]
fn record_is_read_from_json() {
    let value = object(vec![
        ("name", text("proj:")),
        ("spec_url", text("https://example.com/spec")),
        ("unknown", Json::Bool(true)),
        ("uuid", Json::Null),
    ]);
    let record = Convention::from_json(&value).unwrap();
    assert_eq!(record.uuid(), None);
    assert_eq!(record.schema_url(), None);
    assert_eq!(record.spec_url(), Some(&spec()));
    assert_eq!(record.name(), Some("proj:"));
    assert_eq!(record.id(), ConventionId::SpecUrl(spec()));
}

#[test]
fn record_without_identifier_is_not_read() {
    assert_eq!(Convention::from_json(&object(vec![])), Err(Error::MissingIdentifier));
    assert_eq!(
        Convention::from_json(&object(vec![("name", text("proj:")), ("uuid", Json::Null)])),
        Err(Error::MissingIdentifier)
    );
}

#[test]
fn malformed_records_are_not_read() {
    let bad = |value: Json| matches!(Convention::from_json(&value), Err(Error::Decode(_)));
    assert!(bad(Json::Null));
    assert!(bad(Json::Array(vec![text("2dc8d146-3932-4e08-8542-06aa0e826508")])));
    assert!(bad(object(vec![("uuid", text("2dc8d146"))])));
    assert!(bad(object(vec![("uuid", Json::Bool(true))])));
    assert!(bad(object(vec![("schema_url", text("no uri"))])));
    assert!(bad(object(vec![("spec_url", text("/relative"))])));
    assert!(bad(object(vec![("uuid", text("2dc8d146-3932-4e08-8542-06aa0e826508")), ("name", Json::Bool(true))])));
    assert!(bad(object(vec![("description", Json::Array(vec![]))])));
}

#[test]
fn in_use_set_collects_each_identifier_once() {
    let records = vec![
        Convention::builder().uuid(ID).schema_url(schema()).build().unwrap(),
        Convention::builder()
            .uuid(ID)
            .schema_url(Uri::parse("HTTPS://example.com/schema.json").unwrap())
            .spec_url(spec())
            .build()
            .unwrap(),
    ];
    let set = ZarrConventions::from_conventions(&records);
    assert!(set.contains(&ConventionId::Uuid(ID)));
    assert!(set.contains(&ConventionId::SchemaUrl(schema())));
    assert!(set.contains(&ConventionId::SpecUrl(spec())));
    assert!(!set.contains(&ConventionId::SchemaUrl(spec())));
    assert!(!set.contains(&ConventionId::Uuid(ID + 1)));
    assert!(!ZarrConventions::new().contains(&ConventionId::Uuid(ID)));
}

#[test]
fn in_use_set_from_attributes() {
    let mut attributes = Attributes::new();
    assert!(!ZarrConventions::from_attributes(&attributes).unwrap().contains(&ConventionId::Uuid(ID)));
    attributes.insert(
        "zarr_conventions".to_string(),
        Json::Array(vec![object(vec![("schema_url", text("https://example.com/schema.json"))])]),
    );
    let set = ZarrConventions::from_attributes(&attributes).unwrap();
    assert!(set.contains(&ConventionId::SchemaUrl(schema())));
    assert!(!set.contains(&ConventionId::Uuid(ID)));
    attributes.insert("zarr_conventions".to_string(), Json::Null);
    assert!(matches!(ZarrConventions::from_attributes(&attributes), Err(Error::Decode(_))));
}

#[test]
fn in_use_set_is_read_from_a_json_list() {
    let list = Json::Array(vec![
        object(vec![("uuid", text("2dc8d146-3932-4e08-8542-06aa0e826508"))]),
        object(vec![("spec_url", text("https://example.com/spec"))]),
    ]);
    let set = ZarrConventions::from_json(&list).unwrap();
    assert!(set.contains(&ConventionId::Uuid(ID)));
    assert!(set.contains(&ConventionId::SpecUrl(spec())));
    assert!(!set.contains(&ConventionId::SchemaUrl(schema())));
    assert!(matches!(ZarrConventions::from_json(&object(vec![])), Err(Error::Decode(_))));
    let second_bad = Json::Array(vec![
        object(vec![("uuid", text("2dc8d146-3932-4e08-8542-06aa0e826508"))]),
        object(vec![("name", text("nameless"))]),
    ]);
    assert_eq!(ZarrConventions::from_json(&second_bad).unwrap_err(), Error::MissingIdentifier);
    assert!(ZarrConventions::from_json_list(&Vec::new()).is_ok());
}

#[test]
fn escapes_that_write_utf8_are_compared_as_uris() {
    let upper = Uri::parse("https://example.com/caf%C3%A9?q=%E2%82%AC#%F0%9F%98%80").unwrap();
    let lower = Uri::parse("https://example.com/caf%c3%a9?q=%e2%82%ac#%f0%9f%98%80").unwrap();
    assert!(upper.is_comparable() && lower.is_comparable());
    assert!(upper.same_as(&lower));
    assert_eq!(upper.compare(&upper), Ordering::Equal);
    let plain = Uri::parse("https://example.com/%7Euser").unwrap();
    assert!(plain.same_as(&Uri::parse("https://example.com/~user").unwrap()));
}

#[test]
fn escapes_that_write_no_utf8_are_compared_as_texts() {
    for text in [
        "a:%FF",
        "http://h/%FF",
        "http://h/%C3",
        "http://h/%C3/%A9",
        "http://h/x?%80",
        "http://h/x#%ED%A0%80",
        "http://%FFhost/x",
        "http://%FE@host/x",
        "http://h/%C0%80",
    ] {
        let url = Uri::parse(text).expect(text);
        assert!(url.is_valid(), "{text}");
        assert!(!url.is_comparable(), "{text}");
        assert_eq!(url.compare(&url), Ordering::Equal, "{text}");
        assert!(url.same_as(&Uri::new(text)), "{text}");
        assert!(!url.same_as(&Uri::new("http://h/")), "{text}");
        assert!(!Uri::new("http://h/").same_as(&url), "{text}");
    }
    let upper = Uri::new("http://h/%FF");
    let lower = Uri::new("http://h/%ff");
    assert!(!upper.same_as(&lower));
    assert_eq!(upper.compare(&lower), Ordering::Less);
    assert_eq!(lower.compare(&upper), Ordering::Greater);
    assert!(!Uri::new("100%").is_comparable());
    assert!(!Uri::new("%zz").is_comparable());
}

#[test]
fn decoding_of_escapes() {
    assert!(decodes_as_utf8(""));
    assert!(decodes_as_utf8("plain text"));
    assert!(decodes_as_utf8("caf\u{e9}"));
    assert!(decodes_as_utf8("%41%62%7e"));
    assert!(decodes_as_utf8("%C3%A9 and %e2%82%ac and %F0%9F%98%80"));
    assert!(decodes_as_utf8("%25"));
    assert!(!decodes_as_utf8("%"));
    assert!(!decodes_as_utf8("%4"));
    assert!(!decodes_as_utf8("%4g"));
    assert!(!decodes_as_utf8("%g4"));
    assert!(!decodes_as_utf8("abc%"));
    assert!(!decodes_as_utf8("%FF"));
    assert!(!decodes_as_utf8("%80"));
    assert!(!decodes_as_utf8("%C3"));
    assert!(!decodes_as_utf8("%C3x"));
    assert!(!decodes_as_utf8("%C3\u{e9}"));
    assert!(!decodes_as_utf8("%C0%80"));
    assert!(!decodes_as_utf8("%ED%A0%80"));
    assert!(!decodes_as_utf8("%F4%90%80%80"));
    assert!(!decodes_as_utf8("%F8%88%80%80%80"));
}

#[test]
fn urls_with_any_escaped_bytes_are_compared() {
    let other = Uri::new("http://h/%C3%A9");
    for first in 0..=255u32 {
        for second in 0..=255u32 {
            let text = format!("http://h/a%{first:02X}%{second:02x}b");
            let url = Uri::new(&text);
            let escaped = [first as u8, second as u8];
            assert_eq!(url.is_comparable(), std::str::from_utf8(&escaped).is_ok(), "{text}");
            assert_eq!(url.compare(&url), Ordering::Equal, "{text}");
            assert!(!url.same_as(&other), "{text}");
        }
    }
}

#[test]
fn escaped_bytes_are_compared_in_every_part() {
    let sequences: [&[u8]; 14] = [
        &[0x7F],
        &[0x80],
        &[0xC2, 0x80],
        &[0xE0, 0x9F, 0xBF],
        &[0xE0, 0xA0, 0x80],
        &[0xED, 0x9F, 0xBF],
        &[0xED, 0xA0, 0x80],
        &[0xEF, 0xBF, 0xBF],
        &[0xF0, 0x8F, 0xBF, 0xBF],
        &[0xF0, 0x90, 0x80, 0x80],
        &[0xF4, 0x8F, 0xBF, 0xBF],
        &[0xF4, 0x90, 0x80, 0x80],
        &[0xF5, 0x80, 0x80, 0x80],
        &[0xE2, 0x82],
    ];
    for bytes in sequences {
        let escapes: String = bytes.iter().map(|b| format!("%{b:02X}")).collect();
        let lower = escapes.to_lowercase();
        let decodes = std::str::from_utf8(bytes).is_ok();
        for (upper_text, lower_text) in [
            (format!("http://h/{escapes}/x"), format!("http://h/{lower}/x")),
            (format!("http://h/x?{escapes}"), format!("http://h/x?{lower}")),
            (format!("http://h/x#{escapes}"), format!("http://h/x#{lower}")),
            (format!("http://{escapes}/x"), format!("http://{lower}/x")),
            (format!("http://{escapes}@h/x"), format!("http://{lower}@h/x")),
        ] {
            let upper = Uri::parse(&upper_text).expect(&upper_text);
            let lower = Uri::parse(&lower_text).expect(&lower_text);
            assert_eq!(upper.is_comparable(), decodes, "{upper_text}");
            assert_eq!(upper.compare(&upper), Ordering::Equal, "{upper_text}");
            let same = decodes || upper_text == lower_text;
            assert_eq!(upper.same_as(&lower), same, "{upper_text}");
            assert_eq!(lower.same_as(&upper), same, "{upper_text}");
        }
    }
}
