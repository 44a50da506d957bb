use zarrs_conventions::{
    Attributes, AttributesBuilder, AttributesParser, ConventionDefinition, Error, FromJson, Json,
    NestedRepr, Number, PrefixedRepr, ToJson, ZarrConventionImpl,
};

fn number(n: u64) -> Json {
    Json::Number(Number::PosInt(n))
}

fn text(s: &str) -> Json {
    Json::String(s.to_string())
}

fn object(entries: Vec<(&str, Json)>) -> Json {
    let mut attributes = Attributes::new();
    for (key, value) in entries {
        attributes.insert(key.to_string(), value);
    }
    Json::Object(attributes)
}

fn two_fields(value: &Json, first: &str, second: &str) -> Result<(u8, u8), Error> {
    let Json::Object(fields) = value else {
        return Err(Error::Decode("no object".to_string()));
    };
    let a = fields.get(first).ok_or(Error::Decode(format!("missing field {first}")))?;
    let b = fields.get(second).ok_or(Error::Decode(format!("missing field {second}")))?;
    Ok((u8::from_json(a)?, u8::from_json(b)?))
}

#[derive(Debug, PartialEq)]
struct MustBeNested {
    a: u8,
    b: u8,
}

impl ToJson for MustBeNested {
    fn to_json(&self) -> Result<Json, Error> {
        Ok(object(vec![("a", number(self.a as u64)), ("b", number(self.b as u64))]))
    }
}

impl FromJson for MustBeNested {
    fn from_json(value: &Json) -> Result<Self, Error> {
        let (a, b) = two_fields(value, "a", "b")?;
        Ok(MustBeNested { a, b })
    }
}

impl ZarrConventionImpl for MustBeNested {
    fn definition() -> ConventionDefinition {
        ConventionDefinition::new(
            "11111111-1111-1111-1111-111111111111",
            "https://example.com/schemas/must_be_nested.json",
            "https://example.com/specs/must_be_nested",
            "must_be_nested",
            "A convention that must be represented in nested form.",
        )
        .unwrap()
    }
}

impl NestedRepr for MustBeNested {
    const KEY: &'static str = "must_be_nested";
}

#[derive(Debug, PartialEq)]
struct MustBePrefixed {
    x: u8,
    y: u8,
}

impl ToJson for MustBePrefixed {
    fn to_json(&self) -> Result<Json, Error> {
        Ok(object(vec![("x", number(self.x as u64)), ("y", number(self.y as u64))]))
    }
}

impl FromJson for MustBePrefixed {
    fn from_json(value: &Json) -> Result<Self, Error> {
        let (x, y) = two_fields(value, "x", "y")?;
        Ok(MustBePrefixed { x, y })
    }
}

impl ZarrConventionImpl for MustBePrefixed {
    fn definition() -> ConventionDefinition {
        ConventionDefinition::new(
            "22222222-2222-2222-2222-222222222222",
            "https://example.com/schemas/mustprefixed.json",
            "https://example.com/specs/mustprefixed",
            "must_be_prefixed",
            "A convention that must be represented in prefixed form.",
        )
        .unwrap()
    }
}

impl PrefixedRepr for MustBePrefixed {
    const PREFIX: &'static str = "must_be_prefixed:";
}

#[derive(Debug, PartialEq)]
struct CanBeEither {
    foo: u8,
    bar: u8,
}

impl ToJson for CanBeEither {
    fn to_json(&self) -> Result<Json, Error> {
        Ok(object(vec![("foo", number(self.foo as u64)), ("bar", number(self.bar as u64))]))
    }
}

impl FromJson for CanBeEither {
    fn from_json(value: &Json) -> Result<Self, Error> {
        let (foo, bar) = two_fields(value, "foo", "bar")?;
        Ok(CanBeEither { foo, bar })
    }
}

impl ZarrConventionImpl for CanBeEither {
    fn definition() -> ConventionDefinition {
        ConventionDefinition::new(
            "33333333-3333-3333-3333-333333333333",
            "https://example.com/schemas/can_be_either.json",
            "https://example.com/specs/can_be_either",
            "can_be_either",
            "A convention that can be represented in either nested or prefixed form.",
        )
        .unwrap()
    }
}

impl NestedRepr for CanBeEither {
    const KEY: &'static str = "can_be_either";
}

impl PrefixedRepr for CanBeEither {
    const PREFIX: &'static str = "can_be_either:";
}

fn record(uuid: &str, schema_url: &str, spec_url: &str, name: &str, description: &str) -> Json {
    object(vec![
        ("uuid", text(uuid)),
        ("schema_url", text(schema_url)),
        ("spec_url", text(spec_url)),
        ("name", text(name)),
        ("description", text(description)),
    ])
}

fn example() -> Json {
    object(vec![
        (
            "zarr_conventions",
            Json::Array(vec![
                record(
                    "11111111-1111-1111-1111-111111111111",
                    "https://example.com/schemas/must_be_nested.json",
                    "https://example.com/specs/must_be_nested",
                    "must_be_nested",
                    "A convention that must be represented in nested form.",
                ),
                record(
                    "22222222-2222-2222-2222-222222222222",
                    "https://example.com/schemas/must_be_prefixed.json",
                    "https://example.com/specs/must_be_prefixed",
                    "must_be_prefixed",
                    "A convention that must be represented in prefixed form.",
                ),
                record(
                    "33333333-3333-3333-3333-333333333333",
                    "https://example.com/schemas/can_be_either.json",
                    "https://example.com/specs/can_be_either",
                    "can_be_either",
                    "A convention that can be represented in either nested or prefixed form.",
                ),
            ]),
        ),
        ("must_be_nested", object(vec![("a", number(1)), ("b", number(2))])),
        ("must_be_prefixed:x", number(3)),
        ("must_be_prefixed:y", number(4)),
        ("can_be_either", object(vec![("foo", number(5))])),
        ("can_be_either:bar", number(6)),
        ("other_key", text("other_value")),
    ])
}

#[test]
fn test_attributes_parser_all() {
    let val = example();
    let parser = AttributesParser::from_json(&val).unwrap();

    let nest: MustBeNested = parser.parse_nested().unwrap().unwrap();
    assert_eq!(nest, MustBeNested { a: 1, b: 2 });

    let pref: MustBePrefixed = parser.parse_prefixed().unwrap().unwrap();
    assert_eq!(pref, MustBePrefixed { x: 3, y: 4 });

    let either: CanBeEither = parser.parse().unwrap().unwrap();
    assert_eq!(either, CanBeEither { foo: 5, bar: 6 });

    let other: String = parser.get("other_key").unwrap().unwrap();
    assert_eq!(other, "other_value");
}

#[test]
fn test_attributes_builder() {
    let mut builder = AttributesBuilder::default();
    builder.add_nested(&MustBeNested { a: 1, b: 2 }).unwrap();
    builder.add_prefixed(&MustBePrefixed { x: 3, y: 4 }).unwrap();
    builder.add_attribute("other_key", "other_value").unwrap();
    builder.add_prefixed(&CanBeEither { foo: 5, bar: 6 }).unwrap();
    let val = builder.build().unwrap();

    let parser = AttributesParser::from_json(&val).unwrap();
    parser.in_use::<MustBeNested>();
    parser.in_use::<MustBePrefixed>();
    parser.in_use::<CanBeEither>();

    let nest: MustBeNested = parser.parse_nested().unwrap().unwrap();
    assert_eq!(nest, MustBeNested { a: 1, b: 2 });

    let pref: MustBePrefixed = parser.parse_prefixed().unwrap().unwrap();
    assert_eq!(pref, MustBePrefixed { x: 3, y: 4 });

    let either: CanBeEither = parser.parse().unwrap().unwrap();
    assert_eq!(either, CanBeEither { foo: 5, bar: 6 });

    let other: String = parser.get("other_key").unwrap().unwrap();
    assert_eq!(other, "other_value");
}

#[test]
fn builder_output_lists_conventions_by_uuid() {
    let mut builder = AttributesBuilder::default();
    builder.add_prefixed(&CanBeEither { foo: 5, bar: 6 }).unwrap();
    builder.add_nested(&MustBeNested { a: 1, b: 2 }).unwrap();
    builder.add_nested(&MustBeNested { a: 7, b: 8 }).unwrap();
    let Json::Object(attributes) = builder.build().unwrap() else {
        panic!("the builder makes an object");
    };
    let Some(Json::Array(records)) = attributes.get("zarr_conventions") else {
        panic!("the conventions are a list");
    };
    assert_eq!(records.len(), 2);
    assert_eq!(
        records[0],
        record(
            "11111111-1111-1111-1111-111111111111",
            "https://example.com/schemas/must_be_nested.json",
            "https://example.com/specs/must_be_nested",
            "must_be_nested",
            "A convention that must be represented in nested form.",
        )
    );
    assert_eq!(
        attributes.get("must_be_nested"),
        Some(&object(vec![("a", number(7)), ("b", number(8))]))
    );
    assert_eq!(attributes.get("can_be_either:foo"), Some(&number(5)));
}

#[test]
fn builder_without_conventions_writes_no_list() {
    let mut builder = AttributesBuilder::default();
    builder.uuid(false).schema_url(false).spec_url(false);
    builder.add_attribute("other_key", true).unwrap();
    let val = builder.build().unwrap();
    assert_eq!(val, object(vec![("other_key", Json::Bool(true))]));
}

#[test]
fn builder_needs_an_identifier_kind() {
    let mut builder = AttributesBuilder::default();
    builder.uuid(false).schema_url(false).spec_url(false);
    builder.add_nested(&MustBeNested { a: 1, b: 2 }).unwrap();
    assert_eq!(builder.build(), Err(Error::MissingIdentifier));
}

#[test]
fn builder_with_uuid_only_round_trips() {
    let mut builder = AttributesBuilder::default();
    builder.schema_url(false).spec_url(false).name(false).description(false);
    builder.add_nested(&MustBeNested { a: 1, b: 2 }).unwrap();
    builder.add_prefixed(&MustBePrefixed { x: 3, y: 4 }).unwrap();
    let val = builder.build().unwrap();

    let Json::Object(attributes) = &val else {
        panic!("the builder makes an object");
    };
    let Some(Json::Array(records)) = attributes.get("zarr_conventions") else {
        panic!("the conventions are a list");
    };
    assert_eq!(
        records[0],
        object(vec![
            ("uuid", text("11111111-1111-1111-1111-111111111111")),
            ("schema_url", Json::Null),
            ("spec_url", Json::Null),
            ("name", Json::Null),
            ("description", Json::Null),
        ])
    );

    let parser = AttributesParser::from_json(&val).unwrap();
    assert!(parser.in_use::<MustBeNested>());
    assert!(parser.in_use::<MustBePrefixed>());
    assert!(!parser.in_use::<CanBeEither>());
    assert_eq!(parser.parse_nested::<MustBeNested>(), Ok(Some(MustBeNested { a: 1, b: 2 })));
    assert_eq!(parser.parse_prefixed::<MustBePrefixed>(), Ok(Some(MustBePrefixed { x: 3, y: 4 })));
}

#[test]
fn prefixed_data_must_be_an_object() {
    struct Scalar;
    impl ToJson for Scalar {
        fn to_json(&self) -> Result<Json, Error> {
            Ok(Json::Bool(true))
        }
    }
    impl FromJson for Scalar {
        fn from_json(_: &Json) -> Result<Self, Error> {
            Ok(Scalar)
        }
    }
    impl ZarrConventionImpl for Scalar {
        fn definition() -> ConventionDefinition {
            MustBePrefixed::definition()
        }
    }
    impl PrefixedRepr for Scalar {
        const PREFIX: &'static str = "scalar:";
    }
    let mut builder = AttributesBuilder::default();
    assert!(matches!(builder.add_prefixed(&Scalar), Err(Error::NotAnObject)));
    assert_eq!(builder.build(), Ok(object(vec![])));
}

#[test]
fn parse_nested_is_gated_by_use() {
    let val = object(vec![
        ("zarr_conventions", Json::Array(vec![])),
        ("must_be_nested", object(vec![("a", number(1)), ("b", number(2))])),
    ]);
    let parser = AttributesParser::from_json(&val).unwrap();
    assert!(!parser.in_use::<MustBeNested>());
    assert_eq!(parser.parse_nested::<MustBeNested>(), Ok(None));
    assert_eq!(parser.parse_prefixed::<MustBePrefixed>(), Ok(None));
    assert_eq!(parser.parse::<CanBeEither>(), Ok(None));
}

#[test]
fn parse_nested_end_to_end() {
    let val = object(vec![
        (
            "zarr_conventions",
            Json::Array(vec![object(vec![("uuid", text("11111111-1111-1111-1111-111111111111"))])]),
        ),
        ("must_be_nested", object(vec![("a", number(1)), ("b", number(2))])),
    ]);
    let parser = AttributesParser::from_json(&val).unwrap();
    assert_eq!(parser.parse_nested::<MustBeNested>(), Ok(Some(MustBeNested { a: 1, b: 2 })));
}

#[test]
fn parse_nested_in_use_without_key() {
    let val = object(vec![(
        "zarr_conventions",
        Json::Array(vec![object(vec![("uuid", text("11111111-1111-1111-1111-111111111111"))])]),
    )]);
    let parser = AttributesParser::from_json(&val).unwrap();
    assert_eq!(
        parser.parse_nested::<MustBeNested>(),
        Err(Error::KeyNotFound("must_be_nested".to_string()))
    );
    let absent = parser.parse_nested_value(&MustBeNested::definition(), "must_be_nested");
    assert_eq!(
        absent.unwrap_err().message(),
        "Zarr convention key not found: 'must_be_nested'"
    );
}

#[test]
fn parse_in_use_but_malformed() {
    let val = object(vec![
        (
            "zarr_conventions",
            Json::Array(vec![object(vec![("uuid", text("11111111-1111-1111-1111-111111111111"))])]),
        ),
        ("must_be_nested", object(vec![("a", number(1)), ("b", number(256))])),
    ]);
    let parser = AttributesParser::from_json(&val).unwrap();
    assert!(matches!(parser.parse_nested::<MustBeNested>(), Err(Error::Decode(_))));
}

#[test]
fn parser_keeps_other_fields_and_drops_the_list() {
    let parser = AttributesParser::from_json(&example()).unwrap();
    assert_eq!(parser.get_value("other_key"), Some(&text("other_value")));
    assert_eq!(parser.get_value("zarr_conventions"), None);
    assert_eq!(parser.get::<String>("missing"), Ok(None));
    assert!(matches!(parser.get::<bool>("other_key"), Err(Error::Decode(_))));
}

#[test]
fn parser_without_list_has_nothing_in_use() {
    let val = object(vec![("must_be_nested", object(vec![("a", number(1)), ("b", number(2))]))]);
    let parser = AttributesParser::from_json(&val).unwrap();
    assert!(!parser.in_use::<MustBeNested>());
    assert_eq!(parser.parse_nested::<MustBeNested>(), Ok(None));
}

#[test]
fn parser_rejects_bad_lists() {
    assert!(matches!(AttributesParser::from_json(&number(1)), Err(Error::Decode(_))));
    let no_list = object(vec![("zarr_conventions", text("none"))]);
    assert!(matches!(AttributesParser::from_json(&no_list), Err(Error::Decode(_))));
    let empty_record = object(vec![("zarr_conventions", Json::Array(vec![object(vec![])]))]);
    assert_eq!(AttributesParser::from_json(&empty_record).unwrap_err(), Error::MissingIdentifier);
    let bad_uuid = object(vec![(
        "zarr_conventions",
        Json::Array(vec![object(vec![("uuid", text("not a uuid"))])]),
    )]);
    assert!(matches!(AttributesParser::from_json(&bad_uuid), Err(Error::Decode(_))));
}

#[test]
fn in_use_by_any_identifier() {
    let by_spec = object(vec![(
        "zarr_conventions",
        Json::Array(vec![object(vec![
            ("spec_url", text("https://example.com/specs/must_be_nested")),
            ("name", Json::Null),
        ])]),
    )]);
    let parser = AttributesParser::from_json(&by_spec).unwrap();
    assert!(parser.in_use::<MustBeNested>());
    assert!(!parser.in_use::<MustBePrefixed>());
    assert!(parser.uses(&MustBeNested::definition()));
}

#[test]
fn parser_reads_urls_whose_escapes_write_no_utf8() {
    let val = object(vec![(
        "zarr_conventions",
        Json::Array(vec![
            object(vec![("schema_url", text("http://h/%FF"))]),
            object(vec![("schema_url", text("http://h/%FF"))]),
            object(vec![("schema_url", text("http://h/%C3/%A9")), ("spec_url", text("a:%FF"))]),
        ]),
    )]);
    let parser = AttributesParser::from_json(&val).unwrap();
    assert!(!parser.in_use::<MustBeNested>());
    let mut odd = MustBeNested::definition();
    odd.uuid = 0;
    odd.schema_url = zarrs_conventions::Uri::new("http://h/%FF");
    assert!(parser.uses(&odd));
    odd.schema_url = zarrs_conventions::Uri::new("http://h/%ff");
    assert!(!parser.uses(&odd));
    odd.spec_url = zarrs_conventions::Uri::new("a:%FF");
    assert!(parser.uses(&odd));
}
