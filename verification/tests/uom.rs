use zarrs_conventions::{
    Attributes, AttributesBuilder, AttributesParser, Error, FromJson, Json, NestedRepr, ToJson,
    UnitOfMeasurement, ZarrConventionImpl, ZarrConventions,
};

fn text(s: &str) -> Json {
    Json::String(s.to_string())
}

fn object(entries: Vec<(&str, Json)>) -> Json {
    let mut attributes = Attributes::new();
    for (key, value) in entries {
        attributes.insert(key.to_string(), value);
    }
    Json::Object(attributes)
}

#[test]
fn builder_sets_each_part() {
    let uom = UnitOfMeasurement::builder().unit("m/s").version("2.1").description("speed").build();
    assert_eq!(uom.ucum().unit(), Some("m/s"));
    assert_eq!(uom.ucum().version(), Some("2.1"));
    assert_eq!(uom.description(), "speed");
}

#[test]
fn builder_without_parts() {
    let uom = UnitOfMeasurement::builder().build();
    assert_eq!(uom.ucum().unit(), None);
    assert_eq!(uom.ucum().version(), None);
    assert_eq!(uom.description(), "");
}

#[test]
fn later_settings_replace_earlier_ones() {
    let uom = UnitOfMeasurement::builder().unit("m").unit("km").build();
    assert_eq!(uom.ucum().unit(), Some("km"));
}

#[test]
fn definition_of_the_uom_convention() {
    let d = UnitOfMeasurement::definition();
    assert_eq!(d.uuid, 0x3bbe438d_df37_49fe_8e2b_739296d46dfb);
    assert_eq!(
        d.schema_url.as_str(),
        "https://raw.githubusercontent.com/clbarnes/zarr-convention-uom/refs/tags/v1/schema.json"
    );
    assert_eq!(
        d.spec_url.as_str(),
        "https://github.com/clbarnes/zarr-convention-uom/blob/v1/README.md"
    );
    assert!(d.schema_url.is_valid() && d.spec_url.is_valid());
    assert_eq!(d.name, "uom");
    assert_eq!(d.description, "Units of measurement for Zarr arrays");
    assert_eq!(UnitOfMeasurement::KEY, "uom");
}

#[test]
fn uom_json_round_trip() {
    let uom = UnitOfMeasurement::builder().unit("m/s").description("speed").build();
    let json = uom.to_json().unwrap();
    assert_eq!(
        json,
        object(vec![("ucum", object(vec![("unit", text("m/s"))])), ("description", text("speed"))])
    );
    let back = UnitOfMeasurement::from_json(&json).unwrap();
    assert_eq!(back.ucum().unit(), Some("m/s"));
    assert_eq!(back.ucum().version(), None);
    assert_eq!(back.description(), "speed");
}

#[test]
fn uom_json_is_checked() {
    assert!(matches!(UnitOfMeasurement::from_json(&object(vec![])), Err(Error::Decode(_))));
    assert!(matches!(UnitOfMeasurement::from_json(&Json::Null), Err(Error::Decode(_))));
    let bad_unit = object(vec![("ucum", object(vec![("unit", Json::Bool(true))]))]);
    assert!(matches!(UnitOfMeasurement::from_json(&bad_unit), Err(Error::Decode(_))));
    let bad_description = object(vec![("ucum", object(vec![])), ("description", Json::Bool(true))]);
    assert!(matches!(UnitOfMeasurement::from_json(&bad_description), Err(Error::Decode(_))));
    let bare = UnitOfMeasurement::from_json(&object(vec![("ucum", object(vec![]))])).unwrap();
    assert_eq!(bare.ucum().unit(), None);
}

#[test]
fn uom_through_attributes() {
    let uom = UnitOfMeasurement::builder().unit("kg").version("2.2").build();
    let mut builder = AttributesBuilder::default();
    builder.add_nested(&uom).unwrap();
    let attrs = builder.build().unwrap();
    let Json::Object(attributes) = &attrs else {
        panic!("the builder makes an object");
    };
    let conventions = ZarrConventions::from_attributes(attributes).unwrap();
    assert!(conventions.contains(&UnitOfMeasurement::definition().id_uuid()));
    assert!(conventions.contains(&UnitOfMeasurement::definition().id_schema()));
    let read = UnitOfMeasurement::from_attributes_nested(attributes).expect("should be present");
    assert_eq!(read.ucum().unit(), Some("kg"));
    let parser = AttributesParser::from_json(&attrs).unwrap();
    let parsed: UnitOfMeasurement = parser.parse_nested().unwrap().unwrap();
    assert_eq!(parsed.ucum().version(), Some("2.2"));
}
