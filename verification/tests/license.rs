use zarrs_conventions::{
    Attributes, AttributesBuilder, AttributesParser, Error, FromJson, Json, License, LicenseItem,
    NestedRepr, ToJson, Uri, ZarrConventionImpl,
};

fn text(s: &str) -> Json {
    Json::String(s.to_string())
}

fn object(entries: Vec<(&str, Json)>) -> Json {
    let mut attributes = Attributes::new();
    for (key, value) in entries {
        attributes.insert(key.to_string(), value);
    }
    Json::Object(attributes)
}

fn in_use() -> Json {
    Json::Array(vec![object(vec![("uuid", text("b77365e5-2b0c-4141-b917-c03b7c68e935"))])])
}

#[test]
fn pass_expected() {
    let value = object(vec![
        ("zarr_conventions", in_use()),
        ("license", Json::Array(vec![object(vec![("spdx", text("MIT"))])])),
    ]);
    let parser = AttributesParser::from_json(&value).unwrap();
    let license: License = parser.parse_nested().unwrap().unwrap();
    assert_eq!(license.items().len(), 1);
    assert_eq!(license.items()[0].spdx(), Some("MIT"));
}

#[test]
fn fail_empty() {
    let value = object(vec![
        ("zarr_conventions", in_use()),
        ("license", Json::Array(vec![object(vec![])])),
    ]);
    let parser = AttributesParser::from_json(&value).unwrap();
    assert!(parser.parse_nested::<License>().is_err());
}

#[test]
fn can_build() {
    let license = License::from_items(vec![LicenseItem::builder().spdx("MIT").build().unwrap()]);
    let mut builder = AttributesBuilder::default();
    builder.add_nested(&license).unwrap();
    let attrs = builder.build().unwrap();
    println!("{attrs:?}");
    let Json::Object(attributes) = attrs else {
        panic!("the builder makes an object");
    };
    assert_eq!(
        attributes.get("license"),
        Some(&Json::Array(vec![object(vec![("spdx", text("MIT"))])]))
    );
}

#[test]
fn definition_of_the_license_convention() {
    let d = License::definition();
    assert_eq!(d.uuid, 0xb77365e5_2b0c_4141_b917_c03b7c68e935);
    assert_eq!(
        d.schema_url.as_str(),
        "https://raw.githubusercontent.com/clbarnes/zarr-convention-license/refs/tags/v1/schema.json"
    );
    assert_eq!(
        d.spec_url.as_str(),
        "https://github.com/clbarnes/zarr-convention-license/blob/v1/README.md"
    );
    assert!(d.schema_url.is_valid() && d.spec_url.is_valid());
    assert_eq!(d.name, "license");
    assert_eq!(d.description, "Dataset licensing information.");
    assert_eq!(License::KEY, "license");
}

#[test]
fn build_without_fields_fails() {
    let failed = LicenseItem::builder().build();
    assert_eq!(failed.unwrap_err(), "At least one field must be set for LicenseItem");
    let failed = LicenseItem::builder().short(true).build();
    assert_eq!(failed.unwrap_err(), "At least one field must be set for LicenseItem");
}

#[test]
fn build_keeps_all_fields_unless_short() {
    let url = Uri::parse("https://opensource.org/license/mit").unwrap();
    let item = LicenseItem::builder()
        .spdx("MIT")
        .url(url.clone())
        .text("full text")
        .file("LICENSE")
        .path("../other")
        .build()
        .unwrap();
    assert_eq!(item.spdx(), Some("MIT"));
    assert_eq!(item.url(), Some(&url));
    assert_eq!(item.text(), Some("full text"));
    assert_eq!(item.file(), Some("LICENSE"));
    assert_eq!(item.path(), Some("../other"));
}

#[test]
fn short_keeps_the_most_preferred_field() {
    let url = Uri::parse("https://opensource.org/license/mit").unwrap();
    let all = LicenseItem::builder()
        .spdx("MIT")
        .url(url.clone())
        .text("full text")
        .file("LICENSE")
        .path("../other")
        .short(true)
        .build()
        .unwrap();
    assert_eq!(
        (all.spdx(), all.url(), all.text(), all.file(), all.path()),
        (Some("MIT"), None, None, None, None)
    );
    let from_url = LicenseItem::builder()
        .url(url.clone())
        .text("full text")
        .path("../other")
        .short(true)
        .build()
        .unwrap();
    assert_eq!(
        (from_url.spdx(), from_url.url(), from_url.text(), from_url.file(), from_url.path()),
        (None, Some(&url), None, None, None)
    );
    let from_text =
        LicenseItem::builder().text("full text").file("LICENSE").short(true).build().unwrap();
    assert_eq!((from_text.text(), from_text.file()), (Some("full text"), None));
    let from_file =
        LicenseItem::builder().file("LICENSE").path("../other").short(true).build().unwrap();
    assert_eq!((from_file.file(), from_file.path()), (Some("LICENSE"), None));
    let from_path = LicenseItem::builder().path("../other").short(true).build().unwrap();
    assert_eq!(from_path.path(), Some("../other"));
}

#[test]
fn single_field_constructors() {
    let url = Uri::parse("https://opensource.org/license/BSD-3-Clause").unwrap();
    assert_eq!(LicenseItem::new_spdx("Apache-2.0").spdx(), Some("Apache-2.0"));
    assert_eq!(LicenseItem::new_spdx("Apache-2.0").url(), None);
    assert_eq!(LicenseItem::new_url(url.clone()).url(), Some(&url));
    assert_eq!(LicenseItem::new_text("words").text(), Some("words"));
    assert_eq!(LicenseItem::new_file("LICENSE").file(), Some("LICENSE"));
    assert_eq!(LicenseItem::new_path("..").path(), Some(".."));
    assert_eq!(LicenseItem::new_path("..").spdx(), None);
}

#[test]
fn licenses_can_be_changed_in_place() {
    let mut license = License::from_item(LicenseItem::new_spdx("MIT"));
    license.inner_mut().push(LicenseItem::new_spdx("Apache-2.0"));
    assert_eq!(license.items().len(), 2);
    assert_eq!(license.items()[1].spdx(), Some("Apache-2.0"));
    license.inner_mut().clear();
    assert!(license.items().is_empty());
}

#[test]
fn license_json_round_trip() {
    let url = Uri::parse("https://opensource.org/license/mit").unwrap();
    let license = License::from_items(vec![
        LicenseItem::builder().spdx("MIT").url(url.clone()).build().unwrap(),
        LicenseItem::new_path("../other"),
    ]);
    let json = license.to_json().unwrap();
    assert_eq!(
        json,
        Json::Array(vec![
            object(vec![("spdx", text("MIT")), ("url", text("https://opensource.org/license/mit"))]),
            object(vec![("path", text("../other"))]),
        ])
    );
    let back = License::from_json(&json).unwrap();
    assert_eq!(back.items().len(), 2);
    assert_eq!(back.items()[0].spdx(), Some("MIT"));
    assert_eq!(back.items()[0].url(), Some(&url));
    assert_eq!(back.items()[1].path(), Some("../other"));
}

#[test]
fn license_json_is_checked() {
    assert!(matches!(License::from_json(&object(vec![])), Err(Error::Decode(_))));
    let bad_url = Json::Array(vec![object(vec![("url", text("not a uri"))])]);
    assert!(matches!(License::from_json(&bad_url), Err(Error::Decode(_))));
    let bad_type = Json::Array(vec![object(vec![("spdx", Json::Bool(true))])]);
    assert!(matches!(License::from_json(&bad_type), Err(Error::Decode(_))));
    let nulls = Json::Array(vec![object(vec![("spdx", Json::Null), ("text", text("words"))])]);
    assert_eq!(License::from_json(&nulls).unwrap().items()[0].text(), Some("words"));
    assert!(License::from_json(&Json::Array(vec![])).unwrap().items().is_empty());
}
