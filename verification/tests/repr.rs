use zarrs_conventions::repr::{
    combined_value, fill_prefixed, nested_value, prefixed_value, store_nested, store_prefixed,
};
use zarrs_conventions::{nest_prefixed, Attributes, Error, Json, Number};

fn number(n: u64) -> Json {
    Json::Number(Number::PosInt(n))
}

fn text(s: &str) -> Json {
    Json::String(s.to_string())
}

fn attributes(entries: Vec<(&str, Json)>) -> Attributes {
    let mut attributes = Attributes::new();
    for (key, value) in entries {
        attributes.insert(key.to_string(), value);
    }
    attributes
}

fn object(entries: Vec<(&str, Json)>) -> Json {
    Json::Object(attributes(entries))
}

#[test]
fn nest_prefixed_strips_the_prefix() {
    let map = attributes(vec![
        ("prefix:a", text("a")),
        ("prefix:one", number(1)),
        ("prefix:object", object(vec![("somekey", text("somevalue"))])),
        ("otherfield", Json::Array(vec![])),
    ]);
    assert_eq!(
        nest_prefixed("prefix:", &map, Attributes::new()),
        object(vec![
            ("a", text("a")),
            ("one", number(1)),
            ("object", object(vec![("somekey", text("somevalue"))])),
        ])
    );
}

#[test]
fn nest_prefixed_stores_into_out() {
    let map = attributes(vec![("p:a", number(1)), ("p:", number(2)), ("q:b", number(3)), ("p", number(4))]);
    let out = attributes(vec![("z", number(9)), ("a", number(8))]);
    assert_eq!(
        nest_prefixed("p:", &map, out),
        object(vec![("z", number(9)), ("a", number(1)), ("", number(2))])
    );
    assert_eq!(nest_prefixed("", &attributes(vec![("k", Json::Null)]), Attributes::new()), object(vec![("k", Json::Null)]));
}

#[test]
fn fill_prefixed_keeps_what_out_has() {
    let map = attributes(vec![("p:a", number(1)), ("p:b", number(2))]);
    let out = attributes(vec![("a", number(8))]);
    assert_eq!(fill_prefixed("p:", &map, out), object(vec![("a", number(8)), ("b", number(2))]));
}

#[test]
fn combined_record_is_completed_by_prefixed_fields() {
    let attrs = attributes(vec![("T", object(vec![("a", number(1))])), ("T:b", number(2))]);
    assert_eq!(combined_value("T", "T:", &attrs), object(vec![("a", number(1)), ("b", number(2))]));
}

#[test]
fn combined_nested_fields_take_precedence() {
    let attrs = attributes(vec![
        ("T:a", number(7)),
        ("T", object(vec![("a", number(1))])),
        ("T:b", number(2)),
    ]);
    assert_eq!(combined_value("T", "T:", &attrs), object(vec![("a", number(1)), ("b", number(2))]));
}

#[test]
fn combined_value_that_is_no_record_stands_alone() {
    let attrs = attributes(vec![("T", number(5)), ("T:b", number(2))]);
    assert_eq!(combined_value("T", "T:", &attrs), number(5));
    let listed = attributes(vec![("T", Json::Array(vec![number(1)])), ("T:b", number(2))]);
    assert_eq!(combined_value("T", "T:", &listed), Json::Array(vec![number(1)]));
}

#[test]
fn combined_without_nested_key_reads_prefixed_fields() {
    let attrs = attributes(vec![("T:b", number(2)), ("U", number(1))]);
    assert_eq!(combined_value("T", "T:", &attrs), object(vec![("b", number(2))]));
    assert_eq!(combined_value("T", "T:", &Attributes::new()), object(vec![]));
}

#[test]
fn nested_value_round_trip() {
    let mut attrs = attributes(vec![("other", number(1))]);
    store_nested("T", number(5), &mut attrs);
    store_nested("T", object(vec![("a", number(1))]), &mut attrs);
    assert_eq!(attrs, attributes(vec![("other", number(1)), ("T", object(vec![("a", number(1))]))]));
    assert_eq!(nested_value("T", &attrs), Ok(object(vec![("a", number(1))])));
    assert_eq!(nested_value("U", &attrs), Err(Error::KeyNotFound("U".to_string())));
}

#[test]
fn prefixed_value_round_trip() {
    let value = object(vec![("x", number(3)), ("y", number(4))]);
    let mut attrs = attributes(vec![("other", number(1)), ("T:x", number(0))]);
    assert_eq!(store_prefixed("T:", value.clone(), &mut attrs), Ok(()));
    assert_eq!(
        attrs,
        attributes(vec![("other", number(1)), ("T:x", number(3)), ("T:y", number(4))])
    );
    assert_eq!(prefixed_value("T:", &attrs), value);
}

#[test]
fn prefixed_value_must_be_an_object() {
    let mut attrs = attributes(vec![("other", number(1))]);
    assert_eq!(store_prefixed("T:", number(5), &mut attrs), Err(Error::NotAnObject));
    assert_eq!(attrs, attributes(vec![("other", number(1))]));
    assert_eq!(
        Error::NotAnObject.message(),
        "Prefixed representation must serialize to a JSON object"
    );
}

#[test]
fn attributes_keep_insertion_order() {
    let mut attrs = Attributes::new();
    assert_eq!(attrs.insert("b".to_string(), number(1)), None);
    assert_eq!(attrs.insert("a".to_string(), number(2)), None);
    assert_eq!(attrs.insert("b".to_string(), number(3)), Some(number(1)));
    assert_eq!(attrs.len(), 2);
    assert_eq!(attrs.entry(0), Some(("b", &number(3))));
    assert_eq!(attrs.entry(1), Some(("a", &number(2))));
    assert_eq!(attrs.entry(2), None);
    assert!(attrs.contains_key("a") && !attrs.contains_key("c"));
    assert_eq!(attrs.get("a"), Some(&number(2)));
    assert_eq!(attrs.without("b"), attributes(vec![("a", number(2))]));
    assert_eq!(attrs.without("c"), attrs.clone());
    assert_eq!(object(vec![("k", Json::Array(vec![text("v")]))]).clone(), object(vec![("k", Json::Array(vec![text("v")]))]));
}
