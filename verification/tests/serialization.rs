use es_dsl::Aggregation;
use es_dsl::GeoBoundingBox;
use es_dsl::GeoPoint;
use es_dsl::Number;
use es_dsl::Query;
use es_dsl::ValidationMethod;
use serde_json::Value;

fn parsed(s: &str) -> Value {
    serde_json::from_str(s).expect("the library must emit valid JSON")
}

fn obj(pairs: Vec<(&str, Value)>) -> Value {
    let mut m = serde_json::Map::new();
    for (k, v) in pairs {
        m.insert(k.to_string(), v);
    }
    Value::Object(m)
}

#[test]
fn nested_aggregation_serialization() {
    let agg = Aggregation::nested("test_field".to_string());
    let s = agg.serialize();
    assert_eq!(s, "{\"nested\":{\"path\":\"test_field\"}}");
    let expected = obj(vec![("nested", obj(vec![("path", Value::from("test_field"))]))]);
    assert_eq!(parsed(&s), expected);
}

#[test]
fn reverse_nested_aggregation_serialization() {
    let agg = Aggregation::reversed_nested(None);
    let s = agg.serialize();
    assert_eq!(s, "{\"reverse_nested\":{}}");
    let expected = obj(vec![("reverse_nested", obj(vec![]))]);
    assert_eq!(parsed(&s), expected);
}

#[test]
fn geo_bounding_box_query_serialization() {
    let q = Query::geo_bounding_box(
        "pin.location".to_string(),
        GeoBoundingBox::WellKnownText {
            wkt: "BBOX (-74.1, -71.12, 40.73, 40.01)".to_string(),
        },
    );
    let expected = obj(vec![(
        "geo_bounding_box",
        obj(vec![(
            "pin.location",
            obj(vec![("wkt", Value::from("BBOX (-74.1, -71.12, 40.73, 40.01)"))]),
        )]),
    )]);
    assert_eq!(parsed(&q.serialize()), expected);

    let q = Query::geo_bounding_box(
        "pin.location".to_string(),
        GeoBoundingBox::MainDiagonal {
            top_left: GeoPoint::Coordinates {
                longitude: Number::literal("-74.1"),
                latitude: Number::literal("40.73"),
            },
            bottom_right: GeoPoint::Coordinates {
                longitude: Number::literal("-71.12"),
                latitude: Number::literal("40.01"),
            },
        },
    )
    .validation_method(ValidationMethod::Strict)
    .name("test_name".to_string());
    let expected = obj(vec![(
        "geo_bounding_box",
        obj(vec![
            ("validation_method", Value::from("STRICT")),
            ("_name", Value::from("test_name")),
            (
                "pin.location",
                obj(vec![
                    ("top_left", Value::from(vec![-74.1, 40.73])),
                    ("bottom_right", Value::from(vec![-71.12, 40.01])),
                ]),
            ),
        ]),
    )]);
    assert_eq!(parsed(&q.serialize()), expected);

    let q = Query::geo_bounding_box(
        "pin.location".to_string(),
        GeoBoundingBox::Vertices {
            top: Number::literal("40.73"),
            left: Number::literal("-74.1"),
            bottom: Number::literal("40.01"),
            right: Number::literal("-71.12"),
        },
    )
    .validation_method(ValidationMethod::Strict)
    .name("test_name".to_string())
    .boost(Number::integer(1));
    let expected = obj(vec![(
        "geo_bounding_box",
        obj(vec![
            ("validation_method", Value::from("STRICT")),
            ("_name", Value::from("test_name")),
            ("boost", Value::from(1)),
            (
                "pin.location",
                obj(vec![
                    ("top", Value::from(40.73)),
                    ("left", Value::from(-74.1)),
                    ("bottom", Value::from(40.01)),
                    ("right", Value::from(-71.12)),
                ]),
            ),
        ]),
    )]);
    assert_eq!(parsed(&q.serialize()), expected);
}

#[test]
fn geo_bounding_box_query_exact_text() {
    let q = Query::geo_bounding_box(
        "pin.location".to_string(),
        GeoBoundingBox::Vertices {
            top: Number::literal("40.73"),
            left: Number::literal("-74.1"),
            bottom: Number::literal("40.01"),
            right: Number::literal("-71.12"),
        },
    )
    .validation_method(ValidationMethod::Strict)
    .name("test_name".to_string())
    .boost(Number::integer(1));
    assert_eq!(
        q.serialize(),
        "{\"geo_bounding_box\":{\"validation_method\":\"STRICT\",\"_name\":\"test_name\",\
         \"boost\":1,\"pin.location\":{\"top\":40.73,\"left\":-74.1,\"bottom\":40.01,\
         \"right\":-71.12}}}"
    );
}

#[test]
fn string_content_is_escaped() {
    let agg = Aggregation::nested("a\"b\\c\nd\u{1}".to_string());
    let s = agg.serialize();
    assert_eq!(s, "{\"nested\":{\"path\":\"a\\\"b\\\\c\\nd\\u0001\"}}");
    let v = parsed(&s);
    assert_eq!(v["nested"]["path"], Value::from("a\"b\\c\nd\u{1}"));
}

#[test]
fn sub_aggregations_serialize_under_aggs() {
    let child = Aggregation::ReverseNested(Aggregation::reversed_nested(Some(
        "parent_field".to_string(),
    )));
    let agg = Aggregation::nested("test_field".to_string()).aggregate("back".to_string(), child);
    let s = agg.serialize();
    assert_eq!(
        s,
        "{\"nested\":{\"path\":\"test_field\"},\"aggs\":{\"back\":\
         {\"reverse_nested\":{\"path\":\"parent_field\"}}}}"
    );
}

#[test]
fn duplicate_child_name_replaced() {
    let first = Aggregation::Nested(Aggregation::nested("one".to_string()));
    let second = Aggregation::Nested(Aggregation::nested("two".to_string()));
    let agg = Aggregation::nested("test_field".to_string())
        .aggregate("x".to_string(), first)
        .aggregate("x".to_string(), second);
    let v = parsed(&agg.serialize());
    let children = v["aggs"].as_object().expect("aggs must be an object");
    assert_eq!(children.len(), 1);
    assert_eq!(children["x"]["nested"]["path"], Value::from("two"));
}

#[test]
fn reverse_nested_with_path_serialization() {
    let agg = Aggregation::reversed_nested(Some("parent_field".to_string()));
    assert_eq!(agg.serialize(), "{\"reverse_nested\":{\"path\":\"parent_field\"}}");
}
