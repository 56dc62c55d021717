use es_dsl::Aggregation;
use es_dsl::GeoBoundingBox;
use es_dsl::GeoPoint;
use es_dsl::Number;
use es_dsl::Query;
use es_dsl::ValidationMethod;
use es_dsl::queries_json;
use es_dsl::render;
use serde_json::Value;

fn parsed(s: &str) -> Value {
    serde_json::from_str(s).expect("the library must emit valid JSON")
}

fn sample_box() -> GeoBoundingBox {
    GeoBoundingBox::Vertices {
        top: Number::literal("40.73"),
        left: Number::literal("-74.1"),
        bottom: Number::literal("40.01"),
        right: Number::literal("-71.12"),
    }
}

#[test]
fn fresh_query_omits_optionals() {
    let q = Query::geo_bounding_box("pin.location".to_string(), sample_box());
    let v = parsed(&q.serialize());
    let body = v["geo_bounding_box"].as_object().expect("an object");
    assert_eq!(body.len(), 1);
    assert!(body.contains_key("pin.location"));
    assert!(!body.contains_key("validation_method"));
    assert!(!body.contains_key("boost"));
    assert!(!body.contains_key("_name"));
}

#[test]
fn fresh_aggregations_omit_aggs_key() {
    let nested = parsed(&Aggregation::nested("f".to_string()).serialize());
    assert!(!nested.as_object().unwrap().contains_key("aggs"));
    let reversed = parsed(&Aggregation::reversed_nested(None).serialize());
    assert!(!reversed.as_object().unwrap().contains_key("aggs"));
    assert!(!reversed["reverse_nested"].as_object().unwrap().contains_key("path"));
}

#[test]
fn empty_field_key_skips_query() {
    let skipped = Query::geo_bounding_box(String::new(), sample_box());
    let kept = Query::geo_bounding_box("pin.location".to_string(), sample_box());
    assert!(skipped.should_skip());
    assert!(!kept.should_skip());
    let qs = vec![skipped, kept];
    let v = parsed(&render(&queries_json(&qs)));
    let items = v.as_array().expect("an array");
    assert_eq!(items.len(), 1);
    assert!(items[0]["geo_bounding_box"].as_object().unwrap().contains_key("pin.location"));
}

#[test]
fn modifier_order_is_irrelevant() {
    let a = Query::geo_bounding_box("pin.location".to_string(), sample_box())
        .boost(Number::integer(2))
        .name("n".to_string())
        .serialize();
    let b = Query::geo_bounding_box("pin.location".to_string(), sample_box())
        .name("n".to_string())
        .boost(Number::integer(2))
        .serialize();
    assert_eq!(a, b);
}

#[test]
fn repeated_modifier_last_write_wins() {
    let a = Query::geo_bounding_box("pin.location".to_string(), sample_box())
        .boost(Number::integer(1))
        .boost(Number::integer(7))
        .serialize();
    let b = Query::geo_bounding_box("pin.location".to_string(), sample_box())
        .boost(Number::integer(7))
        .serialize();
    assert_eq!(a, b);
}

#[test]
fn geometry_representations_have_distinct_shapes() {
    let wkt = parsed(&render(&GeoBoundingBox::WellKnownText { wkt: "BBOX (1, 2, 3, 4)".to_string() }
        .to_json()));
    let diagonal = parsed(&render(&GeoBoundingBox::MainDiagonal {
        top_left: GeoPoint::Coordinates {
            longitude: Number::literal("-74.1"),
            latitude: Number::literal("40.73"),
        },
        bottom_right: GeoPoint::Coordinates {
            longitude: Number::literal("-71.12"),
            latitude: Number::literal("40.01"),
        },
    }
    .to_json()));
    let vertices = parsed(&render(&sample_box().to_json()));

    let wkt_keys: Vec<&String> = wkt.as_object().unwrap().keys().collect();
    let diagonal_keys: Vec<&String> = diagonal.as_object().unwrap().keys().collect();
    let vertices_keys: Vec<&String> = vertices.as_object().unwrap().keys().collect();
    assert_eq!(wkt_keys.len(), 1);
    assert!(wkt_keys.iter().any(|k| *k == "wkt"));
    assert_eq!(diagonal_keys.len(), 2);
    for k in ["top_left", "bottom_right"] {
        assert!(diagonal_keys.iter().any(|d| *d == k));
    }
    assert_eq!(vertices_keys.len(), 4);
    for k in ["top", "left", "bottom", "right"] {
        assert!(vertices_keys.iter().any(|d| *d == k));
    }
    for k in &wkt_keys {
        assert!(!diagonal_keys.contains(k));
        assert!(!vertices_keys.contains(k));
    }
    for k in &diagonal_keys {
        assert!(!vertices_keys.contains(k));
    }
    assert_eq!(diagonal["top_left"], Value::from(vec![-74.1, 40.73]));
}

#[test]
fn validation_method_tokens() {
    let q = Query::geo_bounding_box("f".to_string(), sample_box())
        .validation_method(ValidationMethod::IgnoreMalformed);
    assert_eq!(parsed(&q.serialize())["geo_bounding_box"]["validation_method"],
        Value::from("IGNORE_MALFORMED"));
    let q = Query::geo_bounding_box("f".to_string(), sample_box())
        .validation_method(ValidationMethod::Coerce);
    assert_eq!(parsed(&q.serialize())["geo_bounding_box"]["validation_method"],
        Value::from("COERCE"));
}

#[test]
fn integer_number_tokens_are_exact() {
    assert_eq!(Number::integer(0).token_string(), "0");
    assert_eq!(Number::integer(1).token_string(), "1");
    assert_eq!(Number::integer(-17).token_string(), "-17");
    assert_eq!(Number::integer(10).token_string(), "10");
    assert_eq!(Number::integer(i64::MAX).token_string(), "9223372036854775807");
    assert_eq!(Number::integer(i64::MIN).token_string(), "-9223372036854775808");
}
