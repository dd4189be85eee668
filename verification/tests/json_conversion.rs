use baml_gleam::ir::BamlMediaType;
use baml_gleam::json::{baml_value_to_json, json_to_baml_value, parse_json_args, JsonNumber, JsonValue};
use baml_gleam::value::{BamlMedia, BamlMediaContent, BamlValue};

fn s(x: &str) -> String {
    x.to_string()
}

fn json_str(j: &JsonValue) -> Option<&str> {
    match j {
        JsonValue::String(x) => Some(x.as_str()),
        _ => None,
    }
}

fn object(j: &JsonValue) -> &Vec<(String, JsonValue)> {
    match j {
        JsonValue::Object(es) => es,
        _ => panic!("not an object"),
    }
}

#[test]
fn scalars_to_json() {
    assert!(matches!(baml_value_to_json(BamlValue::Null), JsonValue::Null));
    assert!(matches!(baml_value_to_json(BamlValue::Bool(true)), JsonValue::Bool(true)));
    assert!(matches!(baml_value_to_json(BamlValue::Int(7)), JsonValue::Number(JsonNumber::PosInt(7))));
    assert!(matches!(baml_value_to_json(BamlValue::Int(0)), JsonValue::Number(JsonNumber::PosInt(0))));
    assert!(matches!(baml_value_to_json(BamlValue::Int(-3)), JsonValue::Number(JsonNumber::NegInt(-3))));
    let bits = 2.5f64.to_bits();
    assert!(matches!(baml_value_to_json(BamlValue::Float(bits)), JsonValue::Number(JsonNumber::Float(b)) if b == bits));
    assert_eq!(json_str(&baml_value_to_json(BamlValue::String(s("hi")))), Some("hi"));
}

#[test]
fn non_finite_floats_become_null() {
    assert!(matches!(baml_value_to_json(BamlValue::Float(f64::NAN.to_bits())), JsonValue::Null));
    assert!(matches!(baml_value_to_json(BamlValue::Float(f64::INFINITY.to_bits())), JsonValue::Null));
    assert!(matches!(baml_value_to_json(BamlValue::Float(f64::NEG_INFINITY.to_bits())), JsonValue::Null));
}

#[test]
fn list_to_json() {
    let j = baml_value_to_json(BamlValue::List(vec![BamlValue::Int(1), BamlValue::Null]));
    match j {
        JsonValue::Array(items) => {
            assert_eq!(items.len(), 2);
            assert!(matches!(items[0], JsonValue::Number(JsonNumber::PosInt(1))));
            assert!(matches!(items[1], JsonValue::Null));
        }
        _ => panic!("not an array"),
    }
}

#[test]
fn map_to_json_keeps_last_value_of_a_key() {
    let j = baml_value_to_json(BamlValue::MapValue(vec![
        (s("a"), BamlValue::Int(1)),
        (s("b"), BamlValue::Bool(false)),
        (s("a"), BamlValue::Int(3)),
    ]));
    let es = object(&j);
    assert_eq!(es.len(), 2);
    assert_eq!(es[0].0, "a");
    assert!(matches!(es[0].1, JsonValue::Number(JsonNumber::PosInt(3))));
    assert_eq!(es[1].0, "b");
}

#[test]
fn enum_to_json() {
    let j = baml_value_to_json(BamlValue::Enum(s("Color"), s("Red")));
    let es = object(&j);
    assert_eq!(es.len(), 2);
    assert_eq!(es[0].0, "__enum__");
    assert_eq!(json_str(&es[0].1), Some("Color"));
    assert_eq!(es[1].0, "value");
    assert_eq!(json_str(&es[1].1), Some("Red"));
}

#[test]
fn class_to_json() {
    let j = baml_value_to_json(BamlValue::Class(s("Person"), vec![(s("name"), BamlValue::String(s("Ann")))]));
    let es = object(&j);
    assert_eq!(es.len(), 2);
    assert_eq!(es[0].0, "__class__");
    assert_eq!(json_str(&es[0].1), Some("Person"));
    assert_eq!(es[1].0, "name");
    assert_eq!(json_str(&es[1].1), Some("Ann"));
}

#[test]
fn class_field_named_like_the_tag_replaces_it() {
    let j = baml_value_to_json(BamlValue::Class(s("P"), vec![(s("__class__"), BamlValue::Int(1))]));
    let es = object(&j);
    assert_eq!(es.len(), 1);
    assert!(matches!(es[0].1, JsonValue::Number(JsonNumber::PosInt(1))));
}

#[test]
fn media_to_json() {
    let m = BamlMedia::base64(BamlMediaType::Image, s("AAAA"), Some(s("image/png")));
    let j = baml_value_to_json(BamlValue::Media(m));
    let es = object(&j);
    assert_eq!(es.len(), 3);
    assert_eq!(es[0].0, "__media__");
    assert_eq!(json_str(&es[0].1), Some("image"));
    assert_eq!(es[1].0, "mime_type");
    assert_eq!(json_str(&es[1].1), Some("image/png"));
    assert_eq!(es[2].0, "base64");
    assert_eq!(json_str(&es[2].1), Some("AAAA"));

    let u = BamlMedia { media_type: BamlMediaType::Pdf, mime_type: None, content: BamlMediaContent::Url(s("http://x")) };
    let j = baml_value_to_json(BamlValue::Media(u));
    let es = object(&j);
    assert_eq!(es.len(), 2);
    assert_eq!(json_str(&es[0].1), Some("pdf"));
    assert_eq!(es[1].0, "url");
    let f = BamlMedia { media_type: BamlMediaType::Video, mime_type: None, content: BamlMediaContent::File(s("a.mp4")) };
    let j = baml_value_to_json(BamlValue::Media(f));
    let es = object(&j);
    assert_eq!(json_str(&es[0].1), Some("video"));
    assert_eq!(es[1].0, "file");
    assert_eq!(json_str(&es[1].1), Some("a.mp4"));
}

#[test]
fn json_numbers_to_baml() {
    assert!(matches!(json_to_baml_value(JsonValue::Number(JsonNumber::PosInt(5))).unwrap(), BamlValue::Int(5)));
    assert!(matches!(json_to_baml_value(JsonValue::Number(JsonNumber::NegInt(-9))).unwrap(), BamlValue::Int(-9)));
    let max = i64::MAX as u64;
    assert!(matches!(json_to_baml_value(JsonValue::Number(JsonNumber::PosInt(max))).unwrap(), BamlValue::Int(i) if i == i64::MAX));
    let bits = 0.25f64.to_bits();
    assert!(matches!(json_to_baml_value(JsonValue::Number(JsonNumber::Float(bits))).unwrap(), BamlValue::Float(b) if b == bits));
}

#[test]
fn json_big_integers_become_floats() {
    for u in [u64::MAX, 1u64 << 63, (1u64 << 63) + 1025, (1u64 << 63) + 3072, 18_000_000_000_000_000_001] {
        let v = json_to_baml_value(JsonValue::Number(JsonNumber::PosInt(u))).unwrap();
        assert!(matches!(v, BamlValue::Float(b) if b == (u as f64).to_bits()), "{}", u);
    }
}

#[test]
fn json_containers_to_baml() {
    let j = JsonValue::Object(vec![
        (s("xs"), JsonValue::Array(vec![JsonValue::Bool(true), JsonValue::String(s("t"))])),
        (s("n"), JsonValue::Null),
    ]);
    match json_to_baml_value(j).unwrap() {
        BamlValue::MapValue(es) => {
            assert_eq!(es.len(), 2);
            assert_eq!(es[0].0, "xs");
            match &es[0].1 {
                BamlValue::List(items) => {
                    assert_eq!(items.len(), 2);
                    assert!(matches!(items[0], BamlValue::Bool(true)));
                    assert!(matches!(&items[1], BamlValue::String(t) if t == "t"));
                }
                _ => panic!("not a list"),
            }
            assert_eq!(es[1].0, "n");
            assert!(matches!(es[1].1, BamlValue::Null));
        }
        _ => panic!("not a map"),
    }
}

#[test]
fn args_must_be_an_object() {
    let ok = parse_json_args(JsonValue::Object(vec![(s("x"), JsonValue::Number(JsonNumber::PosInt(1)))])).unwrap();
    match ok {
        BamlValue::MapValue(es) => {
            assert_eq!(es.len(), 1);
            assert_eq!(es[0].0, "x");
            assert!(matches!(es[0].1, BamlValue::Int(1)));
        }
        _ => panic!("not a map"),
    }
    for bad in [JsonValue::Null, JsonValue::Array(vec![]), JsonValue::String(s("x")), JsonValue::Bool(false)] {
        let e = parse_json_args(bad).unwrap_err();
        assert_eq!(e.to_string(), "Arguments must be a JSON object");
    }
}

#[test]
fn json_round_trip_on_plain_values() {
    let v = BamlValue::MapValue(vec![
        (s("a"), BamlValue::List(vec![BamlValue::Int(-1), BamlValue::Float(1.5f64.to_bits())])),
        (s("b"), BamlValue::String(s("x"))),
    ]);
    let back = json_to_baml_value(baml_value_to_json(v)).unwrap();
    match back {
        BamlValue::MapValue(es) => {
            assert_eq!(es.len(), 2);
            match &es[0].1 {
                BamlValue::List(items) => {
                    assert!(matches!(items[0], BamlValue::Int(-1)));
                    assert!(matches!(items[1], BamlValue::Float(b) if b == 1.5f64.to_bits()));
                }
                _ => panic!("not a list"),
            }
            assert!(matches!(&es[1].1, BamlValue::String(t) if t == "x"));
        }
        _ => panic!("not a map"),
    }
}
