use baml_gleam::erlang_term::{baml_value_to_term, read_term, term_to_baml_value, ErlTerm, ReadError, TermError};
use baml_gleam::ir::BamlMediaType;
use baml_gleam::value::{BamlMedia, BamlMediaContent, BamlValue};

fn s(x: &str) -> String {
    x.to_string()
}

fn atom(x: &str) -> ErlTerm {
    ErlTerm::Atom(s(x))
}

fn bin(x: &str) -> ErlTerm {
    ErlTerm::Binary(x.as_bytes().to_vec())
}

fn is_atom(t: &ErlTerm, name: &str) -> bool {
    matches!(t, ErlTerm::Atom(a) if a == name)
}

fn is_bin(t: &ErlTerm, text: &str) -> bool {
    matches!(t, ErlTerm::Binary(b) if b.as_slice() == text.as_bytes())
}

#[test]
fn atoms_to_values() {
    assert!(matches!(term_to_baml_value(&atom("nil")), Ok(BamlValue::Null)));
    assert!(matches!(term_to_baml_value(&atom("undefined")), Ok(BamlValue::Null)));
    assert!(matches!(term_to_baml_value(&atom("true")), Ok(BamlValue::Bool(true))));
    assert!(matches!(term_to_baml_value(&atom("false")), Ok(BamlValue::Bool(false))));
    assert!(matches!(term_to_baml_value(&atom("ok")), Ok(BamlValue::String(x)) if x == "ok"));
}

#[test]
fn numbers_and_binaries_to_values() {
    assert!(matches!(term_to_baml_value(&ErlTerm::Int(-12)), Ok(BamlValue::Int(-12))));
    let bits = 3.25f64.to_bits();
    assert!(matches!(term_to_baml_value(&ErlTerm::Float(bits)), Ok(BamlValue::Float(b)) if b == bits));
    assert!(matches!(term_to_baml_value(&bin("héllo")), Ok(BamlValue::String(x)) if x == "héllo"));
}

#[test]
fn refused_terms() {
    assert_eq!(term_to_baml_value(&ErlTerm::BigInt).err(), Some(TermError::NumberDecode));
    assert_eq!(term_to_baml_value(&ErlTerm::Binary(vec![0xff, 0xfe])).err(), Some(TermError::StringDecode));
    assert_eq!(term_to_baml_value(&ErlTerm::Tuple(vec![atom("ok"), ErlTerm::Int(1)])).err(), Some(TermError::TupleDecode));
    assert_eq!(term_to_baml_value(&ErlTerm::Other).err(), Some(TermError::Unsupported));
}

#[test]
fn errors_inside_containers_are_passed_on() {
    let l = ErlTerm::List(vec![ErlTerm::Int(1), ErlTerm::Other, ErlTerm::BigInt]);
    assert_eq!(term_to_baml_value(&l).err(), Some(TermError::Unsupported));
    let m = ErlTerm::MapTerm(vec![(ErlTerm::Int(1), ErlTerm::Int(2))]);
    assert_eq!(term_to_baml_value(&m).err(), Some(TermError::MapKeyType));
    let m = ErlTerm::MapTerm(vec![(ErlTerm::Binary(vec![0xc3]), ErlTerm::Int(2))]);
    assert_eq!(term_to_baml_value(&m).err(), Some(TermError::MapKeyDecode));
    let m = ErlTerm::MapTerm(vec![(atom("k"), ErlTerm::Tuple(vec![]))]);
    assert_eq!(term_to_baml_value(&m).err(), Some(TermError::TupleDecode));
}

#[test]
fn term_error_messages() {
    assert_eq!(TermError::NumberDecode.message(), "Failed to decode number");
    assert_eq!(TermError::StringDecode.message(), "Failed to decode string: BadArg");
    assert_eq!(TermError::MapKeyDecode.message(), "Failed to decode map key: BadArg");
    assert_eq!(TermError::MapKeyType.message(), "Map keys must be atoms or strings");
    assert_eq!(TermError::TupleDecode.message(), "Failed to decode tuple: BadArg");
    assert_eq!(TermError::Unsupported.message(), "Unsupported Erlang term type");
}

#[test]
fn lists_and_maps_to_values() {
    let l = ErlTerm::List(vec![ErlTerm::Int(1), atom("true")]);
    match term_to_baml_value(&l) {
        Ok(BamlValue::List(items)) => {
            assert_eq!(items.len(), 2);
            assert!(matches!(items[0], BamlValue::Int(1)));
            assert!(matches!(items[1], BamlValue::Bool(true)));
        }
        _ => panic!("not a list"),
    }
    let m = ErlTerm::MapTerm(vec![(atom("a"), ErlTerm::Int(1)), (bin("b"), atom("nil")), (bin("a"), ErlTerm::Int(3))]);
    match term_to_baml_value(&m) {
        Ok(BamlValue::MapValue(es)) => {
            assert_eq!(es.len(), 2);
            assert_eq!(es[0].0, "a");
            assert!(matches!(es[0].1, BamlValue::Int(3)));
            assert_eq!(es[1].0, "b");
            assert!(matches!(es[1].1, BamlValue::Null));
        }
        _ => panic!("not a map"),
    }
}

#[test]
fn values_to_terms() {
    assert!(is_atom(&baml_value_to_term(BamlValue::Null), "nil"));
    assert!(is_atom(&baml_value_to_term(BamlValue::Bool(true)), "true"));
    assert!(is_atom(&baml_value_to_term(BamlValue::Bool(false)), "false"));
    assert!(matches!(baml_value_to_term(BamlValue::Int(4)), ErlTerm::Int(4)));
    assert!(is_bin(&baml_value_to_term(BamlValue::String(s("hey"))), "hey"));
    match baml_value_to_term(BamlValue::List(vec![BamlValue::Int(1), BamlValue::Null])) {
        ErlTerm::List(items) => {
            assert_eq!(items.len(), 2);
            assert!(is_atom(&items[1], "nil"));
        }
        _ => panic!("not a list"),
    }
}

#[test]
fn map_keys_become_atoms_when_they_can() {
    let long = "k".repeat(300);
    let t = baml_value_to_term(BamlValue::MapValue(vec![(s("short"), BamlValue::Int(1)), (long.clone(), BamlValue::Int(2))]));
    match t {
        ErlTerm::MapTerm(ps) => {
            assert_eq!(ps.len(), 2);
            assert!(is_atom(&ps[0].0, "short"));
            assert!(is_bin(&ps[1].0, &long));
        }
        _ => panic!("not a map"),
    }
}

#[test]
fn tagged_values_to_terms() {
    match baml_value_to_term(BamlValue::Enum(s("Color"), s("Red"))) {
        ErlTerm::Tuple(items) => {
            assert!(is_atom(&items[0], "baml_enum"));
            match &items[1] {
                ErlTerm::Tuple(inner) => {
                    assert!(is_bin(&inner[0], "Color"));
                    assert!(is_bin(&inner[1], "Red"));
                }
                _ => panic!("not a tuple"),
            }
        }
        _ => panic!("not a tuple"),
    }
    match baml_value_to_term(BamlValue::Class(s("P"), vec![(s("x"), BamlValue::Int(1))])) {
        ErlTerm::Tuple(items) => {
            assert!(is_atom(&items[0], "baml_class"));
            match &items[1] {
                ErlTerm::Tuple(inner) => {
                    assert!(is_bin(&inner[0], "P"));
                    assert!(matches!(&inner[1], ErlTerm::MapTerm(ps) if ps.len() == 1));
                }
                _ => panic!("not a tuple"),
            }
        }
        _ => panic!("not a tuple"),
    }
    let m = BamlMedia { media_type: BamlMediaType::Audio, mime_type: None, content: BamlMediaContent::Url(s("u")) };
    match baml_value_to_term(BamlValue::Media(m)) {
        ErlTerm::Tuple(items) => {
            assert!(is_atom(&items[0], "baml_media"));
            match &items[1] {
                ErlTerm::Tuple(inner) => {
                    assert_eq!(inner.len(), 3);
                    assert!(is_atom(&inner[0], "audio"));
                    assert!(is_atom(&inner[1], "nil"));
                    match &inner[2] {
                        ErlTerm::Tuple(c) => {
                            assert!(is_atom(&c[0], "url"));
                            assert!(is_bin(&c[1], "u"));
                        }
                        _ => panic!("not a tuple"),
                    }
                }
                _ => panic!("not a tuple"),
            }
        }
        _ => panic!("not a tuple"),
    }
}

#[test]
fn term_round_trip_on_plain_values() {
    let v = BamlValue::MapValue(vec![
        (s("flag"), BamlValue::Bool(false)),
        (s("items"), BamlValue::List(vec![BamlValue::String(s("é")), BamlValue::Null, BamlValue::Int(-5)])),
    ]);
    match term_to_baml_value(&baml_value_to_term(v)) {
        Ok(BamlValue::MapValue(es)) => {
            assert_eq!(es.len(), 2);
            assert!(matches!(es[0].1, BamlValue::Bool(false)));
            match &es[1].1 {
                BamlValue::List(items) => {
                    assert!(matches!(&items[0], BamlValue::String(x) if x == "é"));
                    assert!(matches!(items[1], BamlValue::Null));
                    assert!(matches!(items[2], BamlValue::Int(-5)));
                }
                _ => panic!("not a list"),
            }
        }
        _ => panic!("not a map"),
    }
}

#[test]
fn improper_lists_stop_the_reading() {
    assert_eq!(read_term(&ErlTerm::ImproperList(vec![ErlTerm::Int(9)])).err(), Some(ReadError::ImproperList));
    let l = ErlTerm::List(vec![ErlTerm::Int(1), ErlTerm::ImproperList(vec![ErlTerm::Int(9)])]);
    assert_eq!(read_term(&l).err(), Some(ReadError::ImproperList));
    let first_error_wins = ErlTerm::List(vec![ErlTerm::Other, ErlTerm::ImproperList(vec![ErlTerm::Int(9)])]);
    assert_eq!(read_term(&first_error_wins).err(), Some(ReadError::Refused(TermError::Unsupported)));
    assert_eq!(term_to_baml_value(&first_error_wins).err(), Some(TermError::Unsupported));
    let bad_key_first = ErlTerm::MapTerm(vec![(ErlTerm::Int(0), ErlTerm::ImproperList(vec![ErlTerm::Int(9)]))]);
    assert_eq!(read_term(&bad_key_first).err(), Some(ReadError::Refused(TermError::MapKeyType)));
    let value_improper = ErlTerm::MapTerm(vec![(ErlTerm::Atom("k".to_string()), ErlTerm::ImproperList(vec![ErlTerm::Int(9)]))]);
    assert_eq!(read_term(&value_improper).err(), Some(ReadError::ImproperList));
    assert!(matches!(read_term(&ErlTerm::Int(3)), Ok(BamlValue::Int(3))));
}
