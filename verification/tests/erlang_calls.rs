use baml_gleam::erlang_calls::{
    call_input, call_reply, parse_runtime_context, read_context, status_reply, stream_reply, text_reply, ContextError,
    ContextStop,
};
use baml_gleam::erlang_term::ErlTerm;
use baml_gleam::value::BamlValue;

fn atom(x: &str) -> ErlTerm {
    ErlTerm::Atom(x.to_string())
}

fn bin(x: &str) -> ErlTerm {
    ErlTerm::Binary(x.as_bytes().to_vec())
}

fn is_atom(t: &ErlTerm, name: &str) -> bool {
    matches!(t, ErlTerm::Atom(a) if a == name)
}

fn is_bin(t: &ErlTerm, text: &str) -> bool {
    matches!(t, ErlTerm::Binary(b) if b.as_slice() == text.as_bytes())
}

fn tag_names(ctx: &baml_gleam::types::RuntimeContext) -> Vec<String> {
    ctx.tags.iter().map(|(k, _)| k.clone()).collect()
}

#[test]
fn context_tags_are_read() {
    let ctx = ErlTerm::MapTerm(vec![
        (bin("client_registry"), ErlTerm::Other),
        (bin("tags"), ErlTerm::List(vec![bin("a"), bin("b"), bin("a")])),
        (bin("other"), ErlTerm::Int(1)),
    ]);
    let c = parse_runtime_context(&ctx).unwrap();
    assert_eq!(tag_names(&c), vec!["a".to_string(), "b".to_string()]);
    assert!(matches!(&c.tags[1].1, BamlValue::String(v) if v == "b"));
}

#[test]
fn empty_context_map() {
    let c = parse_runtime_context(&ErlTerm::MapTerm(vec![])).unwrap();
    assert!(c.tags.is_empty());
}

#[test]
fn context_errors() {
    assert_eq!(parse_runtime_context(&ErlTerm::List(vec![])).err(), Some(ContextError::NotAMap));
    let atom_key = ErlTerm::MapTerm(vec![(atom("tags"), ErlTerm::List(vec![]))]);
    assert_eq!(parse_runtime_context(&atom_key).err(), Some(ContextError::KeyDecode));
    let bad_tags = ErlTerm::MapTerm(vec![(bin("tags"), ErlTerm::List(vec![bin("x"), atom("y")]))]);
    assert_eq!(parse_runtime_context(&bad_tags).err(), Some(ContextError::TagsDecode));
    let not_list = ErlTerm::MapTerm(vec![(bin("tags"), bin("x"))]);
    assert_eq!(parse_runtime_context(&not_list).err(), Some(ContextError::TagsDecode));
    assert_eq!(ContextError::NotAMap.message(), "Failed to decode context: BadArg");
    assert_eq!(ContextError::KeyDecode.message(), "Failed to decode context key: BadArg");
    assert_eq!(ContextError::TagsDecode.message(), "Failed to decode tags: BadArg");
}

#[test]
fn improper_tags_list() {
    let stops = ErlTerm::MapTerm(vec![(bin("tags"), ErlTerm::ImproperList(vec![bin("x")]))]);
    assert_eq!(read_context(&stops).err(), Some(ContextStop::ImproperList));
    let refused_first = ErlTerm::MapTerm(vec![(bin("tags"), ErlTerm::ImproperList(vec![ErlTerm::Int(1)]))]);
    assert_eq!(read_context(&refused_first).err(), Some(ContextStop::Refused(ContextError::TagsDecode)));
    assert_eq!(parse_runtime_context(&refused_first).err(), Some(ContextError::TagsDecode));
}

#[test]
fn call_input_reads_args_then_context() {
    let args = ErlTerm::MapTerm(vec![(atom("name"), bin("Ann"))]);
    let (v, ctx) = call_input(&args, &atom("nil")).unwrap();
    assert!(matches!(v, BamlValue::MapValue(ref es) if es.len() == 1 && es[0].0 == "name"));
    assert!(ctx.is_none());
    let ctx_term = ErlTerm::MapTerm(vec![(bin("tags"), ErlTerm::List(vec![bin("t")]))]);
    let (_, ctx) = call_input(&args, &ctx_term).unwrap();
    assert_eq!(tag_names(&ctx.unwrap()), vec!["t".to_string()]);
}

#[test]
fn call_input_errors() {
    let e = call_input(&ErlTerm::Other, &atom("nil")).unwrap_err();
    assert_eq!(e, "Unsupported Erlang term type");
    let e = call_input(&ErlTerm::Tuple(vec![]), &ErlTerm::Int(3)).unwrap_err();
    assert_eq!(e, "Failed to decode tuple: BadArg");
    let e = call_input(&ErlTerm::Int(1), &atom("none")).unwrap_err();
    assert_eq!(e, "Failed to decode context: BadArg");
}

#[test]
fn replies() {
    match call_reply(Ok(BamlValue::Int(5))) {
        ErlTerm::Tuple(items) => {
            assert_eq!(items.len(), 2);
            assert!(is_atom(&items[0], "ok"));
            assert!(matches!(items[1], ErlTerm::Int(5)));
        }
        _ => panic!("not a tuple"),
    }
    match call_reply(Err("boom".to_string())) {
        ErlTerm::Tuple(items) => {
            assert!(is_atom(&items[0], "error"));
            assert!(is_bin(&items[1], "boom"));
        }
        _ => panic!("not a tuple"),
    }
    match stream_reply(None) {
        ErlTerm::Tuple(items) => {
            assert_eq!(items.len(), 1);
            assert!(is_atom(&items[0], "done"));
        }
        _ => panic!("not a tuple"),
    }
    match stream_reply(Some(Ok(BamlValue::Null))) {
        ErlTerm::Tuple(items) => {
            assert!(is_atom(&items[0], "ok"));
            assert!(is_atom(&items[1], "nil"));
        }
        _ => panic!("not a tuple"),
    }
    match text_reply(Ok("{\"types\":[]}".to_string())) {
        ErlTerm::Tuple(items) => {
            assert!(is_atom(&items[0], "ok"));
            assert!(is_bin(&items[1], "{\"types\":[]}"));
        }
        _ => panic!("not a tuple"),
    }
    assert!(is_atom(&status_reply(Ok(())), "ok"));
    match status_reply(Err("bad level".to_string())) {
        ErlTerm::Tuple(items) => {
            assert!(is_atom(&items[0], "error"));
            assert!(is_bin(&items[1], "bad level"));
        }
        _ => panic!("not a tuple"),
    }
}
