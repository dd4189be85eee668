use baml_gleam::errors::BamlError;
use baml_gleam::ir::BamlMediaType;
use baml_gleam::json::JsonValue;
use baml_gleam::types::{
    media_from_bytes, BamlAudio, BamlImage, BamlPdf, BamlVideo, ClientConfig, ClientRegistry, RuntimeContextBuilder,
};
use baml_gleam::value::{BamlMedia, BamlMediaContent, BamlValue};

fn config(model: &str) -> ClientConfig {
    ClientConfig {
        provider: "acme".to_string(),
        model: model.to_string(),
        api_key: None,
        base_url: None,
        options: vec![("temperature".to_string(), JsonValue::Null)],
    }
}

fn base64_of(m: &BamlMedia) -> &str {
    match &m.content {
        BamlMediaContent::Base64(b) => b.as_str(),
        _ => panic!("not base64"),
    }
}

#[test]
fn registry_read_after_write() {
    let mut r = ClientRegistry::new();
    assert!(r.get_client("primary").is_none());
    r.add_client("primary".to_string(), config("model-a"));
    r.add_client("backup".to_string(), config("model-c"));
    assert_eq!(r.get_client("primary").unwrap().model, "model-a");
    assert_eq!(r.get_client("backup").unwrap().model, "model-c");
    assert!(r.get_client("other").is_none());
}

#[test]
fn registry_replaces_a_name() {
    let mut r = ClientRegistry::new();
    r.add_client("primary".to_string(), config("model-a"));
    r.add_client("primary".to_string(), config("model-b"));
    assert_eq!(r.get_client("primary").unwrap().model, "model-b");
    assert_eq!(r.list_clients(), vec!["primary".to_string()]);
}

#[test]
fn registry_lists_each_name_once() {
    let mut r = ClientRegistry::new();
    assert!(r.list_clients().is_empty());
    r.add_client("a".to_string(), config("1"));
    r.add_client("b".to_string(), config("2"));
    r.add_client("a".to_string(), config("3"));
    let mut names = r.list_clients();
    names.sort();
    assert_eq!(names, vec!["a".to_string(), "b".to_string()]);
}

#[test]
fn context_holds_each_tag_under_its_name() {
    let mut b = RuntimeContextBuilder::new();
    b.add_tag("env".to_string()).add_tag("test".to_string()).add_tag("env".to_string());
    let mut reg = ClientRegistry::new();
    reg.add_client("c".to_string(), config("m"));
    b.with_client_registry(reg);
    assert_eq!(b.tags.len(), 3);
    assert!(b.client_registry.is_some());
    let ctx = b.build();
    assert_eq!(ctx.tags.len(), 2);
    assert_eq!(ctx.tags[0].0, "env");
    assert!(matches!(&ctx.tags[0].1, BamlValue::String(v) if v == "env"));
    assert_eq!(ctx.tags[1].0, "test");
    assert!(matches!(&ctx.tags[1].1, BamlValue::String(v) if v == "test"));
}

#[test]
fn empty_context() {
    let b = RuntimeContextBuilder::new();
    assert!(b.tags.is_empty());
    assert!(b.client_registry.is_none());
    assert!(b.build().tags.is_empty());
}

#[test]
fn media_from_bytes_encodes_base64() {
    let m = media_from_bytes(BamlMediaType::Image, "image/png".to_string(), &b"hello".to_vec());
    assert_eq!(m.media_type, BamlMediaType::Image);
    assert_eq!(m.mime_type.as_deref(), Some("image/png"));
    assert_eq!(base64_of(&m), "aGVsbG8=");
    let e = media_from_bytes(BamlMediaType::Pdf, "application/pdf".to_string(), &vec![]);
    assert_eq!(base64_of(&e), "");
}

#[test]
fn media_kinds_from_data() {
    let i: BamlMedia = BamlImage { mime_type: "image/jpeg".to_string(), data: vec![0, 1, 2] }.into();
    assert_eq!(i.media_type, BamlMediaType::Image);
    assert_eq!(i.mime_type.as_deref(), Some("image/jpeg"));
    assert_eq!(base64_of(&i), "AAEC");
    let a: BamlMedia = BamlAudio { mime_type: "audio/mp3".to_string(), data: b"ab".to_vec() }.into();
    assert_eq!(a.media_type, BamlMediaType::Audio);
    assert_eq!(base64_of(&a), "YWI=");
    let p: BamlMedia = BamlPdf { mime_type: "application/pdf".to_string(), data: b"abc".to_vec() }.into();
    assert_eq!(p.media_type, BamlMediaType::Pdf);
    assert_eq!(base64_of(&p), "YWJj");
    let v: BamlMedia = BamlVideo { mime_type: "video/mp4".to_string(), data: vec![255] }.into();
    assert_eq!(v.media_type, BamlMediaType::Video);
    assert_eq!(base64_of(&v), "/w==");
}

#[test]
fn media_from_base64_text() {
    let m = BamlMedia::base64(BamlMediaType::Audio, "QUJD".to_string(), None);
    assert_eq!(m.media_type, BamlMediaType::Audio);
    assert!(m.mime_type.is_none());
    assert_eq!(base64_of(&m), "QUJD");
}

#[test]
fn baml_error_messages() {
    assert_eq!(BamlError::InitError("x".to_string()).to_string(), "Runtime initialization error: x");
    assert_eq!(BamlError::CallError("y".to_string()).to_string(), "Function call error: y");
    assert_eq!(BamlError::ConversionError("z".to_string()).to_string(), "Type conversion error: z");
    assert_eq!(BamlError::StreamError("s".to_string()).to_string(), "Streaming error: s");
    assert_eq!(BamlError::Other("o".to_string()).to_string(), "Error: o");
}

#[test]
fn errors_from_outside_errors() {
    let e: BamlError = anyhow::Error::msg("runtime failed").into();
    assert!(matches!(&e, BamlError::Other(m) if m == "runtime failed"));
    assert_eq!(e.to_string(), "Error: runtime failed");
    let j = serde_json::from_str::<u8>("x").unwrap_err();
    let text = j.to_string();
    let e: BamlError = j.into();
    assert!(matches!(&e, BamlError::ConversionError(m) if *m == text));
}

#[test]
fn clones_keep_contents() {
    let mut r = ClientRegistry::new();
    r.add_client("primary".to_string(), config("model-a"));
    let copy = r.clone();
    r.add_client("primary".to_string(), config("model-b"));
    assert_eq!(copy.get_client("primary").unwrap().model, "model-a");
    assert_eq!(copy.get_client("primary").unwrap().options.len(), 1);
    assert_eq!(r.get_client("primary").unwrap().model, "model-b");
    let v = BamlValue::List(vec![BamlValue::MapValue(vec![("k".to_string(), BamlValue::Float(7))]), BamlValue::Null]);
    let w = v.clone();
    assert!(matches!(&w, BamlValue::List(items) if items.len() == 2
        && matches!(&items[0], BamlValue::MapValue(es) if es[0].0 == "k" && matches!(es[0].1, BamlValue::Float(7)))));
    let j = JsonValue::Object(vec![("a".to_string(), JsonValue::Array(vec![JsonValue::Bool(true)]))]);
    assert!(matches!(j.clone(), JsonValue::Object(es) if es.len() == 1
        && matches!(&es[0].1, JsonValue::Array(items) if matches!(items[0], JsonValue::Bool(true)))));
}
