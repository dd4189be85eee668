use std::sync::Arc;

use baml_gleam::gleam_type::{MediaTypeGleam, TypeGleam};
use baml_gleam::ir::{BamlMediaType, IntermediateRepr, TypeValue};
use baml_gleam::package::CurrentRenderPackage;

fn pkg(module: &str) -> CurrentRenderPackage {
    let mut p = CurrentRenderPackage::new("baml", Arc::new(IntermediateRepr { expandable_aliases: vec![] }));
    p.set(module);
    p
}

fn class(module: &str, name: &str) -> TypeGleam {
    TypeGleam::Class { module: module.to_string(), name: name.to_string(), dynamic: false }
}

#[test]
fn new_package_starts_in_client_module() {
    let p = CurrentRenderPackage::new("my_pkg", Arc::new(IntermediateRepr { expandable_aliases: vec![] }));
    assert_eq!(p.name, "my_pkg");
    assert_eq!(p.current_module, "baml_client");
}

#[test]
fn set_changes_current_module() {
    let mut p = CurrentRenderPackage::new("my_pkg", Arc::new(IntermediateRepr { expandable_aliases: vec![] }));
    p.set("baml_types");
    assert_eq!(p.current_module, "baml_types");
    assert_eq!(p.name, "my_pkg");
}

#[test]
fn is_optional_only_for_option() {
    assert!(TypeGleam::Option(Box::new(TypeGleam::Int(None))).is_optional());
    assert!(!TypeGleam::Int(None).is_optional());
    assert!(!TypeGleam::Nil.is_optional());
}

#[test]
fn make_optional_wraps_once() {
    let t = TypeGleam::String(None).make_optional();
    assert_eq!(t, TypeGleam::Option(Box::new(TypeGleam::String(None))));
    let again = t.clone().make_optional();
    assert_eq!(again, t);
}

#[test]
fn serialize_primitives() {
    let p = pkg("baml_client");
    assert_eq!(TypeGleam::String(Some("x".to_string())).serialize_type(&p), "String");
    assert_eq!(TypeGleam::Int(Some(3)).serialize_type(&p), "Int");
    assert_eq!(TypeGleam::Float.serialize_type(&p), "Float");
    assert_eq!(TypeGleam::Bool(None).serialize_type(&p), "Bool");
    assert_eq!(TypeGleam::Nil.serialize_type(&p), "Nil");
    assert_eq!(TypeGleam::Dynamic { reason: "r".to_string() }.serialize_type(&p), "Dynamic");
}

#[test]
fn serialize_media() {
    let p = pkg("baml_client");
    assert_eq!(TypeGleam::Media(MediaTypeGleam::Image).serialize_type(&p), "baml_types.Image");
    assert_eq!(TypeGleam::Media(MediaTypeGleam::Audio).serialize_type(&p), "baml_types.Audio");
    assert_eq!(MediaTypeGleam::Pdf.serialize_type(&p), "baml_types.Pdf");
    assert_eq!(MediaTypeGleam::Video.serialize_type(&p), "baml_types.Video");
}

#[test]
fn serialize_named_types_qualifies_other_modules() {
    let p = pkg("baml_client");
    assert_eq!(class("baml_types", "Person").serialize_type(&p), "baml_types.Person");
    assert_eq!(class("baml_client", "Person").serialize_type(&p), "Person");
    let e = TypeGleam::Enum { module: "baml_types".to_string(), name: "Color".to_string(), dynamic: true };
    assert_eq!(e.serialize_type(&p), "baml_types.Color");
    assert_eq!(e.serialize_type(&pkg("baml_types")), "Color");
    let a = TypeGleam::TypeAlias { module: "m".to_string(), name: "A".to_string() };
    assert_eq!(a.serialize_type(&p), "m.A");
    let u = TypeGleam::Union { module: "baml_client".to_string(), name: "Union2".to_string() };
    assert_eq!(u.serialize_type(&p), "Union2");
}

#[test]
fn serialize_containers() {
    let p = pkg("baml_client");
    let t = TypeGleam::Dict(
        Box::new(TypeGleam::String(None)),
        Box::new(TypeGleam::List(Box::new(TypeGleam::Option(Box::new(class("baml_types", "P")))))),
    );
    assert_eq!(t.serialize_type(&p), "Dict(String, List(Option(baml_types.P)))");
    let r = TypeGleam::Result { ok: Box::new(TypeGleam::Int(None)), error: Box::new(TypeGleam::String(None)) };
    assert_eq!(r.serialize_type(&p), "Result(Int, String)");
}

#[test]
fn display_uses_bare_names() {
    let t = TypeGleam::List(Box::new(class("baml_types", "Person")));
    assert_eq!(t.to_string(), "List(Person)");
    assert_eq!(TypeGleam::Media(MediaTypeGleam::Pdf).to_string(), "Pdf");
    let r = TypeGleam::Result { ok: Box::new(TypeGleam::Nil), error: Box::new(TypeGleam::Float) };
    assert_eq!(r.to_string(), "Result(Nil, Float)");
    let d = TypeGleam::Dict(Box::new(TypeGleam::String(None)), Box::new(TypeGleam::Bool(None)));
    assert_eq!(d.to_string(), "Dict(String, Bool)");
    assert_eq!(TypeGleam::Dynamic { reason: "x".to_string() }.to_string(), "Dynamic");
}

#[test]
fn from_type_value() {
    assert_eq!(TypeGleam::from(&TypeValue::String), TypeGleam::String(None));
    assert_eq!(TypeGleam::from(&TypeValue::Int), TypeGleam::Int(None));
    assert_eq!(TypeGleam::from(&TypeValue::Float), TypeGleam::Float);
    assert_eq!(TypeGleam::from(&TypeValue::Bool), TypeGleam::Bool(None));
    assert_eq!(TypeGleam::from(&TypeValue::Null), TypeGleam::Nil);
    assert_eq!(
        TypeGleam::from(&TypeValue::Media(BamlMediaType::Audio)),
        TypeGleam::Media(MediaTypeGleam::Audio)
    );
    assert_eq!(MediaTypeGleam::from(&BamlMediaType::Video), MediaTypeGleam::Video);
}

#[test]
fn equality_compares_contents() {
    assert_eq!(class("m", "A"), class("m", "A"));
    assert_ne!(class("m", "A"), class("n", "A"));
    assert_ne!(TypeGleam::Int(Some(1)), TypeGleam::Int(None));
    assert_ne!(TypeGleam::String(Some("a".to_string())), TypeGleam::String(Some("b".to_string())));
}
