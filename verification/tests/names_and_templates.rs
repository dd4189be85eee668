use std::sync::Arc;

use baml_gleam::functions::{render_client, render_ffi, render_runtime};
use baml_gleam::generated_types::{
    field_name, gleam_type_name, render_gleam_types_utils, render_type_aliases, FieldGleam, TypeAliasGleam,
    TypeAliasesTemplate,
};
use baml_gleam::get_version;
use baml_gleam::gleam_type::TypeGleam;
use baml_gleam::ir::IntermediateRepr;
use baml_gleam::package::CurrentRenderPackage;
use baml_gleam::templates::{escape_string, GleamFFI};

fn pkg() -> CurrentRenderPackage {
    CurrentRenderPackage::new("baml", Arc::new(IntermediateRepr { expandable_aliases: vec![] }))
}

#[test]
fn type_name_from_snake_case() {
    assert_eq!(gleam_type_name("user_profile"), "UserProfile");
    assert_eq!(gleam_type_name("a_b_c"), "ABC");
    assert_eq!(gleam_type_name("already"), "Already");
    assert_eq!(gleam_type_name("double__under"), "DoubleUnder");
    assert_eq!(gleam_type_name("_leading"), "Leading");
    assert_eq!(gleam_type_name(""), "");
    assert_eq!(gleam_type_name("keepCase_x"), "KeepCaseX");
}

#[test]
fn type_name_uses_full_uppercase_mapping() {
    assert_eq!(gleam_type_name("ßtraße"), "SStraße");
    assert_eq!(gleam_type_name("élan_vital"), "ÉlanVital");
}

#[test]
fn field_name_from_camel_case() {
    assert_eq!(field_name("firstName"), "first_name");
    assert_eq!(field_name("FirstName"), "first_name");
    assert_eq!(field_name("already_snake"), "already_snake");
    assert_eq!(field_name("HTTPCode"), "h_t_t_p_code");
    assert_eq!(field_name(""), "");
    assert_eq!(field_name("x1Y"), "x1_y");
}

#[test]
fn field_name_lowercases_unicode_capitals() {
    assert_eq!(field_name("ÉtatCivil"), "état_civil");
}

#[test]
fn field_name_of_type_name_is_snake_case() {
    let t = gleam_type_name("order_line_item");
    assert_eq!(t, "OrderLineItem");
    assert_eq!(field_name(&t), "order_line_item");
}

#[test]
fn escape_special_characters() {
    assert_eq!(escape_string("plain"), "plain");
    assert_eq!(escape_string("say \"hi\""), "say \\\"hi\\\"");
    assert_eq!(escape_string("a\\b"), "a\\\\b");
    assert_eq!(escape_string("l1\nl2\r\tend"), "l1\\nl2\\r\\tend");
    assert_eq!(escape_string(""), "");
}

#[test]
fn escaped_text_has_no_raw_line_breaks() {
    let e = escape_string("x\ny\rz\t");
    assert!(!e.contains('\n'));
    assert!(!e.contains('\r'));
    assert!(!e.contains('\t'));
}

#[test]
fn field_renders_doc_and_snake_name() {
    let p = pkg();
    let f = FieldGleam {
        docstring: Some("The name".to_string()),
        name: "firstName".to_string(),
        type_: TypeGleam::String(None),
        pkg: &p,
    };
    assert_eq!(f.render(), "/// The name\nfirst_name: String");
    let g = FieldGleam {
        docstring: None,
        name: "tags".to_string(),
        type_: TypeGleam::List(Box::new(TypeGleam::Class {
            module: "baml_types".to_string(),
            name: "Tag".to_string(),
            dynamic: false,
        })),
        pkg: &p,
    };
    assert_eq!(g.render(), "\ntags: List(baml_types.Tag)");
}

#[test]
fn type_alias_renders() {
    let p = pkg();
    let a = TypeAliasGleam { name: "Names".to_string(), type_: TypeGleam::List(Box::new(TypeGleam::String(None))), docstring: None, pkg: &p };
    assert_eq!(a.render(), "\npub type Names = List(String)");
    let b = TypeAliasGleam { name: "Id".to_string(), type_: TypeGleam::Int(None), docstring: Some("An id".to_string()), pkg: &p };
    assert_eq!(b.render(), "/// An id\npub type Id = Int");
}

#[test]
fn type_aliases_render_in_order() {
    let p = pkg();
    let aliases = vec![
        TypeAliasGleam { name: "A".to_string(), type_: TypeGleam::Int(None), docstring: None, pkg: &p },
        TypeAliasGleam { name: "B".to_string(), type_: TypeGleam::Bool(None), docstring: Some("b".to_string()), pkg: &p },
    ];
    let text = render_type_aliases(&aliases).unwrap();
    assert_eq!(text, "\n\npub type A = Int\n\n/// b\npub type B = Bool\n");
    let again = TypeAliasesTemplate { aliases: &aliases }.render().unwrap();
    assert_eq!(again, text);
    assert_eq!(render_type_aliases(&[]).unwrap(), "");
}

#[test]
fn types_utils_module() {
    let text = render_gleam_types_utils(&pkg()).unwrap();
    assert!(text.starts_with("import gleam/dynamic.{type Dynamic}\n"));
    assert!(text.contains("pub type Checked(a) = Result(a, List(String))"));
    assert!(text.ends_with("pub type Pdf = baml_gleam.Pdf"));
}

#[test]
fn module_headers() {
    let p = pkg();
    assert_eq!(render_client(&p).unwrap(), "//// Generated BAML client\n");
    assert_eq!(render_runtime(&p).unwrap(), "//// Generated BAML runtime\n");
    assert_eq!(render_ffi(&p).unwrap(), "//// Generated BAML FFI bindings\n");
}

#[test]
fn ffi_passes_text_or_error_on() {
    let ffi = GleamFFI;
    assert_eq!(ffi.render(Ok("module text".to_string())).unwrap(), "module text");
    let err = ffi.render(Err(askama::Error::ValueMissing)).unwrap_err();
    assert_eq!(err.to_string(), "key missing in values");
}

#[test]
fn version() {
    assert_eq!(get_version(), "0.1.0");
}
