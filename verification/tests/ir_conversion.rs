use std::sync::Arc;

use baml_gleam::gleam_type::{MediaTypeGleam, TypeGleam};
use baml_gleam::ir::{
    BamlMediaType, ClassWalker, EnumValueWalker, EnumWalker, FieldWalker, FunctionNode, IntermediateRepr, IrType,
    LiteralValue, TypeAlias, TypeValue, UnionTypeView,
};
use baml_gleam::ir_to_gleam::{
    contains_top, ir_class_to_gleam, ir_class_to_gleam_stream, ir_enum_to_gleam, ir_function_to_gleam,
    ir_type_alias_to_gleam, ir_union_to_gleam, stream_type_to_gleam, type_to_gleam,
};
use baml_gleam::package::CurrentRenderPackage;

fn ir() -> IntermediateRepr {
    IntermediateRepr { expandable_aliases: vec!["Json".to_string()] }
}

fn prim(t: TypeValue) -> IrType {
    IrType::Primitive(t)
}

fn class(name: &str) -> IrType {
    IrType::Class { name: name.to_string(), dynamic: false }
}

fn field(name: &str, t: IrType, dynamic: bool) -> FieldWalker {
    FieldWalker {
        name: name.to_string(),
        field_type: t,
        stream_type: prim(TypeValue::Int),
        description: Some(format!("{} doc", name)),
        dynamic,
    }
}

#[test]
fn primitives_and_literals() {
    let l = ir();
    assert_eq!(type_to_gleam(&prim(TypeValue::String), &l), TypeGleam::String(None));
    assert_eq!(type_to_gleam(&prim(TypeValue::Null), &l), TypeGleam::Nil);
    assert_eq!(
        type_to_gleam(&prim(TypeValue::Media(BamlMediaType::Image)), &l),
        TypeGleam::Media(MediaTypeGleam::Image)
    );
    assert_eq!(
        type_to_gleam(&IrType::Literal(LiteralValue::String("hi".to_string())), &l),
        TypeGleam::String(Some("hi".to_string()))
    );
    assert_eq!(type_to_gleam(&IrType::Literal(LiteralValue::Int(-4)), &l), TypeGleam::Int(Some(-4)));
    assert_eq!(type_to_gleam(&IrType::Literal(LiteralValue::Bool(true)), &l), TypeGleam::Bool(Some(true)));
}

#[test]
fn named_types_live_in_baml_types() {
    let l = ir();
    assert_eq!(
        type_to_gleam(&IrType::Enum { name: "Color".to_string(), dynamic: true }, &l),
        TypeGleam::Enum { module: "baml_types".to_string(), name: "Color".to_string(), dynamic: true }
    );
    assert_eq!(
        type_to_gleam(&class("Person"), &l),
        TypeGleam::Class { module: "baml_types".to_string(), name: "Person".to_string(), dynamic: false }
    );
}

#[test]
fn containers() {
    let l = ir();
    let t = IrType::MapType(Box::new(prim(TypeValue::String)), Box::new(IrType::List(Box::new(prim(TypeValue::Float)))));
    assert_eq!(
        type_to_gleam(&t, &l),
        TypeGleam::Dict(Box::new(TypeGleam::String(None)), Box::new(TypeGleam::List(Box::new(TypeGleam::Float))))
    );
}

#[test]
fn recursive_aliases() {
    let l = ir();
    assert_eq!(
        type_to_gleam(&IrType::RecursiveTypeAlias { name: "Json".to_string() }, &l),
        TypeGleam::TypeAlias { module: "baml_types".to_string(), name: "Json".to_string() }
    );
    assert_eq!(
        type_to_gleam(&IrType::RecursiveTypeAlias { name: "Tree".to_string() }, &l),
        TypeGleam::Dynamic { reason: "Recursive type alias Tree is not yet supported".to_string() }
    );
}

#[test]
fn tuples_and_arrows_are_dynamic() {
    let l = ir();
    assert_eq!(
        type_to_gleam(&IrType::Tuple, &l),
        TypeGleam::Dynamic { reason: "Tuples are not directly supported in Gleam, using Dynamic".to_string() }
    );
    assert_eq!(
        type_to_gleam(&IrType::Arrow, &l),
        TypeGleam::Dynamic { reason: "Arrow types are not supported in Gleam".to_string() }
    );
}

#[test]
fn unions() {
    let l = ir();
    assert_eq!(type_to_gleam(&IrType::Union(UnionTypeView::Null), &l), TypeGleam::Nil);
    assert_eq!(
        type_to_gleam(&IrType::Union(UnionTypeView::Optional(Box::new(prim(TypeValue::Int)))), &l),
        TypeGleam::Option(Box::new(TypeGleam::Int(None)))
    );
    let three = IrType::Union(UnionTypeView::OneOf(vec![prim(TypeValue::Int), prim(TypeValue::String), class("A")]));
    assert_eq!(
        type_to_gleam(&three, &l),
        TypeGleam::Union { module: "baml_types".to_string(), name: "Union3".to_string() }
    );
    let twelve = IrType::Union(UnionTypeView::OneOfOptional((0..12).map(|_| prim(TypeValue::Bool)).collect()));
    assert_eq!(
        type_to_gleam(&twelve, &l),
        TypeGleam::Option(Box::new(TypeGleam::Union { module: "baml_types".to_string(), name: "Union12".to_string() }))
    );
}

#[test]
fn top_is_detected() {
    assert!(contains_top(&IrType::Top));
    assert!(contains_top(&IrType::List(Box::new(IrType::Top))));
    assert!(contains_top(&IrType::Union(UnionTypeView::OneOf(vec![prim(TypeValue::Int), IrType::Top]))));
    assert!(!contains_top(&IrType::Tuple));
    assert!(!contains_top(&class("A")));
}

#[test]
fn streaming_types() {
    let l = ir();
    assert_eq!(stream_type_to_gleam(&prim(TypeValue::Bool), &l), TypeGleam::Bool(None));
    assert_eq!(
        stream_type_to_gleam(&class("P"), &l),
        TypeGleam::Class { module: "baml_stream_types".to_string(), name: "P".to_string(), dynamic: false }
    );
    assert_eq!(
        stream_type_to_gleam(&IrType::Enum { name: "E".to_string(), dynamic: false }, &l),
        TypeGleam::Enum { module: "baml_stream_types".to_string(), name: "E".to_string(), dynamic: false }
    );
    assert_eq!(
        stream_type_to_gleam(&IrType::List(Box::new(prim(TypeValue::Int))), &l),
        TypeGleam::Dynamic { reason: "Streaming types not fully implemented yet".to_string() }
    );
    assert_eq!(
        stream_type_to_gleam(&IrType::Top, &l),
        TypeGleam::Dynamic { reason: "Streaming types not fully implemented yet".to_string() }
    );
}

#[test]
fn union_type_for_optional_union() {
    let p = CurrentRenderPackage::new("b", Arc::new(ir()));
    let t = IrType::Union(UnionTypeView::OneOfOptional(vec![prim(TypeValue::Int), prim(TypeValue::String)]));
    let u = ir_union_to_gleam(&t, &p).unwrap();
    assert_eq!(u.name, "Union3");
    assert_eq!(u.cffi_name, "UnionUnion3");
    assert!(u.docstring.is_none());
    assert_eq!(u.variants.len(), 3);
    assert_eq!(u.variants[0].name, "Variant0");
    assert_eq!(u.variants[0].cffi_name, "UnionUnion3_Variant0");
    assert_eq!(u.variants[0].type_, TypeGleam::Int(None));
    assert_eq!(u.variants[1].type_, TypeGleam::String(None));
    assert_eq!(u.variants[2].name, "Variant2");
    assert_eq!(u.variants[2].type_, TypeGleam::Nil);
    assert!(u.variants[2].literal_repr.is_none());
}

#[test]
fn union_type_for_plain_union_and_non_union() {
    let p = CurrentRenderPackage::new("b", Arc::new(ir()));
    let t = IrType::Union(UnionTypeView::OneOf(vec![class("A"), class("B")]));
    let u = ir_union_to_gleam(&t, &p).unwrap();
    assert_eq!(u.name, "Union2");
    assert_eq!(u.variants.len(), 2);
    assert_eq!(u.variants[1].cffi_name, "UnionUnion2_Variant1");
    let o = ir_union_to_gleam(&IrType::Union(UnionTypeView::Optional(Box::new(class("A")))), &p).unwrap();
    assert_eq!(o.name, "Union2");
    assert_eq!(o.variants[1].type_, TypeGleam::Nil);
    let n = ir_union_to_gleam(&IrType::Union(UnionTypeView::Null), &p).unwrap();
    assert_eq!(n.name, "Union1");
    assert!(ir_union_to_gleam(&class("A"), &p).is_none());
}

#[test]
fn class_keeps_declared_fields() {
    let p = CurrentRenderPackage::new("b", Arc::new(ir()));
    let c = ClassWalker {
        name: "Person".to_string(),
        description: Some("A person".to_string()),
        fields: vec![
            field("name", prim(TypeValue::String), false),
            field("extra", prim(TypeValue::Int), true),
            field("age", prim(TypeValue::Int), false),
        ],
    };
    let g = ir_class_to_gleam(&c, &p);
    assert_eq!(g.name, "Person");
    assert_eq!(g.docstring.as_deref(), Some("A person"));
    assert!(g.dynamic);
    assert_eq!(g.fields.len(), 2);
    assert_eq!(g.fields[0].name, "name");
    assert_eq!(g.fields[0].docstring.as_deref(), Some("name doc"));
    assert_eq!(g.fields[0].type_, TypeGleam::String(None));
    assert_eq!(g.fields[1].name, "age");
    assert_eq!(g.fields[1].type_, TypeGleam::Int(None));
}

#[test]
fn class_stream_uses_stream_types() {
    let p = CurrentRenderPackage::new("b", Arc::new(ir()));
    let c = ClassWalker {
        name: "P".to_string(),
        description: None,
        fields: vec![field("a", prim(TypeValue::String), false)],
    };
    let g = ir_class_to_gleam_stream(&c, &p);
    assert!(!g.dynamic);
    assert_eq!(g.fields.len(), 1);
    assert_eq!(g.fields[0].type_, TypeGleam::Int(None));
}

#[test]
fn enum_values_in_order() {
    let p = CurrentRenderPackage::new("b", Arc::new(ir()));
    let e = EnumWalker {
        name: "Color".to_string(),
        description: None,
        values: vec![
            EnumValueWalker { name: "Red".to_string(), description: Some("warm".to_string()) },
            EnumValueWalker { name: "Blue".to_string(), description: None },
        ],
    };
    let g = ir_enum_to_gleam(&e, &p);
    assert_eq!(g.name, "Color");
    assert!(!g.dynamic);
    assert_eq!(g.values, vec![("Red".to_string(), Some("warm".to_string())), ("Blue".to_string(), None)]);
}

#[test]
fn function_signature() {
    let p = CurrentRenderPackage::new("b", Arc::new(ir()));
    let f = FunctionNode {
        name: "Extract".to_string(),
        inputs: vec![("text".to_string(), prim(TypeValue::String)), ("n".to_string(), prim(TypeValue::Int))],
        output: class("Resume"),
    };
    let g = ir_function_to_gleam(&f, &p);
    assert_eq!(g.name, "Extract");
    assert_eq!(g.params.len(), 2);
    assert_eq!(g.params[0].name, "text");
    assert_eq!(g.params[1].type_, TypeGleam::Int(None));
    assert_eq!(
        g.return_type,
        TypeGleam::Class { module: "baml_types".to_string(), name: "Resume".to_string(), dynamic: false }
    );
}

#[test]
fn type_alias() {
    let p = CurrentRenderPackage::new("b", Arc::new(ir()));
    let a = TypeAlias { name: "Names".to_string(), target: IrType::List(Box::new(prim(TypeValue::String))) };
    let g = ir_type_alias_to_gleam(&a, &p);
    assert_eq!(g.name, "Names");
    assert_eq!(g.type_, TypeGleam::List(Box::new(TypeGleam::String(None))));
}
