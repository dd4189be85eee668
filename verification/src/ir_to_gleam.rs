use vstd::prelude::*;

use crate::generated_types::{ClassGleam, EnumGleam, FieldGleam, UnionGleam, VariantGleam};
use crate::gleam_type::{opt_string_view, primitive_gleam, TypeGleam, TypeGleamView};
use crate::ir::{
    ClassWalker, EnumValueWalker, EnumWalker, FieldWalker, FunctionNode, IntermediateRepr, IrType, LiteralValue,
    TypeAlias, TypeValue, UnionTypeView,
};
use crate::package::CurrentRenderPackage;
use crate::text::{concat2, decimal, with_decimal};

verus! {

broadcast use vstd::std_specs::vec::group_vec_axioms;

/// Whether converting `t` reaches the `Top` type, which the compiler should
/// have resolved away; the conversion refuses it.
pub open spec fn reaches_top(t: IrType) -> bool
    decreases t,
{
    match t {
        IrType::Top => true,
        IrType::List(inner) => reaches_top(*inner),
        IrType::MapType(k, v) => reaches_top(*k) || reaches_top(*v),
        IrType::Union(view) => match view {
            UnionTypeView::Null => false,
            UnionTypeView::Optional(inner) => reaches_top(*inner),
            UnionTypeView::OneOf(ts) => exists|i: int| 0 <= i < ts.len() && reaches_top(#[trigger] ts[i]),
            UnionTypeView::OneOfOptional(ts) => exists|i: int|
                0 <= i < ts.len() && reaches_top(#[trigger] ts[i]),
        },
        _ => false,
    }
}

/// The name given to a union type of `n` members.
pub open spec fn union_name(n: nat) -> Seq<char> {
    "Union"@ + decimal(n)
}

/// The Gleam type for a (non-streaming) BAML type; named types live in
/// the `baml_types` module. `Top`, which the conversion refuses, is given
/// `Nil` here only so that the definition is total.
pub open spec fn gleam_of(t: IrType, lookup: IntermediateRepr) -> TypeGleamView
    decreases t,
{
    match t {
        IrType::Primitive(tv) => primitive_gleam(tv),
        IrType::Enum { name, dynamic } => TypeGleamView::Enum { module: "baml_types"@, name: name@, dynamic },
        IrType::Literal(lit) => match lit {
            LiteralValue::String(v) => TypeGleamView::String(Some(v@)),
            LiteralValue::Int(v) => TypeGleamView::Int(Some(v)),
            LiteralValue::Bool(v) => TypeGleamView::Bool(Some(v)),
        },
        IrType::Class { name, dynamic } => TypeGleamView::Class { module: "baml_types"@, name: name@, dynamic },
        IrType::List(inner) => TypeGleamView::List(Box::new(gleam_of(*inner, lookup))),
        IrType::MapType(k, v) => TypeGleamView::Dict(
            Box::new(gleam_of(*k, lookup)),
            Box::new(gleam_of(*v, lookup)),
        ),
        IrType::RecursiveTypeAlias { name } => if !lookup.can_expand(name@) {
            TypeGleamView::Dynamic {
                reason: "Recursive type alias "@ + name@ + " is not yet supported"@,
            }
        } else {
            TypeGleamView::TypeAlias { module: "baml_types"@, name: name@ }
        },
        IrType::Tuple => TypeGleamView::Dynamic {
            reason: "Tuples are not directly supported in Gleam, using Dynamic"@,
        },
        IrType::Arrow => TypeGleamView::Dynamic { reason: "Arrow types are not supported in Gleam"@ },
        IrType::Union(view) => match view {
            UnionTypeView::Null => TypeGleamView::Nil,
            UnionTypeView::Optional(inner) => TypeGleamView::Option(Box::new(gleam_of(*inner, lookup))),
            UnionTypeView::OneOf(ts) => TypeGleamView::Union {
                module: "baml_types"@,
                name: union_name(ts.len() as nat),
            },
            UnionTypeView::OneOfOptional(ts) => TypeGleamView::Option(
                Box::new(TypeGleamView::Union { module: "baml_types"@, name: union_name(ts.len() as nat) }),
            ),
        },
        IrType::Top => TypeGleamView::Nil,
    }
}

fn baml_types_module() -> (r: String)
    ensures
        r@ == "baml_types"@,
{
    String::from_str("baml_types")
}

/// Converts a BAML type into the Gleam type that stands for it.
pub fn type_to_gleam(field: &IrType, lookup: &IntermediateRepr) -> (r: TypeGleam)
    requires
        !reaches_top(*field),
    ensures
        r@ == gleam_of(*field, *lookup),
    decreases field,
{
    match field {
        IrType::Primitive(type_value) => {
            let r = TypeGleam::from(type_value);
            assert(r == <TypeGleam as vstd::std_specs::convert::FromSpec<&TypeValue>>::from_spec(type_value));
            assert(r@ == primitive_gleam(*type_value)) by {
                reveal_with_fuel(crate::gleam_type::type_gleam_view, 2);
            }
            r
        },
        IrType::Enum { name, dynamic } => TypeGleam::Enum {
            module: baml_types_module(),
            name: name.clone(),
            dynamic: *dynamic,
        },
        IrType::Literal(literal_value) => match literal_value {
            LiteralValue::String(val) => TypeGleam::String(Some(val.clone())),
            LiteralValue::Int(val) => TypeGleam::Int(Some(*val)),
            LiteralValue::Bool(val) => TypeGleam::Bool(Some(*val)),
        },
        IrType::Class { name, dynamic } => TypeGleam::Class {
            module: baml_types_module(),
            name: name.clone(),
            dynamic: *dynamic,
        },
        IrType::List(inner) => TypeGleam::List(Box::new(type_to_gleam(inner, lookup))),
        IrType::MapType(key, value) => {
            let k = type_to_gleam(key, lookup);
            let v = type_to_gleam(value, lookup);
            TypeGleam::Dict(Box::new(k), Box::new(v))
        },
        IrType::RecursiveTypeAlias { name } => {
            if !lookup.expand_recursive_type(name) {
                let mut reason = String::from_str("Recursive type alias ");
                reason.append(name.as_str());
                reason.append(" is not yet supported");
                TypeGleam::Dynamic { reason }
            } else {
                TypeGleam::TypeAlias { module: baml_types_module(), name: name.clone() }
            }
        },
        IrType::Tuple => TypeGleam::Dynamic {
            reason: String::from_str("Tuples are not directly supported in Gleam, using Dynamic"),
        },
        IrType::Arrow => TypeGleam::Dynamic {
            reason: String::from_str("Arrow types are not supported in Gleam"),
        },
        IrType::Union(union_type) => match union_type {
            UnionTypeView::Null => TypeGleam::Nil,
            UnionTypeView::Optional(inner) => TypeGleam::Option(Box::new(type_to_gleam(inner, lookup))),
            UnionTypeView::OneOf(types) => TypeGleam::Union {
                module: baml_types_module(),
                name: with_decimal("Union", types.len()),
            },
            UnionTypeView::OneOfOptional(types) => {
                let u = TypeGleam::Union {
                    module: baml_types_module(),
                    name: with_decimal("Union", types.len()),
                };
                let r = TypeGleam::Option(Box::new(u));
                assert(r@ == TypeGleamView::Option(Box::new(u@)));
                r
            },
        },
        IrType::Top => {
            assert(false);
            TypeGleam::Nil
        },
    }
}

/// Whether converting `t` would meet the `Top` type.
pub fn contains_top(t: &IrType) -> (r: bool)
    ensures
        r == reaches_top(*t),
    decreases t,
{
    match t {
        IrType::Top => true,
        IrType::List(inner) => contains_top(inner),
        IrType::MapType(k, v) => contains_top(k) || contains_top(v),
        IrType::Union(view) => match view {
            UnionTypeView::Null => false,
            UnionTypeView::Optional(inner) => contains_top(inner),
            UnionTypeView::OneOf(ts) => any_contains_top(ts),
            UnionTypeView::OneOfOptional(ts) => any_contains_top(ts),
        },
        _ => false,
    }
}

fn any_contains_top(ts: &Vec<IrType>) -> (r: bool)
    ensures
        r == exists|i: int| 0 <= i < ts@.len() && reaches_top(#[trigger] ts@[i]),
    decreases ts,
{
    let mut i: usize = 0;
    while i < ts.len()
        invariant
            i <= ts@.len(),
            forall|j: int| 0 <= j < i ==> !reaches_top(#[trigger] ts@[j]),
        decreases ts@.len() - i,
    {
        if contains_top(&ts[i]) {
            return true;
        }
        i = i + 1;
    }
    false
}

/// The Gleam type for the streaming form of a BAML type: primitives as
/// usual, named classes and enums from the `baml_stream_types` module, and
/// `Dynamic` for everything else.
pub open spec fn stream_gleam_of(t: IrType) -> TypeGleamView {
    match t {
        IrType::Primitive(tv) => primitive_gleam(tv),
        IrType::Enum { name, dynamic } => TypeGleamView::Enum {
            module: "baml_stream_types"@,
            name: name@,
            dynamic,
        },
        IrType::Class { name, dynamic } => TypeGleamView::Class {
            module: "baml_stream_types"@,
            name: name@,
            dynamic,
        },
        _ => TypeGleamView::Dynamic { reason: "Streaming types not fully implemented yet"@ },
    }
}

/// Converts the streaming form of a BAML type into a Gleam type.
pub fn stream_type_to_gleam(field: &IrType, _lookup: &IntermediateRepr) -> (r: TypeGleam)
    ensures
        r@ == stream_gleam_of(*field),
{
    match field {
        IrType::Primitive(type_value) => {
            let r = TypeGleam::from(type_value);
            assert(r@ == primitive_gleam(*type_value)) by {
                reveal_with_fuel(crate::gleam_type::type_gleam_view, 2);
            }
            r
        },
        IrType::Enum { name, dynamic } => TypeGleam::Enum {
            module: String::from_str("baml_stream_types"),
            name: name.clone(),
            dynamic: *dynamic,
        },
        IrType::Class { name, dynamic } => TypeGleam::Class {
            module: String::from_str("baml_stream_types"),
            name: name.clone(),
            dynamic: *dynamic,
        },
        _ => TypeGleam::Dynamic { reason: String::from_str("Streaming types not fully implemented yet") },
    }
}

/// The members of a union in order, `null` last where the union admits it.
pub open spec fn members_with_null(view: UnionTypeView) -> Seq<IrType> {
    match view {
        UnionTypeView::Null => seq![IrType::Primitive(TypeValue::Null)],
        UnionTypeView::Optional(t) => seq![*t, IrType::Primitive(TypeValue::Null)],
        UnionTypeView::OneOf(ts) => ts@,
        UnionTypeView::OneOfOptional(ts) => ts@.push(IrType::Primitive(TypeValue::Null)),
    }
}

/// The name of the `i`th variant of a generated union.
pub open spec fn variant_name(i: nat) -> Seq<char> {
    "Variant"@ + decimal(i)
}

/// `v` is the `idx`th variant of the union whose foreign name is `cffi`,
/// standing for the BAML type `t`.
pub open spec fn is_union_variant(v: VariantGleam, cffi: Seq<char>, idx: nat, t: IrType, ir: IntermediateRepr) -> bool {
    &&& v.name@ == variant_name(idx)
    &&& v.cffi_name@ == cffi + "_"@ + variant_name(idx)
    &&& v.literal_repr is None
    &&& v.type_@ == gleam_of(t, ir)
}

fn union_variant(cffi_name: &String, idx: usize, type_: TypeGleam) -> (r: VariantGleam)
    ensures
        r.name@ == variant_name(idx as nat),
        r.cffi_name@ == cffi_name@ + "_"@ + variant_name(idx as nat),
        r.literal_repr is None,
        r.type_ == type_,
{
    let name = with_decimal("Variant", idx);
    let mut cffi = concat2(cffi_name.as_str(), "_");
    cffi.append(name.as_str());
    VariantGleam { name, cffi_name: cffi, literal_repr: None, type_ }
}

/// The Gleam union type for a BAML union type; `None` for any other type.
pub fn ir_union_to_gleam<'a>(union_type: &IrType, pkg: &'a CurrentRenderPackage) -> (r: Option<UnionGleam<'a>>)
    requires
        *union_type matches IrType::Union(UnionTypeView::OneOfOptional(ts)) ==> ts@.len() < usize::MAX,
        *union_type matches IrType::Union(view) ==> forall|i: int|
            0 <= i < members_with_null(view).len() ==> !reaches_top(#[trigger] members_with_null(view)[i]),
    ensures
        !(*union_type is Union) ==> r is None,
        *union_type matches IrType::Union(view) ==> {
            &&& r matches Some(u)
            &&& u.name@ == union_name(members_with_null(view).len())
            &&& u.cffi_name@ == "Union"@ + u.name@
            &&& u.docstring is None
            &&& u.pkg == pkg
            &&& u.variants@.len() == members_with_null(view).len()
            &&& forall|i: int|
                0 <= i < u.variants@.len() ==> is_union_variant(
                    #[trigger] u.variants@[i],
                    u.cffi_name@,
                    i as nat,
                    members_with_null(view)[i],
                    *pkg.ir,
                )
        },
{
    match union_type {
        IrType::Union(view) => {
            let ghost members = members_with_null(*view);
            let count: usize = match view {
                UnionTypeView::Null => 1,
                UnionTypeView::Optional(_) => 2,
                UnionTypeView::OneOf(ts) => ts.len(),
                UnionTypeView::OneOfOptional(ts) => ts.len() + 1,
            };
            let name = with_decimal("Union", count);
            let cffi_name = concat2("Union", name.as_str());
            let mut variants: Vec<VariantGleam> = Vec::new();
            match view {
                UnionTypeView::Null => {},
                UnionTypeView::Optional(inner) => {
                    let t = type_to_gleam(inner, &*pkg.ir);
                    variants.push(union_variant(&cffi_name, 0, t));
                },
                UnionTypeView::OneOf(ts) | UnionTypeView::OneOfOptional(ts) => {
                    let mut i: usize = 0;
                    while i < ts.len()
                        invariant
                            i <= ts@.len(),
                            ts@.len() <= members.len(),
                            forall|j: int| 0 <= j < ts@.len() ==> members[j] == ts@[j],
                            forall|j: int| 0 <= j < ts@.len() ==> !reaches_top(#[trigger] members[j]),
                            variants@.len() == i,
                            forall|j: int|
                                0 <= j < i ==> is_union_variant(
                                    #[trigger] variants@[j],
                                    cffi_name@,
                                    j as nat,
                                    members[j],
                                    *pkg.ir,
                                ),
                        decreases ts@.len() - i,
                    {
                        assert(members[i as int] == ts@[i as int]);
                        let t = type_to_gleam(&ts[i], &*pkg.ir);
                        variants.push(union_variant(&cffi_name, i, t));
                        i = i + 1;
                    }
                },
            }
            match view {
                UnionTypeView::OneOf(_) => {},
                _ => {
                    let idx = variants.len();
                    variants.push(union_variant(&cffi_name, idx, TypeGleam::Nil));
                },
            }
            Some(UnionGleam { name, cffi_name, docstring: None, variants, pkg })
        },
        _ => None,
    }
}

fn clone_opt_string(o: &Option<String>) -> (r: Option<String>)
    ensures
        r == *o,
{
    match o {
        Some(s) => Some(s.clone()),
        None => None,
    }
}

/// Keeps the fields declared in the BAML source, leaving out the dynamic
/// ones.
pub open spec fn is_static_field() -> spec_fn(FieldWalker) -> bool {
    |f: FieldWalker| !f.dynamic
}

/// The fields of a class declared in the BAML source, in order.
pub open spec fn static_fields(class: ClassWalker) -> Seq<FieldWalker> {
    class.fields@.filter(is_static_field())
}

/// `f` is the generated field for the class field `w`, with type `ty`.
pub open spec fn is_field_for<'a>(f: FieldGleam<'a>, w: FieldWalker, ty: TypeGleamView, pkg: &'a CurrentRenderPackage) -> bool {
    &&& f.name@ == w.name@
    &&& opt_string_view(f.docstring) == opt_string_view(w.description)
    &&& f.type_@ == ty
    &&& f.pkg == pkg
}

/// Whether some field of the class is dynamic.
pub open spec fn has_dynamic_field(class: ClassWalker) -> bool {
    exists|i: int| 0 <= i < class.fields@.len() && (#[trigger] class.fields@[i]).dynamic
}

fn any_dynamic(class: &ClassWalker) -> (r: bool)
    ensures
        r == has_dynamic_field(*class),
{
    let mut i: usize = 0;
    while i < class.fields.len()
        invariant
            i <= class.fields@.len(),
            forall|j: int| 0 <= j < i ==> !(#[trigger] class.fields@[j]).dynamic,
        decreases class.fields@.len() - i,
    {
        if class.fields[i].dynamic {
            return true;
        }
        i = i + 1;
    }
    false
}

/// The Gleam record type for a BAML class: the declared (non-dynamic)
/// fields in order, each with its non-streaming type; the record is dynamic
/// when the class has a dynamic field.
pub fn ir_class_to_gleam<'a>(class: &ClassWalker, pkg: &'a CurrentRenderPackage) -> (r: ClassGleam<'a>)
    requires
        forall|i: int|
            0 <= i < class.fields@.len() && !(#[trigger] class.fields@[i]).dynamic ==> !reaches_top(
                class.fields@[i].field_type,
            ),
    ensures
        r.name@ == class.name@,
        opt_string_view(r.docstring) == opt_string_view(class.description),
        r.dynamic == has_dynamic_field(*class),
        r.pkg == pkg,
        r.fields@.len() == static_fields(*class).len(),
        forall|i: int|
            0 <= i < r.fields@.len() ==> is_field_for(
                #[trigger] r.fields@[i],
                static_fields(*class)[i],
                gleam_of(static_fields(*class)[i].field_type, *pkg.ir),
                pkg,
            ),
{
    let mut fields: Vec<FieldGleam<'a>> = Vec::new();
    let mut i: usize = 0;
    while i < class.fields.len()
        invariant
            i <= class.fields@.len(),
            forall|j: int|
                0 <= j < class.fields@.len() && !(#[trigger] class.fields@[j]).dynamic ==> !reaches_top(
                    class.fields@[j].field_type,
                ),
            fields@.len() == class.fields@.take(i as int).filter(is_static_field()).len(),
            forall|j: int|
                0 <= j < fields@.len() ==> is_field_for(
                    #[trigger] fields@[j],
                    class.fields@.take(i as int).filter(is_static_field())[j],
                    gleam_of(class.fields@.take(i as int).filter(is_static_field())[j].field_type, *pkg.ir),
                    pkg,
                ),
        decreases class.fields@.len() - i,
    {
        let field = &class.fields[i];
        proof {
            assert(class.fields@.take(i + 1).drop_last() =~= class.fields@.take(i as int));
            reveal_with_fuel(Seq::filter, 1);
        }
        if !field.dynamic {
            let type_ = type_to_gleam(&field.field_type, &*pkg.ir);
            fields.push(
                FieldGleam {
                    docstring: clone_opt_string(&field.description),
                    name: field.name.clone(),
                    type_,
                    pkg,
                },
            );
        }
        i = i + 1;
    }
    assert(class.fields@.take(class.fields@.len() as int) =~= class.fields@);
    ClassGleam {
        name: class.name.clone(),
        docstring: clone_opt_string(&class.description),
        fields,
        dynamic: any_dynamic(class),
        pkg,
    }
}

/// The streaming counterpart of [`ir_class_to_gleam`]: the same record,
/// with each field's streaming type.
pub fn ir_class_to_gleam_stream<'a>(class: &ClassWalker, pkg: &'a CurrentRenderPackage) -> (r: ClassGleam<'a>)
    ensures
        r.name@ == class.name@,
        opt_string_view(r.docstring) == opt_string_view(class.description),
        r.dynamic == has_dynamic_field(*class),
        r.pkg == pkg,
        r.fields@.len() == static_fields(*class).len(),
        forall|i: int|
            0 <= i < r.fields@.len() ==> is_field_for(
                #[trigger] r.fields@[i],
                static_fields(*class)[i],
                stream_gleam_of(static_fields(*class)[i].stream_type),
                pkg,
            ),
{
    let mut fields: Vec<FieldGleam<'a>> = Vec::new();
    let mut i: usize = 0;
    while i < class.fields.len()
        invariant
            i <= class.fields@.len(),
            fields@.len() == class.fields@.take(i as int).filter(is_static_field()).len(),
            forall|j: int|
                0 <= j < fields@.len() ==> is_field_for(
                    #[trigger] fields@[j],
                    class.fields@.take(i as int).filter(is_static_field())[j],
                    stream_gleam_of(class.fields@.take(i as int).filter(is_static_field())[j].stream_type),
                    pkg,
                ),
        decreases class.fields@.len() - i,
    {
        let field = &class.fields[i];
        proof {
            assert(class.fields@.take(i + 1).drop_last() =~= class.fields@.take(i as int));
            reveal_with_fuel(Seq::filter, 1);
        }
        if !field.dynamic {
            let type_ = stream_type_to_gleam(&field.stream_type, &*pkg.ir);
            fields.push(
                FieldGleam {
                    docstring: clone_opt_string(&field.description),
                    name: field.name.clone(),
                    type_,
                    pkg,
                },
            );
        }
        i = i + 1;
    }
    assert(class.fields@.take(class.fields@.len() as int) =~= class.fields@);
    ClassGleam {
        name: class.name.clone(),
        docstring: clone_opt_string(&class.description),
        fields,
        dynamic: any_dynamic(class),
        pkg,
    }
}

/// The Gleam custom type for a BAML enum: each value with its description,
/// in order; a generated enum is never dynamic.
pub fn ir_enum_to_gleam<'a>(enum_def: &EnumWalker, pkg: &'a CurrentRenderPackage) -> (r: EnumGleam<'a>)
    ensures
        r.name@ == enum_def.name@,
        opt_string_view(r.docstring) == opt_string_view(enum_def.description),
        !r.dynamic,
        r.pkg == pkg,
        r.values@.len() == enum_def.values@.len(),
        forall|i: int|
            0 <= i < r.values@.len() ==> {
                &&& (#[trigger] r.values@[i]).0@ == enum_def.values@[i].name@
                &&& opt_string_view(r.values@[i].1) == opt_string_view(enum_def.values@[i].description)
            },
{
    let mut values: Vec<(String, Option<String>)> = Vec::new();
    let mut i: usize = 0;
    while i < enum_def.values.len()
        invariant
            i <= enum_def.values@.len(),
            values@.len() == i,
            forall|j: int|
                0 <= j < i ==> {
                    &&& (#[trigger] values@[j]).0@ == enum_def.values@[j].name@
                    &&& opt_string_view(values@[j].1) == opt_string_view(enum_def.values@[j].description)
                },
        decreases enum_def.values@.len() - i,
    {
        let value: &EnumValueWalker = &enum_def.values[i];
        values.push((value.name.clone(), clone_opt_string(&value.description)));
        i = i + 1;
    }
    EnumGleam {
        name: enum_def.name.clone(),
        docstring: clone_opt_string(&enum_def.description),
        values,
        dynamic: false,
        pkg,
    }
}

/// A BAML function as seen from Gleam.
pub struct GleamFunction {
    pub name: String,
    pub params: Vec<GleamParam>,
    pub return_type: TypeGleam,
}

/// A parameter of a [`GleamFunction`].
pub struct GleamParam {
    pub name: String,
    pub type_: TypeGleam,
}

/// The Gleam signature of a BAML function: each parameter with the Gleam
/// type of its non-streaming type, in order, and the return type likewise.
pub fn ir_function_to_gleam(function: &FunctionNode, pkg: &CurrentRenderPackage) -> (r: GleamFunction)
    requires
        forall|i: int| 0 <= i < function.inputs@.len() ==> !reaches_top((#[trigger] function.inputs@[i]).1),
        !reaches_top(function.output),
    ensures
        r.name@ == function.name@,
        r.params@.len() == function.inputs@.len(),
        forall|i: int|
            0 <= i < r.params@.len() ==> {
                &&& (#[trigger] r.params@[i]).name@ == function.inputs@[i].0@
                &&& r.params@[i].type_@ == gleam_of(function.inputs@[i].1, *pkg.ir)
            },
        r.return_type@ == gleam_of(function.output, *pkg.ir),
{
    let mut params: Vec<GleamParam> = Vec::new();
    let mut i: usize = 0;
    while i < function.inputs.len()
        invariant
            i <= function.inputs@.len(),
            forall|j: int| 0 <= j < function.inputs@.len() ==> !reaches_top((#[trigger] function.inputs@[j]).1),
            params@.len() == i,
            forall|j: int|
                0 <= j < i ==> {
                    &&& (#[trigger] params@[j]).name@ == function.inputs@[j].0@
                    &&& params@[j].type_@ == gleam_of(function.inputs@[j].1, *pkg.ir)
                },
        decreases function.inputs@.len() - i,
    {
        let (name, field_type) = &function.inputs[i];
        let param_type = type_to_gleam(field_type, &*pkg.ir);
        params.push(GleamParam { name: name.clone(), type_: param_type });
        i = i + 1;
    }
    let return_type = type_to_gleam(&function.output, &*pkg.ir);
    GleamFunction { name: function.name.clone(), params, return_type }
}

/// A BAML type alias as seen from Gleam.
pub struct GleamTypeAlias {
    pub name: String,
    pub type_: TypeGleam,
}

/// The Gleam form of a BAML type alias: its name and the Gleam type of the
/// type it stands for.
pub fn ir_type_alias_to_gleam(alias: &TypeAlias, pkg: &CurrentRenderPackage) -> (r: GleamTypeAlias)
    requires
        !reaches_top(alias.target),
    ensures
        r.name@ == alias.name@,
        r.type_@ == gleam_of(alias.target, *pkg.ir),
{
    let gleam_type = type_to_gleam(&alias.target, &*pkg.ir);
    GleamTypeAlias { name: alias.name.clone(), type_: gleam_type }
}

/// Converting a class or enum type keeps its name and its dynamic flag, and
/// puts the Gleam type in `baml_types` (in `baml_stream_types` for the
/// streaming form).
pub proof fn named_types_keep_name_and_flag(name: String, dynamic: bool, lookup: IntermediateRepr)
    ensures
        gleam_of(IrType::Class { name, dynamic }, lookup) matches TypeGleamView::Class { module: m, name: n, dynamic: d }
            && m == "baml_types"@ && n == name@ && d == dynamic,
        gleam_of(IrType::Enum { name, dynamic }, lookup) matches TypeGleamView::Enum { module: m, name: n, dynamic: d }
            && m == "baml_types"@ && n == name@ && d == dynamic,
        stream_gleam_of(IrType::Class { name, dynamic }) matches TypeGleamView::Class { module: m, name: n, dynamic: d }
            && m == "baml_stream_types"@ && n == name@ && d == dynamic,
        stream_gleam_of(IrType::Enum { name, dynamic }) matches TypeGleamView::Enum { module: m, name: n, dynamic: d }
            && m == "baml_stream_types"@ && n == name@ && d == dynamic,
{
}

/// The conversion follows the structure of a type: a list becomes a `List`
/// of its item's conversion, a map a `Dict` of its key's and value's, an
/// optional type an `Option`, the null union `Nil`; a literal type becomes
/// the primitive of its value, carrying the value.
pub proof fn conversion_follows_structure(t: IrType, k: IrType, s: String, i: i64, b: bool, lookup: IntermediateRepr)
    ensures
        gleam_of(IrType::List(Box::new(t)), lookup) == TypeGleamView::List(Box::new(gleam_of(t, lookup))),
        gleam_of(IrType::MapType(Box::new(k), Box::new(t)), lookup) == TypeGleamView::Dict(
            Box::new(gleam_of(k, lookup)),
            Box::new(gleam_of(t, lookup)),
        ),
        gleam_of(IrType::Union(UnionTypeView::Optional(Box::new(t))), lookup) == TypeGleamView::Option(
            Box::new(gleam_of(t, lookup)),
        ),
        gleam_of(IrType::Union(UnionTypeView::Null), lookup) == TypeGleamView::Nil,
        gleam_of(IrType::Literal(LiteralValue::String(s)), lookup) == TypeGleamView::String(Some(s@)),
        gleam_of(IrType::Literal(LiteralValue::Int(i)), lookup) == TypeGleamView::Int(Some(i)),
        gleam_of(IrType::Literal(LiteralValue::Bool(b)), lookup) == TypeGleamView::Bool(Some(b)),
{
}

} // verus!
