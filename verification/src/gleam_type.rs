use vstd::prelude::*;

use crate::ir::{BamlMediaType, TypeValue};
use crate::package::CurrentRenderPackage;
use crate::text::concat2;

verus! {

/// A type as it is written in generated Gleam code. Primitive types may
/// carry the literal value they were made from; a type that Gleam cannot
/// express is `Dynamic`, with the reason.
#[derive(Debug)]
pub enum TypeGleam {
    String(Option<String>),
    Int(Option<i64>),
    Float,
    Bool(Option<bool>),
    Nil,
    Media(MediaTypeGleam),
    Class { module: String, name: String, dynamic: bool },
    Enum { module: String, name: String, dynamic: bool },
    List(Box<TypeGleam>),
    Option(Box<TypeGleam>),
    Result { ok: Box<TypeGleam>, error: Box<TypeGleam> },
    Dict(Box<TypeGleam>, Box<TypeGleam>),
    TypeAlias { module: String, name: String },
    Union { module: String, name: String },
    Dynamic { reason: String },
}

/// The media kinds that BAML values can carry.
#[derive(Clone, Copy, Debug, PartialEq, Eq)]
pub enum MediaTypeGleam {
    Image,
    Audio,
    Pdf,
    Video,
}

impl Clone for TypeGleam {
    fn clone(&self) -> (r: Self)
        ensures
            r == *self,
        decreases self,
    {
        match self {
            TypeGleam::String(v) => TypeGleam::String(v.clone()),
            TypeGleam::Int(v) => TypeGleam::Int(*v),
            TypeGleam::Float => TypeGleam::Float,
            TypeGleam::Bool(v) => TypeGleam::Bool(*v),
            TypeGleam::Nil => TypeGleam::Nil,
            TypeGleam::Media(m) => TypeGleam::Media(*m),
            TypeGleam::Class { module, name, dynamic } => TypeGleam::Class {
                module: module.clone(),
                name: name.clone(),
                dynamic: *dynamic,
            },
            TypeGleam::Enum { module, name, dynamic } => TypeGleam::Enum {
                module: module.clone(),
                name: name.clone(),
                dynamic: *dynamic,
            },
            TypeGleam::List(inner) => TypeGleam::List(Box::new((**inner).clone())),
            TypeGleam::Option(inner) => TypeGleam::Option(Box::new((**inner).clone())),
            TypeGleam::Result { ok, error } => TypeGleam::Result {
                ok: Box::new((**ok).clone()),
                error: Box::new((**error).clone()),
            },
            TypeGleam::Dict(k, v) => TypeGleam::Dict(Box::new((**k).clone()), Box::new((**v).clone())),
            TypeGleam::TypeAlias { module, name } => TypeGleam::TypeAlias {
                module: module.clone(),
                name: name.clone(),
            },
            TypeGleam::Union { module, name } => TypeGleam::Union {
                module: module.clone(),
                name: name.clone(),
            },
            TypeGleam::Dynamic { reason } => TypeGleam::Dynamic { reason: reason.clone() },
        }
    }
}

impl TypeGleam {
    /// Whether the type is an `Option`.
    pub fn is_optional(&self) -> (r: bool)
        ensures
            r == (*self is Option),
    {
        matches!(self, TypeGleam::Option(_))
    }

    /// The type as an `Option`: wrapped once, unless it is one already.
    pub fn make_optional(self) -> (r: TypeGleam)
        ensures
            self is Option ==> r == self,
            !(self is Option) ==> r == TypeGleam::Option(Box::new(self)),
            r@ == optional_of(self@),
    {
        if self.is_optional() {
            self
        } else {
            TypeGleam::Option(Box::new(self))
        }
    }
}

/// The mathematical value of a [`TypeGleam`]: strings are taken as
/// sequences of characters.
pub enum TypeGleamView {
    String(Option<Seq<char>>),
    Int(Option<i64>),
    Float,
    Bool(Option<bool>),
    Nil,
    Media(MediaTypeGleam),
    Class { module: Seq<char>, name: Seq<char>, dynamic: bool },
    Enum { module: Seq<char>, name: Seq<char>, dynamic: bool },
    List(Box<TypeGleamView>),
    Option(Box<TypeGleamView>),
    Result { ok: Box<TypeGleamView>, error: Box<TypeGleamView> },
    Dict(Box<TypeGleamView>, Box<TypeGleamView>),
    TypeAlias { module: Seq<char>, name: Seq<char> },
    Union { module: Seq<char>, name: Seq<char> },
    Dynamic { reason: Seq<char> },
}

/// The view of an optional string.
pub open spec fn opt_string_view(o: Option<String>) -> Option<Seq<char>> {
    match o {
        Some(s) => Some(s@),
        None => None,
    }
}

/// The mathematical value of a [`TypeGleam`].
pub open spec fn type_gleam_view(t: TypeGleam) -> TypeGleamView
    decreases t,
{
    match t {
        TypeGleam::String(v) => TypeGleamView::String(opt_string_view(v)),
        TypeGleam::Int(v) => TypeGleamView::Int(v),
        TypeGleam::Float => TypeGleamView::Float,
        TypeGleam::Bool(v) => TypeGleamView::Bool(v),
        TypeGleam::Nil => TypeGleamView::Nil,
        TypeGleam::Media(m) => TypeGleamView::Media(m),
        TypeGleam::Class { module, name, dynamic } => TypeGleamView::Class {
            module: module@,
            name: name@,
            dynamic,
        },
        TypeGleam::Enum { module, name, dynamic } => TypeGleamView::Enum {
            module: module@,
            name: name@,
            dynamic,
        },
        TypeGleam::List(inner) => TypeGleamView::List(Box::new(type_gleam_view(*inner))),
        TypeGleam::Option(inner) => TypeGleamView::Option(Box::new(type_gleam_view(*inner))),
        TypeGleam::Result { ok, error } => TypeGleamView::Result {
            ok: Box::new(type_gleam_view(*ok)),
            error: Box::new(type_gleam_view(*error)),
        },
        TypeGleam::Dict(k, v) => TypeGleamView::Dict(
            Box::new(type_gleam_view(*k)),
            Box::new(type_gleam_view(*v)),
        ),
        TypeGleam::TypeAlias { module, name } => TypeGleamView::TypeAlias { module: module@, name: name@ },
        TypeGleam::Union { module, name } => TypeGleamView::Union { module: module@, name: name@ },
        TypeGleam::Dynamic { reason } => TypeGleamView::Dynamic { reason: reason@ },
    }
}

impl View for TypeGleam {
    type V = TypeGleamView;

    open spec fn view(&self) -> TypeGleamView {
        type_gleam_view(*self)
    }
}

/// How a named type of `module` is referred to from `current`: by its bare
/// name inside its own module, else qualified by the module.
pub open spec fn qualified_name(module: Seq<char>, name: Seq<char>, current: Seq<char>) -> Seq<char> {
    if module == current {
        name
    } else {
        module + "."@ + name
    }
}

/// The Gleam spelling of a media type.
pub open spec fn media_type_text(m: MediaTypeGleam) -> Seq<char> {
    match m {
        MediaTypeGleam::Image => "baml_types.Image"@,
        MediaTypeGleam::Audio => "baml_types.Audio"@,
        MediaTypeGleam::Pdf => "baml_types.Pdf"@,
        MediaTypeGleam::Video => "baml_types.Video"@,
    }
}

/// The Gleam spelling of a type, written from inside module `current`.
pub open spec fn type_text(t: TypeGleamView, current: Seq<char>) -> Seq<char>
    decreases t,
{
    match t {
        TypeGleamView::String(_) => "String"@,
        TypeGleamView::Int(_) => "Int"@,
        TypeGleamView::Float => "Float"@,
        TypeGleamView::Bool(_) => "Bool"@,
        TypeGleamView::Nil => "Nil"@,
        TypeGleamView::Media(m) => media_type_text(m),
        TypeGleamView::Class { module, name, .. } => qualified_name(module, name, current),
        TypeGleamView::Enum { module, name, .. } => qualified_name(module, name, current),
        TypeGleamView::List(inner) => "List("@ + type_text(*inner, current) + ")"@,
        TypeGleamView::Option(inner) => "Option("@ + type_text(*inner, current) + ")"@,
        TypeGleamView::Result { ok, error } => "Result("@ + type_text(*ok, current) + ", "@
            + type_text(*error, current) + ")"@,
        TypeGleamView::Dict(k, v) => "Dict("@ + type_text(*k, current) + ", "@ + type_text(*v, current)
            + ")"@,
        TypeGleamView::TypeAlias { module, name } => qualified_name(module, name, current),
        TypeGleamView::Union { module, name } => qualified_name(module, name, current),
        TypeGleamView::Dynamic { .. } => "Dynamic"@,
    }
}

/// The short, package-independent spelling of a type used for display.
pub open spec fn display_text(t: TypeGleamView) -> Seq<char>
    decreases t,
{
    match t {
        TypeGleamView::String(_) => "String"@,
        TypeGleamView::Int(_) => "Int"@,
        TypeGleamView::Float => "Float"@,
        TypeGleamView::Bool(_) => "Bool"@,
        TypeGleamView::Nil => "Nil"@,
        TypeGleamView::Media(m) => match m {
            MediaTypeGleam::Image => "Image"@,
            MediaTypeGleam::Audio => "Audio"@,
            MediaTypeGleam::Pdf => "Pdf"@,
            MediaTypeGleam::Video => "Video"@,
        },
        TypeGleamView::Class { name, .. } => name,
        TypeGleamView::Enum { name, .. } => name,
        TypeGleamView::List(inner) => "List("@ + display_text(*inner) + ")"@,
        TypeGleamView::Option(inner) => "Option("@ + display_text(*inner) + ")"@,
        TypeGleamView::Result { ok, error } => "Result("@ + display_text(*ok) + ", "@ + display_text(*error)
            + ")"@,
        TypeGleamView::Dict(k, v) => "Dict("@ + display_text(*k) + ", "@ + display_text(*v) + ")"@,
        TypeGleamView::TypeAlias { name, .. } => name,
        TypeGleamView::Union { name, .. } => name,
        TypeGleamView::Dynamic { .. } => "Dynamic"@,
    }
}

fn qualify(module: &String, name: &String, pkg: &CurrentRenderPackage) -> (r: String)
    ensures
        r@ == qualified_name(module@, name@, pkg.current_module@),
{
    if module.eq(&pkg.current_module) {
        name.clone()
    } else {
        let mut s = concat2(module.as_str(), ".");
        s.append(name.as_str());
        s
    }
}

/// `open` + `a` + `close`.
fn wrap1(open: &str, a: &String, close: &str) -> (r: String)
    ensures
        r@ == open@ + a@ + close@,
{
    let mut s = concat2(open, a.as_str());
    s.append(close);
    s
}

/// `open` + `a` + ", " + `b` + ")".
fn wrap2(open: &str, a: &String, b: &String) -> (r: String)
    ensures
        r@ == open@ + a@ + ", "@ + b@ + ")"@,
{
    let mut s = concat2(open, a.as_str());
    s.append(", ");
    s.append(b.as_str());
    s.append(")");
    s
}

impl TypeGleam {
    /// The type as written in the module `pkg` is rendering: named types of
    /// that module by their bare name, others qualified by their module.
    pub fn serialize_type(&self, pkg: &CurrentRenderPackage) -> (r: String)
        ensures
            r@ == type_text(self@, pkg.current_module@),
        decreases self,
    {
        match self {
            TypeGleam::String(_) => String::from_str("String"),
            TypeGleam::Int(_) => String::from_str("Int"),
            TypeGleam::Float => String::from_str("Float"),
            TypeGleam::Bool(_) => String::from_str("Bool"),
            TypeGleam::Nil => String::from_str("Nil"),
            TypeGleam::Media(media) => media.serialize_type(pkg),
            TypeGleam::Class { module, name, .. } => qualify(module, name, pkg),
            TypeGleam::Enum { module, name, .. } => qualify(module, name, pkg),
            TypeGleam::List(inner) => {
                let s = inner.serialize_type(pkg);
                wrap1("List(", &s, ")")
            },
            TypeGleam::Option(inner) => {
                let s = inner.serialize_type(pkg);
                wrap1("Option(", &s, ")")
            },
            TypeGleam::Result { ok, error } => {
                let a = ok.serialize_type(pkg);
                let b = error.serialize_type(pkg);
                wrap2("Result(", &a, &b)
            },
            TypeGleam::Dict(key, value) => {
                let a = key.serialize_type(pkg);
                let b = value.serialize_type(pkg);
                wrap2("Dict(", &a, &b)
            },
            TypeGleam::TypeAlias { module, name } => qualify(module, name, pkg),
            TypeGleam::Union { module, name } => qualify(module, name, pkg),
            TypeGleam::Dynamic { .. } => String::from_str("Dynamic"),
        }
    }

    /// The short spelling of the type, without package context (what the
    /// type displays as).
    pub fn to_string(&self) -> (r: String)
        ensures
            r@ == display_text(self@),
        decreases self,
    {
        match self {
            TypeGleam::String(_) => String::from_str("String"),
            TypeGleam::Int(_) => String::from_str("Int"),
            TypeGleam::Float => String::from_str("Float"),
            TypeGleam::Bool(_) => String::from_str("Bool"),
            TypeGleam::Nil => String::from_str("Nil"),
            TypeGleam::Media(media) => match media {
                MediaTypeGleam::Image => String::from_str("Image"),
                MediaTypeGleam::Audio => String::from_str("Audio"),
                MediaTypeGleam::Pdf => String::from_str("Pdf"),
                MediaTypeGleam::Video => String::from_str("Video"),
            },
            TypeGleam::Class { name, .. } => name.clone(),
            TypeGleam::Enum { name, .. } => name.clone(),
            TypeGleam::List(inner) => {
                let s = inner.to_string();
                wrap1("List(", &s, ")")
            },
            TypeGleam::Option(inner) => {
                let s = inner.to_string();
                wrap1("Option(", &s, ")")
            },
            TypeGleam::Result { ok, error } => {
                let a = ok.to_string();
                let b = error.to_string();
                wrap2("Result(", &a, &b)
            },
            TypeGleam::Dict(key, value) => {
                let a = key.to_string();
                let b = value.to_string();
                wrap2("Dict(", &a, &b)
            },
            TypeGleam::TypeAlias { name, .. } => name.clone(),
            TypeGleam::Union { name, .. } => name.clone(),
            TypeGleam::Dynamic { .. } => String::from_str("Dynamic"),
        }
    }
}

impl MediaTypeGleam {
    /// The media type as written in generated code: its type in
    /// `baml_types`.
    pub fn serialize_type(&self, _pkg: &CurrentRenderPackage) -> (r: String)
        ensures
            r@ == media_type_text(*self),
    {
        match self {
            MediaTypeGleam::Image => String::from_str("baml_types.Image"),
            MediaTypeGleam::Audio => String::from_str("baml_types.Audio"),
            MediaTypeGleam::Pdf => String::from_str("baml_types.Pdf"),
            MediaTypeGleam::Video => String::from_str("baml_types.Video"),
        }
    }
}

impl<'a> From<&'a BamlMediaType> for MediaTypeGleam {
    fn from(media_type: &'a BamlMediaType) -> (r: Self) {
        match media_type {
            BamlMediaType::Image => MediaTypeGleam::Image,
            BamlMediaType::Audio => MediaTypeGleam::Audio,
            BamlMediaType::Pdf => MediaTypeGleam::Pdf,
            BamlMediaType::Video => MediaTypeGleam::Video,
        }
    }
}

impl<'a> vstd::std_specs::convert::FromSpecImpl<&'a BamlMediaType> for MediaTypeGleam {
    open spec fn obeys_from_spec() -> bool {
        true
    }

    open spec fn from_spec(media_type: &'a BamlMediaType) -> MediaTypeGleam {
        media_gleam(*media_type)
    }
}

/// The Gleam media type for a BAML media type.
pub open spec fn media_gleam(m: BamlMediaType) -> MediaTypeGleam {
    match m {
        BamlMediaType::Image => MediaTypeGleam::Image,
        BamlMediaType::Audio => MediaTypeGleam::Audio,
        BamlMediaType::Pdf => MediaTypeGleam::Pdf,
        BamlMediaType::Video => MediaTypeGleam::Video,
    }
}

/// The Gleam type for a BAML primitive type: no literal value is attached.
pub open spec fn primitive_gleam(t: TypeValue) -> TypeGleamView {
    match t {
        TypeValue::String => TypeGleamView::String(None),
        TypeValue::Int => TypeGleamView::Int(None),
        TypeValue::Float => TypeGleamView::Float,
        TypeValue::Bool => TypeGleamView::Bool(None),
        TypeValue::Null => TypeGleamView::Nil,
        TypeValue::Media(m) => TypeGleamView::Media(media_gleam(m)),
    }
}

impl<'a> From<&'a TypeValue> for TypeGleam {
    fn from(value: &'a TypeValue) -> (r: Self) {
        match value {
            TypeValue::String => TypeGleam::String(None),
            TypeValue::Int => TypeGleam::Int(None),
            TypeValue::Float => TypeGleam::Float,
            TypeValue::Bool => TypeGleam::Bool(None),
            TypeValue::Null => TypeGleam::Nil,
            TypeValue::Media(media_type) => TypeGleam::Media(MediaTypeGleam::from(media_type)),
        }
    }
}

impl<'a> vstd::std_specs::convert::FromSpecImpl<&'a TypeValue> for TypeGleam {
    open spec fn obeys_from_spec() -> bool {
        true
    }

    open spec fn from_spec(value: &'a TypeValue) -> TypeGleam {
        match *value {
            TypeValue::String => TypeGleam::String(None),
            TypeValue::Int => TypeGleam::Int(None),
            TypeValue::Float => TypeGleam::Float,
            TypeValue::Bool => TypeGleam::Bool(None),
            TypeValue::Null => TypeGleam::Nil,
            TypeValue::Media(m) => TypeGleam::Media(media_gleam(m)),
        }
    }
}

fn opt_string_eq(a: &Option<String>, b: &Option<String>) -> (r: bool)
    ensures
        r == (opt_string_view(*a) == opt_string_view(*b)),
{
    match (a, b) {
        (Some(x), Some(y)) => x.eq(y),
        (None, None) => true,
        _ => false,
    }
}

fn media_eq(a: &MediaTypeGleam, b: &MediaTypeGleam) -> (r: bool)
    ensures
        r == (*a == *b),
{
    match (a, b) {
        (MediaTypeGleam::Image, MediaTypeGleam::Image) => true,
        (MediaTypeGleam::Audio, MediaTypeGleam::Audio) => true,
        (MediaTypeGleam::Pdf, MediaTypeGleam::Pdf) => true,
        (MediaTypeGleam::Video, MediaTypeGleam::Video) => true,
        _ => false,
    }
}

impl PartialEq for TypeGleam {
    fn eq(&self, other: &Self) -> (r: bool)
        decreases self,
    {
        match (self, other) {
            (TypeGleam::String(a), TypeGleam::String(b)) => opt_string_eq(a, b),
            (TypeGleam::Int(a), TypeGleam::Int(b)) => match (a, b) {
                (Some(x), Some(y)) => *x == *y,
                (None, None) => true,
                _ => false,
            },
            (TypeGleam::Float, TypeGleam::Float) => true,
            (TypeGleam::Bool(a), TypeGleam::Bool(b)) => match (a, b) {
                (Some(x), Some(y)) => *x == *y,
                (None, None) => true,
                _ => false,
            },
            (TypeGleam::Nil, TypeGleam::Nil) => true,
            (TypeGleam::Media(a), TypeGleam::Media(b)) => media_eq(a, b),
            (
                TypeGleam::Class { module: m1, name: n1, dynamic: d1 },
                TypeGleam::Class { module: m2, name: n2, dynamic: d2 },
            ) => m1.eq(m2) && n1.eq(n2) && *d1 == *d2,
            (
                TypeGleam::Enum { module: m1, name: n1, dynamic: d1 },
                TypeGleam::Enum { module: m2, name: n2, dynamic: d2 },
            ) => m1.eq(m2) && n1.eq(n2) && *d1 == *d2,
            (TypeGleam::List(a), TypeGleam::List(b)) => (**a).eq(&**b),
            (TypeGleam::Option(a), TypeGleam::Option(b)) => (**a).eq(&**b),
            (TypeGleam::Result { ok: o1, error: e1 }, TypeGleam::Result { ok: o2, error: e2 }) => (**o1).eq(&**o2)
                && (**e1).eq(&**e2),
            (TypeGleam::Dict(k1, v1), TypeGleam::Dict(k2, v2)) => (**k1).eq(&**k2) && (**v1).eq(&**v2),
            (TypeGleam::TypeAlias { module: m1, name: n1 }, TypeGleam::TypeAlias { module: m2, name: n2 }) => m1.eq(
                m2,
            ) && n1.eq(n2),
            (TypeGleam::Union { module: m1, name: n1 }, TypeGleam::Union { module: m2, name: n2 }) => m1.eq(m2)
                && n1.eq(n2),
            (TypeGleam::Dynamic { reason: r1 }, TypeGleam::Dynamic { reason: r2 }) => r1.eq(r2),
            _ => false,
        }
    }
}

impl vstd::std_specs::cmp::PartialEqSpecImpl for TypeGleam {
    open spec fn obeys_eq_spec() -> bool {
        true
    }

    open spec fn eq_spec(&self, other: &TypeGleam) -> bool {
        self@ == other@
    }
}

/// A type made optional: an optional type stays as it is; any other is
/// wrapped in `Option`.
pub open spec fn optional_of(t: TypeGleamView) -> TypeGleamView {
    if t is Option {
        t
    } else {
        TypeGleamView::Option(Box::new(t))
    }
}

/// Making a type optional gives an optional type, and doing it again
/// changes nothing.
pub proof fn make_optional_idempotent(t: TypeGleamView)
    ensures
        optional_of(t) is Option,
        optional_of(optional_of(t)) == optional_of(t),
{
}

/// The type names in `t` all belong to module `m`, and `t` holds no media
/// type.
pub open spec fn all_named_in(t: TypeGleamView, m: Seq<char>) -> bool
    decreases t,
{
    match t {
        TypeGleamView::Media(_) => false,
        TypeGleamView::Class { module, .. } => module == m,
        TypeGleamView::Enum { module, .. } => module == m,
        TypeGleamView::TypeAlias { module, .. } => module == m,
        TypeGleamView::Union { module, .. } => module == m,
        TypeGleamView::List(inner) => all_named_in(*inner, m),
        TypeGleamView::Option(inner) => all_named_in(*inner, m),
        TypeGleamView::Result { ok, error } => all_named_in(*ok, m) && all_named_in(*error, m),
        TypeGleamView::Dict(k, v) => all_named_in(*k, m) && all_named_in(*v, m),
        _ => true,
    }
}

/// The display form of a type is its Gleam spelling as written inside the
/// module that all its named types belong to (for types without media).
pub proof fn display_is_local_spelling(t: TypeGleamView, m: Seq<char>)
    requires
        all_named_in(t, m),
    ensures
        display_text(t) == type_text(t, m),
    decreases t,
{
    match t {
        TypeGleamView::List(inner) => display_is_local_spelling(*inner, m),
        TypeGleamView::Option(inner) => display_is_local_spelling(*inner, m),
        TypeGleamView::Result { ok, error } => {
            display_is_local_spelling(*ok, m);
            display_is_local_spelling(*error, m);
        },
        TypeGleamView::Dict(k, v) => {
            display_is_local_spelling(*k, m);
            display_is_local_spelling(*v, m);
        },
        _ => {},
    }
}

/// A named type (class, enum, type alias or union) is written by its bare
/// name inside its own module, and qualified by its module, as
/// `module.Name`, from any other module.
pub proof fn named_types_qualified_outside_their_module(
    module: Seq<char>,
    name: Seq<char>,
    dynamic: bool,
    current: Seq<char>,
)
    ensures
        ({
            let class = TypeGleamView::Class { module, name, dynamic };
            let enum_ = TypeGleamView::Enum { module, name, dynamic };
            let alias = TypeGleamView::TypeAlias { module, name };
            let union_ = TypeGleamView::Union { module, name };
            let full = module + "."@ + name;
            &&& module != current ==> type_text(class, current) == full && type_text(enum_, current) == full
                && type_text(alias, current) == full && type_text(union_, current) == full
            &&& module == current ==> type_text(class, current) == name && type_text(enum_, current) == name
                && type_text(alias, current) == name && type_text(union_, current) == name
        }),
{
}

/// How each kind of Gleam type is spelled: primitives by their Gleam
/// names; a media type as the type of the same name in `baml_types`;
/// containers as `List(..)`, `Option(..)`, `Result(.., ..)` and
/// `Dict(.., ..)` around the spellings of their parts.
pub proof fn spelling_of_each_kind(t: TypeGleamView, u: TypeGleamView, current: Seq<char>)
    ensures
        type_text(TypeGleamView::String(None), current) == "String"@,
        type_text(TypeGleamView::Int(None), current) == "Int"@,
        type_text(TypeGleamView::Float, current) == "Float"@,
        type_text(TypeGleamView::Bool(None), current) == "Bool"@,
        type_text(TypeGleamView::Nil, current) == "Nil"@,
        type_text(TypeGleamView::Media(MediaTypeGleam::Image), current) == "baml_types.Image"@,
        type_text(TypeGleamView::Media(MediaTypeGleam::Audio), current) == "baml_types.Audio"@,
        type_text(TypeGleamView::Media(MediaTypeGleam::Pdf), current) == "baml_types.Pdf"@,
        type_text(TypeGleamView::Media(MediaTypeGleam::Video), current) == "baml_types.Video"@,
        type_text(TypeGleamView::List(Box::new(t)), current) == "List("@ + type_text(t, current) + ")"@,
        type_text(TypeGleamView::Option(Box::new(t)), current) == "Option("@ + type_text(t, current) + ")"@,
        type_text(TypeGleamView::Result { ok: Box::new(t), error: Box::new(u) }, current) == "Result("@ + type_text(
            t,
            current,
        ) + ", "@ + type_text(u, current) + ")"@,
        type_text(TypeGleamView::Dict(Box::new(t), Box::new(u)), current) == "Dict("@ + type_text(t, current) + ", "@
            + type_text(u, current) + ")"@,
{
}

} // verus!
