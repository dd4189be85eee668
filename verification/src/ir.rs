use vstd::prelude::*;

verus! {

/// The kinds of media a BAML value can hold.
#[derive(Clone, Copy, Debug, PartialEq, Eq)]
pub enum BamlMediaType {
    Image,
    Audio,
    Pdf,
    Video,
}

/// The primitive types of BAML's type language.
#[derive(Clone, Copy, Debug, PartialEq, Eq)]
pub enum TypeValue {
    String,
    Int,
    Float,
    Bool,
    Null,
    Media(BamlMediaType),
}

/// A literal type: exactly one string, integer or boolean value.
pub enum LiteralValue {
    String(String),
    Int(i64),
    Bool(bool),
}

/// How a union type presents itself: only `null`; one type or `null`; two
/// or more types; two or more types or `null`. The types listed are the
/// union's members other than `null`, in order.
pub enum UnionTypeView {
    Null,
    Optional(Box<IrType>),
    OneOf(Vec<IrType>),
    OneOfOptional(Vec<IrType>),
}

/// A BAML field type as the Gleam generator reads it (the same shape serves
/// for the non-streaming and the streaming form of a type).
pub enum IrType {
    Primitive(TypeValue),
    Enum { name: String, dynamic: bool },
    Literal(LiteralValue),
    Class { name: String, dynamic: bool },
    List(Box<IrType>),
    MapType(Box<IrType>, Box<IrType>),
    RecursiveTypeAlias { name: String },
    Tuple,
    Arrow,
    Union(UnionTypeView),
    /// The type of all values; the compiler resolves it before code
    /// generation, so the generator never expects to meet it.
    Top,
}

/// What the generator looks up in the compiled program: the names of the
/// recursive type aliases that can be expanded.
pub struct IntermediateRepr {
    pub expandable_aliases: Vec<String>,
}

impl IntermediateRepr {
    /// Whether `name` is among the expandable recursive type aliases.
    pub open spec fn can_expand(self, name: Seq<char>) -> bool {
        exists|i: int| 0 <= i < self.expandable_aliases@.len() && (#[trigger] self.expandable_aliases@[i])@ == name
    }

    /// Whether the recursive type alias `name` can be expanded.
    pub fn expand_recursive_type(&self, name: &String) -> (r: bool)
        ensures
            r == self.can_expand(name@),
    {
        let mut i: usize = 0;
        while i < self.expandable_aliases.len()
            invariant
                i <= self.expandable_aliases@.len(),
                forall|j: int| 0 <= j < i ==> (#[trigger] self.expandable_aliases@[j])@ != name@,
            decreases self.expandable_aliases@.len() - i,
        {
            if self.expandable_aliases[i].eq(name) {
                return true;
            }
            i = i + 1;
        }
        false
    }
}

/// A field of a BAML class: its name, its type in the non-streaming and in
/// the streaming form, its description, and whether it was added at run
/// time (a dynamic field).
pub struct FieldWalker {
    pub name: String,
    pub field_type: IrType,
    pub stream_type: IrType,
    pub description: Option<String>,
    pub dynamic: bool,
}

/// A BAML class.
pub struct ClassWalker {
    pub name: String,
    pub description: Option<String>,
    pub fields: Vec<FieldWalker>,
}

/// One value of a BAML enum.
pub struct EnumValueWalker {
    pub name: String,
    pub description: Option<String>,
}

/// A BAML enum.
pub struct EnumWalker {
    pub name: String,
    pub description: Option<String>,
    pub values: Vec<EnumValueWalker>,
}

/// A BAML function: its name, its parameters with their (non-streaming)
/// types, and its (non-streaming) return type.
pub struct FunctionNode {
    pub name: String,
    pub inputs: Vec<(String, IrType)>,
    pub output: IrType,
}

/// A BAML type alias and the (non-streaming) type it stands for.
pub struct TypeAlias {
    pub name: String,
    pub target: IrType,
}

} // verus!
