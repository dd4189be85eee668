use vstd::prelude::*;

use crate::gleam_type::{type_text, TypeGleam, TypeGleamView};
use crate::package::CurrentRenderPackage;
use crate::text::{
    chars_of, is_ascii_char, is_ascii_lower, is_ascii_upper, is_upper, is_uppercase, lower_first, push_char,
    to_lowercase_first, to_uppercase_string, upper_mapping,
};

verus! {

/// A Gleam record type generated for a BAML class.
pub struct ClassGleam<'a> {
    pub name: String,
    pub docstring: Option<String>,
    pub fields: Vec<FieldGleam<'a>>,
    pub dynamic: bool,
    pub pkg: &'a CurrentRenderPackage,
}

/// A field of a generated record type.
#[derive(Clone)]
pub struct FieldGleam<'a> {
    pub docstring: Option<String>,
    pub name: String,
    pub type_: TypeGleam,
    pub pkg: &'a CurrentRenderPackage,
}

/// A Gleam custom type generated for a BAML enum: its values, each with an
/// optional description.
pub struct EnumGleam<'a> {
    pub name: String,
    pub docstring: Option<String>,
    pub values: Vec<(String, Option<String>)>,
    pub dynamic: bool,
    pub pkg: &'a CurrentRenderPackage,
}

/// A Gleam custom type generated for a BAML union.
pub struct UnionGleam<'a> {
    pub name: String,
    pub cffi_name: String,
    pub docstring: Option<String>,
    pub variants: Vec<VariantGleam>,
    pub pkg: &'a CurrentRenderPackage,
}

/// One variant of a generated union type.
#[derive(Clone)]
pub struct VariantGleam {
    pub name: String,
    pub cffi_name: String,
    pub literal_repr: Option<String>,
    pub type_: TypeGleam,
}

/// A Gleam type alias.
pub struct TypeAliasGleam<'a> {
    pub name: String,
    pub type_: TypeGleam,
    pub docstring: Option<String>,
    pub pkg: &'a CurrentRenderPackage,
}

/// The list of type aliases rendered together into one module.
pub struct TypeAliasesTemplate<'a> {
    pub aliases: &'a [TypeAliasGleam<'a>],
}

/// snake_case to PascalCase, from the front of `s`: underscores are
/// dropped, and a character that begins a word (the first character, or
/// one right after an underscore) is replaced by its uppercase mapping.
pub open spec fn pascal_from(s: Seq<char>, word_start: bool) -> Seq<char>
    decreases s.len(),
{
    if s.len() == 0 {
        Seq::empty()
    } else if s[0] == '_' {
        pascal_from(s.drop_first(), true)
    } else if word_start {
        upper_mapping(s[0]) + pascal_from(s.drop_first(), false)
    } else {
        seq![s[0]] + pascal_from(s.drop_first(), false)
    }
}

/// The PascalCase type name for the snake_case name `s`.
pub open spec fn pascal_case(s: Seq<char>) -> Seq<char> {
    pascal_from(s, true)
}

/// camelCase or PascalCase to snake_case, from the front of `s`: an
/// uppercase character is replaced by the first character of its lowercase
/// mapping, with an underscore before it unless it is the very first
/// character.
pub open spec fn snake_from(s: Seq<char>, first: bool) -> Seq<char>
    decreases s.len(),
{
    if s.len() == 0 {
        Seq::empty()
    } else {
        let c = s[0];
        let head = if is_upper(c) {
            if first {
                seq![lower_first(c)]
            } else {
                seq!['_', lower_first(c)]
            }
        } else {
            seq![c]
        };
        head + snake_from(s.drop_first(), false)
    }
}

/// The snake_case field name for `s`.
pub open spec fn snake_case(s: Seq<char>) -> Seq<char> {
    snake_from(s, true)
}

/// Converts a snake_case name into a PascalCase name for a Gleam type.
pub fn gleam_type_name(s: &str) -> (r: String)
    ensures
        r@ == pascal_case(s@),
{
    let chars = chars_of(s);
    let mut out = String::new();
    let mut word_start = true;
    let mut i: usize = 0;
    assert(chars@.skip(0) =~= chars@);
    assert(out@ + pascal_from(chars@, true) =~= pascal_from(chars@, true));
    while i < chars.len()
        invariant
            chars@ == s@,
            i <= chars@.len(),
            pascal_case(s@) == out@ + pascal_from(chars@.skip(i as int), word_start),
        decreases chars@.len() - i,
    {
        let c = chars[i];
        let ghost rest = chars@.skip(i as int);
        assert(rest.drop_first() =~= chars@.skip(i + 1));
        if c == '_' {
            word_start = true;
        } else if word_start {
            let up = to_uppercase_string(c);
            out.append(up.as_str());
            word_start = false;
        } else {
            push_char(&mut out, c);
            word_start = false;
        }
        assert(pascal_case(s@) == out@ + pascal_from(chars@.skip(i + 1), word_start));
        i = i + 1;
    }
    assert(chars@.skip(chars@.len() as int) =~= Seq::<char>::empty());
    assert(out@ + Seq::<char>::empty() =~= out@);
    out
}

/// Converts a camelCase or PascalCase name into a snake_case name for a
/// Gleam field.
pub fn field_name(s: &str) -> (r: String)
    ensures
        r@ == snake_case(s@),
{
    let chars = chars_of(s);
    let mut out = String::new();
    let mut i: usize = 0;
    assert(chars@.skip(0) =~= chars@);
    assert(out@ + snake_from(chars@, true) =~= snake_from(chars@, true));
    while i < chars.len()
        invariant
            chars@ == s@,
            i <= chars@.len(),
            snake_case(s@) == out@ + snake_from(chars@.skip(i as int), i == 0),
        decreases chars@.len() - i,
    {
        let c = chars[i];
        let ghost rest = chars@.skip(i as int);
        assert(rest.drop_first() =~= chars@.skip(i + 1));
        if is_uppercase(c) {
            if i != 0 {
                push_char(&mut out, '_');
            }
            let lower = to_lowercase_first(c);
            push_char(&mut out, lower);
        } else {
            push_char(&mut out, c);
        }
        assert(snake_case(s@) == out@ + snake_from(chars@.skip(i + 1), false));
        i = i + 1;
    }
    assert(chars@.skip(chars@.len() as int) =~= Seq::<char>::empty());
    assert(out@ + Seq::<char>::empty() =~= out@);
    out
}

/// Characters of a snake_case identifier: `a`-`z`, `0`-`9` and `_`.
pub open spec fn is_snake_char(c: char) -> bool {
    is_ascii_lower(c) || ('0' <= c && c <= '9') || c == '_'
}

/// Every underscore of `t` is followed by a letter from `a` to `z`.
pub open spec fn underscores_start_words(t: Seq<char>) -> bool {
    forall|i: int| #![trigger t[i]] 0 <= i < t.len() && t[i] == '_' ==> i + 1 < t.len() && is_ascii_lower(t[i + 1])
}

/// A snake_case identifier: words of `a`-`z` and `0`-`9`, each beginning
/// with a letter, joined by single underscores.
pub open spec fn is_snake_identifier(s: Seq<char>) -> bool {
    &&& s.len() > 0
    &&& is_ascii_lower(s[0])
    &&& forall|i: int| 0 <= i < s.len() ==> is_snake_char(#[trigger] s[i])
    &&& underscores_start_words(s)
}

proof fn lemma_upper_lower(c: char)
    requires
        is_ascii_lower(c),
    ensures
        upper_mapping(c) == seq![((c as u32) - 32) as char],
        is_upper(((c as u32) - 32) as char),
        lower_first(((c as u32) - 32) as char) == c,
{
}

proof fn lemma_snake_of_pascal_tail(t: Seq<char>)
    requires
        forall|i: int| 0 <= i < t.len() ==> is_snake_char(#[trigger] t[i]),
        underscores_start_words(t),
    ensures
        snake_from(pascal_from(t, false), false) == t,
    decreases t.len(),
{
    if t.len() > 0 {
        if t[0] == '_' {
            assert(1 < t.len() && is_ascii_lower(t[1]));
            let c = t[1];
            let u = ((c as u32) - 32) as char;
            let rest = t.subrange(2, t.len() as int);
            assert(t.drop_first().drop_first() =~= rest);
            assert forall|i: int| #![trigger rest[i]] 0 <= i < rest.len() && rest[i] == '_' implies i + 1 < rest.len()
                && is_ascii_lower(rest[i + 1]) by {
                assert(t[i + 2] == '_');
            }
            assert forall|i: int| 0 <= i < rest.len() implies is_snake_char(#[trigger] rest[i]) by {
                assert(is_snake_char(t[i + 2]));
            }
            lemma_snake_of_pascal_tail(rest);
            lemma_upper_lower(c);
            let p = pascal_from(rest, false);
            assert(pascal_from(t, false) == pascal_from(t.drop_first(), true));
            assert(pascal_from(t.drop_first(), true) == seq![u] + p);
            assert((seq![u] + p)[0] == u);
            assert((seq![u] + p).drop_first() =~= p);
            assert(snake_from(seq![u] + p, false) == seq!['_', c] + snake_from(p, false));
            assert(t =~= seq!['_', c] + rest);
        } else {
            let c = t[0];
            let rest = t.drop_first();
            assert forall|i: int| #![trigger rest[i]] 0 <= i < rest.len() && rest[i] == '_' implies i + 1 < rest.len()
                && is_ascii_lower(rest[i + 1]) by {
                assert(t[i + 1] == '_');
            }
            assert forall|i: int| 0 <= i < rest.len() implies is_snake_char(#[trigger] rest[i]) by {
                assert(is_snake_char(t[i + 1]));
            }
            lemma_snake_of_pascal_tail(rest);
            let p = pascal_from(rest, false);
            assert(pascal_from(t, false) == seq![c] + p);
            assert((seq![c] + p)[0] == c);
            assert((seq![c] + p).drop_first() =~= p);
            assert(!is_upper(c));
            assert(snake_from(seq![c] + p, false) == seq![c] + snake_from(p, false));
            assert(t =~= seq![c] + rest);
        }
    }
}

/// The two name filters undo each other on snake_case identifiers: the
/// field name of the type name of `s` is `s` again.
pub proof fn snake_case_of_pascal_case(s: Seq<char>)
    requires
        is_snake_identifier(s),
    ensures
        snake_case(pascal_case(s)) == s,
{
    let c = s[0];
    let u = ((c as u32) - 32) as char;
    let rest = s.drop_first();
    assert forall|i: int| #![trigger rest[i]] 0 <= i < rest.len() && rest[i] == '_' implies i + 1 < rest.len()
        && is_ascii_lower(rest[i + 1]) by {
        assert(s[i + 1] == '_');
    }
    assert forall|i: int| 0 <= i < rest.len() implies is_snake_char(#[trigger] rest[i]) by {
        assert(is_snake_char(s[i + 1]));
    }
    lemma_snake_of_pascal_tail(rest);
    lemma_upper_lower(c);
    let p = pascal_from(rest, false);
    assert(pascal_case(s) == seq![u] + p);
    assert((seq![u] + p)[0] == u);
    assert((seq![u] + p).drop_first() =~= p);
    assert(snake_from(seq![u] + p, true) == seq![c] + snake_from(p, false));
    assert(s =~= seq![c] + rest);
}

/// On ASCII names, a type name holds no underscore.
pub proof fn pascal_case_has_no_underscore(s: Seq<char>)
    requires
        forall|i: int| 0 <= i < s.len() ==> is_ascii_char(#[trigger] s[i]),
    ensures
        !pascal_case(s).contains('_'),
{
    lemma_pascal_no_underscore(s, true);
}

proof fn lemma_pascal_no_underscore(s: Seq<char>, b: bool)
    requires
        forall|i: int| 0 <= i < s.len() ==> is_ascii_char(#[trigger] s[i]),
    ensures
        !pascal_from(s, b).contains('_'),
    decreases s.len(),
{
    if s.len() > 0 {
        let rest = s.drop_first();
        assert forall|i: int| 0 <= i < rest.len() implies is_ascii_char(#[trigger] rest[i]) by {
            assert(is_ascii_char(s[i + 1]));
        }
        lemma_pascal_no_underscore(rest, true);
        lemma_pascal_no_underscore(rest, false);
        if s[0] != '_' {
            let head = if b { upper_mapping(s[0]) } else { seq![s[0]] };
            let tail = pascal_from(rest, false);
            assert(pascal_from(s, b) == head + tail);
            assert forall|i: int| 0 <= i < (head + tail).len() implies (head + tail)[i] != '_' by {
                if i >= head.len() {
                    assert((head + tail)[i] == tail[i - head.len()]);
                    assert(!tail.contains('_'));
                }
            }
        }
    }
}

/// On ASCII names, a field name holds no uppercase letter.
pub proof fn snake_case_has_no_uppercase(s: Seq<char>)
    requires
        forall|i: int| 0 <= i < s.len() ==> is_ascii_char(#[trigger] s[i]),
    ensures
        forall|i: int| 0 <= i < snake_case(s).len() ==> !is_ascii_upper(#[trigger] snake_case(s)[i]),
{
    lemma_snake_no_upper(s, true);
}

proof fn lemma_snake_no_upper(s: Seq<char>, first: bool)
    requires
        forall|i: int| 0 <= i < s.len() ==> is_ascii_char(#[trigger] s[i]),
    ensures
        forall|i: int| 0 <= i < snake_from(s, first).len() ==> !is_ascii_upper(#[trigger] snake_from(s, first)[i]),
    decreases s.len(),
{
    if s.len() > 0 {
        let rest = s.drop_first();
        assert forall|i: int| 0 <= i < rest.len() implies is_ascii_char(#[trigger] rest[i]) by {
            assert(is_ascii_char(s[i + 1]));
        }
        lemma_snake_no_upper(rest, false);
        let c = s[0];
        let head = if is_upper(c) {
            if first {
                seq![lower_first(c)]
            } else {
                seq!['_', lower_first(c)]
            }
        } else {
            seq![c]
        };
        let tail = snake_from(rest, false);
        assert(snake_from(s, first) == head + tail);
        assert forall|i: int| 0 <= i < (head + tail).len() implies !is_ascii_upper(#[trigger] (head + tail)[i]) by {
            if i >= head.len() {
                assert((head + tail)[i] == tail[i - head.len()]);
            }
        }
    }
}

/// The error type of template rendering.
#[verifier::external_type_specification]
#[verifier::external_body]
pub struct ExAskamaError(askama::Error);

/// The line that documents a generated item: `/// ` and the docstring, or
/// nothing; then the line break that ends it.
pub open spec fn doc_prefix(docstring: Option<String>) -> Seq<char> {
    match docstring {
        Some(doc) => "/// "@ + doc@ + "\n"@,
        None => "\n"@,
    }
}

/// The text of a generated record field: its documentation line, then
/// `name: Type` with the name in snake_case.
pub open spec fn field_text(f: FieldGleam) -> Seq<char> {
    doc_prefix(f.docstring) + snake_case(f.name@) + ": "@ + type_text(f.type_@, f.pkg.current_module@)
}

/// The text of a generated type alias: its documentation line, then
/// `pub type Name = Type`.
pub open spec fn type_alias_text(a: TypeAliasGleam) -> Seq<char> {
    doc_prefix(a.docstring) + "pub type "@ + a.name@ + " = "@ + type_text(a.type_@, a.pkg.current_module@)
}

/// Each type alias on a line of its own, with a blank line between
/// consecutive ones.
pub open spec fn type_aliases_text(aliases: Seq<TypeAliasGleam>) -> Seq<char>
    decreases aliases.len(),
{
    if aliases.len() == 0 {
        Seq::empty()
    } else {
        type_aliases_text(aliases.drop_last()) + "\n"@ + type_alias_text(aliases.last()) + "\n"@
    }
}

/// The module that defines the Gleam types every generated module relies on.
pub open spec fn types_utils_text() -> Seq<char> {
    "import gleam/dynamic.{type Dynamic}\nimport gleam/option.{type Option}\nimport gleam/result.{type Result}\nimport baml_gleam\n\npub type Checked(a) = Result(a, List(String))\n\npub type Image = baml_gleam.Image\npub type Audio = baml_gleam.Audio\npub type Video = baml_gleam.Video\npub type Pdf = baml_gleam.Pdf"@
}

fn doc_line(docstring: &Option<String>) -> (r: String)
    ensures
        r@ == doc_prefix(*docstring),
{
    match docstring {
        Some(doc) => {
            let mut s = String::from_str("/// ");
            s.append(doc.as_str());
            s.append("\n");
            s
        },
        None => String::from_str("\n"),
    }
}

impl<'a> FieldGleam<'a> {
    /// The field as it is written inside a generated record type.
    pub fn render(&self) -> (r: String)
        ensures
            r@ == field_text(*self),
    {
        let mut s = doc_line(&self.docstring);
        let name = field_name(self.name.as_str());
        s.append(name.as_str());
        s.append(": ");
        let ty = self.type_.serialize_type(self.pkg);
        s.append(ty.as_str());
        s
    }
}

impl<'a> TypeAliasGleam<'a> {
    /// The type alias as it is written in a generated module.
    pub fn render(&self) -> (r: String)
        ensures
            r@ == type_alias_text(*self),
    {
        let mut s = doc_line(&self.docstring);
        s.append("pub type ");
        s.append(self.name.as_str());
        s.append(" = ");
        let ty = self.type_.serialize_type(self.pkg);
        s.append(ty.as_str());
        s
    }
}

impl<'a> TypeAliasesTemplate<'a> {
    /// The type aliases, rendered in order.
    pub fn render(&self) -> (r: Result<String, askama::Error>)
        ensures
            r matches Ok(text) && text@ == type_aliases_text(self.aliases@),
    {
        let mut out = String::new();
        let mut i: usize = 0;
        while i < self.aliases.len()
            invariant
                i <= self.aliases@.len(),
                out@ == type_aliases_text(self.aliases@.take(i as int)),
            decreases self.aliases@.len() - i,
        {
            proof {
                assert(self.aliases@.take(i + 1).drop_last() =~= self.aliases@.take(i as int));
            }
            out.append("\n");
            let alias = self.aliases[i].render();
            out.append(alias.as_str());
            out.append("\n");
            i = i + 1;
        }
        assert(self.aliases@.take(self.aliases@.len() as int) =~= self.aliases@);
        Ok(out)
    }
}

/// `line` is a whole line of `text`, starting at `i`: it stands at the start
/// of the text or after a line break, and is followed by a line break or by
/// the end of the text.
pub open spec fn line_at(text: Seq<char>, line: Seq<char>, i: int) -> bool {
    &&& 0 <= i && i + line.len() <= text.len()
    &&& text.subrange(i, i + line.len()) == line
    &&& (i == 0 || text[i - 1] == '\n')
    &&& (i + line.len() == text.len() || text[i + line.len()] == '\n')
}

/// `line` is a whole line of `text`.
pub open spec fn has_line(text: Seq<char>, line: Seq<char>) -> bool {
    exists|i: int| line_at(text, line, i)
}

/// The types module imports `baml_gleam`, defines `Checked`, and defines
/// each media type as the `baml_gleam` type of the same name: it holds the
/// line `pub type K = baml_gleam.K` for each of `Image`, `Audio`, `Video`
/// and `Pdf`.
pub proof fn types_utils_aliases_media_types()
    ensures
        has_line(types_utils_text(), "import baml_gleam"@),
        has_line(types_utils_text(), "pub type Checked(a) = Result(a, List(String))"@),
        has_line(types_utils_text(), "pub type Image = baml_gleam.Image"@),
        has_line(types_utils_text(), "pub type Audio = baml_gleam.Audio"@),
        has_line(types_utils_text(), "pub type Video = baml_gleam.Video"@),
        has_line(types_utils_text(), "pub type Pdf = baml_gleam.Pdf"@),
{
    let t = types_utils_text();
    reveal_strlit("import gleam/dynamic.{type Dynamic}\nimport gleam/option.{type Option}\nimport gleam/result.{type Result}\nimport baml_gleam\n\npub type Checked(a) = Result(a, List(String))\n\npub type Image = baml_gleam.Image\npub type Audio = baml_gleam.Audio\npub type Video = baml_gleam.Video\npub type Pdf = baml_gleam.Pdf");
    reveal_strlit("import baml_gleam");
    reveal_strlit("pub type Checked(a) = Result(a, List(String))");
    reveal_strlit("pub type Image = baml_gleam.Image");
    reveal_strlit("pub type Audio = baml_gleam.Audio");
    reveal_strlit("pub type Video = baml_gleam.Video");
    reveal_strlit("pub type Pdf = baml_gleam.Pdf");
    assert(t.subrange(104, 121) =~= "import baml_gleam"@);
    assert(line_at(t, "import baml_gleam"@, 104));
    assert(t.subrange(123, 168) =~= "pub type Checked(a) = Result(a, List(String))"@);
    assert(line_at(t, "pub type Checked(a) = Result(a, List(String))"@, 123));
    assert(t.subrange(170, 203) =~= "pub type Image = baml_gleam.Image"@);
    assert(line_at(t, "pub type Image = baml_gleam.Image"@, 170));
    assert(t.subrange(204, 237) =~= "pub type Audio = baml_gleam.Audio"@);
    assert(line_at(t, "pub type Audio = baml_gleam.Audio"@, 204));
    assert(t.subrange(238, 271) =~= "pub type Video = baml_gleam.Video"@);
    assert(line_at(t, "pub type Video = baml_gleam.Video"@, 238));
    assert(t.subrange(272, 301) =~= "pub type Pdf = baml_gleam.Pdf"@);
    assert(line_at(t, "pub type Pdf = baml_gleam.Pdf"@, 272));
}

/// A rendered type alias is its documentation line, `/// ` and the
/// docstring (or an empty line where there is none), then
/// `pub type Name = Type` with the type spelled from the current module; a
/// rendered field is the documentation line, then `name: Type` with the
/// name in snake_case.
pub proof fn rendered_items_layout<'a>(a: TypeAliasGleam<'a>, f: FieldGleam<'a>)
    ensures
        a.docstring matches Some(d) ==> type_alias_text(a) == "/// "@ + d@ + "\n"@ + "pub type "@ + a.name@ + " = "@
            + type_text(a.type_@, a.pkg.current_module@),
        a.docstring is None ==> type_alias_text(a) == "\n"@ + "pub type "@ + a.name@ + " = "@ + type_text(
            a.type_@,
            a.pkg.current_module@,
        ),
        f.docstring matches Some(d) ==> field_text(f) == "/// "@ + d@ + "\n"@ + snake_case(f.name@) + ": "@
            + type_text(f.type_@, f.pkg.current_module@),
        f.docstring is None ==> field_text(f) == "\n"@ + snake_case(f.name@) + ": "@ + type_text(
            f.type_@,
            f.pkg.current_module@,
        ),
{
}

/// Renders the module of Gleam types that generated code relies on.
pub fn render_gleam_types_utils(_pkg: &CurrentRenderPackage) -> (r: Result<String, askama::Error>)
    ensures
        r matches Ok(text) && text@ == types_utils_text(),
{
    Ok(
        String::from_str(
            "import gleam/dynamic.{type Dynamic}\nimport gleam/option.{type Option}\nimport gleam/result.{type Result}\nimport baml_gleam\n\npub type Checked(a) = Result(a, List(String))\n\npub type Image = baml_gleam.Image\npub type Audio = baml_gleam.Audio\npub type Video = baml_gleam.Video\npub type Pdf = baml_gleam.Pdf",
        ),
    )
}

/// Renders a list of type aliases into module text.
pub fn render_type_aliases(aliases: &[TypeAliasGleam]) -> (r: Result<String, askama::Error>)
    ensures
        r matches Ok(text) && text@ == type_aliases_text(aliases@),
{
    TypeAliasesTemplate { aliases }.render()
}

} // verus!
