use vstd::prelude::*;

use crate::text::{chars_of, push_char};

verus! {

/// How one character is written inside a Gleam string literal.
pub open spec fn escape_char(c: char) -> Seq<char> {
    if c == '\\' {
        seq!['\\', '\\']
    } else if c == '"' {
        seq!['\\', '"']
    } else if c == '\n' {
        seq!['\\', 'n']
    } else if c == '\r' {
        seq!['\\', 'r']
    } else if c == '\t' {
        seq!['\\', 't']
    } else {
        seq![c]
    }
}

/// A string written for a Gleam string literal: each character escaped in
/// turn.
pub open spec fn escaped(s: Seq<char>) -> Seq<char>
    decreases s.len(),
{
    if s.len() == 0 {
        Seq::empty()
    } else {
        escape_char(s[0]) + escaped(s.drop_first())
    }
}

/// Reads back the text of a Gleam string literal body written by
/// [`escape_string`].
pub open spec fn unescaped(t: Seq<char>) -> Seq<char>
    decreases t.len(),
{
    if t.len() == 0 {
        Seq::empty()
    } else if t[0] == '\\' && t.len() >= 2 {
        let c = if t[1] == 'n' {
            '\n'
        } else if t[1] == 'r' {
            '\r'
        } else if t[1] == 't' {
            '\t'
        } else {
            t[1]
        };
        seq![c] + unescaped(t.subrange(2, t.len() as int))
    } else {
        seq![t[0]] + unescaped(t.drop_first())
    }
}

proof fn lemma_escaped_push(s: Seq<char>, c: char)
    ensures
        escaped(s.push(c)) == escaped(s) + escape_char(c),
    decreases s.len(),
{
    if s.len() == 0 {
        assert(s.push(c).drop_first() =~= Seq::<char>::empty());
        assert(escaped(Seq::<char>::empty()) =~= Seq::<char>::empty());
        assert(escaped(s.push(c)) =~= escape_char(c) + Seq::<char>::empty());
        assert(escaped(s) =~= Seq::<char>::empty());
    } else {
        assert(s.push(c).drop_first() =~= s.drop_first().push(c));
        lemma_escaped_push(s.drop_first(), c);
        assert(escaped(s.push(c)) =~= escape_char(s[0]) + (escaped(s.drop_first()) + escape_char(c)));
    }
}

/// Escapes a string for use inside a Gleam string literal: backslash,
/// double quote, newline, carriage return and tab become two-character
/// escapes; every other character stays as it is.
pub fn escape_string(s: &str) -> (r: String)
    ensures
        r@ == escaped(s@),
{
    let chars = chars_of(s);
    let mut out = String::new();
    let mut i: usize = 0;
    while i < chars.len()
        invariant
            chars@ == s@,
            i <= chars@.len(),
            out@ == escaped(chars@.take(i as int)),
        decreases chars@.len() - i,
    {
        let c = chars[i];
        proof {
            assert(chars@.take(i + 1) =~= chars@.take(i as int).push(c));
            lemma_escaped_push(chars@.take(i as int), c);
            reveal_strlit("\\\\");
            reveal_strlit("\\\"");
            reveal_strlit("\\n");
            reveal_strlit("\\r");
            reveal_strlit("\\t");
        }
        if c == '\\' {
            out.append("\\\\");
        } else if c == '"' {
            out.append("\\\"");
        } else if c == '\n' {
            out.append("\\n");
        } else if c == '\r' {
            out.append("\\r");
        } else if c == '\t' {
            out.append("\\t");
        } else {
            push_char(&mut out, c);
        }
        i = i + 1;
    }
    assert(chars@.take(chars@.len() as int) =~= chars@);
    out
}

/// Escaping loses nothing: reading an escaped string back gives the
/// original string.
pub proof fn escape_round_trip(s: Seq<char>)
    ensures
        unescaped(escaped(s)) == s,
    decreases s.len(),
{
    if s.len() > 0 {
        let e = escaped(s);
        let head = escape_char(s[0]);
        let rest = escaped(s.drop_first());
        escape_round_trip(s.drop_first());
        assert(e == head + rest);
        if head.len() == 2 {
            assert(e.subrange(2, e.len() as int) =~= rest);
        } else {
            assert(e.drop_first() =~= rest);
        }
        assert(unescaped(e) =~= s);
    }
}

/// An escaped string holds no raw newline, carriage return or tab, so it
/// fits on one line of a Gleam string literal.
pub proof fn escaped_has_no_line_breaks(s: Seq<char>)
    ensures
        forall|i: int|
            0 <= i < escaped(s).len() ==> #[trigger] escaped(s)[i] != '\n' && escaped(s)[i] != '\r'
                && escaped(s)[i] != '\t',
    decreases s.len(),
{
    if s.len() > 0 {
        escaped_has_no_line_breaks(s.drop_first());
        let head = escape_char(s[0]);
        let rest = escaped(s.drop_first());
        assert forall|i: int| 0 <= i < escaped(s).len() implies #[trigger] escaped(s)[i] != '\n' && escaped(s)[i]
            != '\r' && escaped(s)[i] != '\t' by {
            if i >= head.len() {
                assert(escaped(s)[i] == rest[i - head.len()]);
            }
        }
    }
}

/// The error type that rendering reports to its callers.
#[verifier::external_type_specification]
#[verifier::external_body]
pub struct ExAnyhowError(anyhow::Error);

/// Wraps a template error as an `anyhow::Error`.
///
/// Calls `anyhow::Error::from`, which keeps the template error as the
/// source of the new error; nothing about the new error is stated.
#[verifier::external_body]
fn template_error(e: askama::Error) -> anyhow::Error {
    anyhow::Error::from(e)
}

/// The Gleam module of foreign-function bindings.
pub struct GleamFFI;

impl GleamFFI {
    /// Hands on the text that the module's template produced, or its error
    /// as an `anyhow::Error`.
    pub fn render(&self, rendered: Result<String, askama::Error>) -> (r: Result<String, anyhow::Error>)
        ensures
            rendered matches Ok(text) ==> r == Ok::<String, anyhow::Error>(text),
            rendered is Err <==> r is Err,
    {
        match rendered {
            Ok(text) => Ok(text),
            Err(e) => Err(template_error(e)),
        }
    }
}

} // verus!
