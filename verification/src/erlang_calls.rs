use vstd::prelude::*;
use vstd::utf8::{decode_utf8, valid_utf8};

use crate::erlang_term::{
    atom, atom_term, baml_value_to_term, binary_of, binary_term, read_term, term_error_text, term_list_view,
    term_pairs_view, term_value, to_term, utf8_text, ErlTerm, ErlTermView, ReadError,
};
use crate::types::{tags_map, texts, RuntimeContext, RuntimeContextBuilder};
use crate::value::{entries_view, BamlValue, BamlValueView};

verus! {

broadcast use vstd::std_specs::vec::group_vec_axioms;

/// Why the context term of a call could not be read.
#[derive(Clone, Copy, Debug, PartialEq, Eq)]
pub enum ContextError {
    /// The context is not a map.
    NotAMap,
    /// A key of the context is not a UTF-8 binary.
    KeyDecode,
    /// The value under `tags` is not a list of UTF-8 binaries.
    TagsDecode,
}

/// The message of a context error, as a call reports it.
pub open spec fn context_error_text(e: ContextError) -> Seq<char> {
    match e {
        ContextError::NotAMap => "Failed to decode context: BadArg"@,
        ContextError::KeyDecode => "Failed to decode context key: BadArg"@,
        ContextError::TagsDecode => "Failed to decode tags: BadArg"@,
    }
}

impl ContextError {
    /// The message that describes the error.
    pub fn message(&self) -> (r: String)
        ensures
            r@ == context_error_text(*self),
    {
        match self {
            ContextError::NotAMap => String::from_str("Failed to decode context: BadArg"),
            ContextError::KeyDecode => String::from_str("Failed to decode context key: BadArg"),
            ContextError::TagsDecode => String::from_str("Failed to decode tags: BadArg"),
        }
    }
}

/// Where reading a context term stops: at an error that the reading
/// reports, or at the improper tail of the tags list, on which the list
/// decoding of `rustler` panics.
#[derive(Clone, Copy, Debug, PartialEq, Eq)]
pub enum ContextStop {
    Refused(ContextError),
    ImproperList,
}

/// The text of a term that is a UTF-8 binary.
pub open spec fn binary_text(t: ErlTermView) -> Option<Seq<char>> {
    match t {
        ErlTermView::Binary(b) => if valid_utf8(b) {
            Some(decode_utf8(b))
        } else {
            None
        },
        _ => None,
    }
}

/// The texts of terms that are all UTF-8 binaries.
pub open spec fn binary_texts(items: Seq<ErlTermView>) -> Option<Seq<Seq<char>>> {
    if forall|i: int| 0 <= i < items.len() ==> (#[trigger] binary_text(items[i])) is Some {
        Some(Seq::new(items.len(), |i: int| binary_text(items[i])->Some_0))
    } else {
        None
    }
}

/// The tags that the value under `tags` lists. Its items are decoded in
/// order, so an improper list stops the reading only when every item
/// before its tail is a UTF-8 binary.
pub open spec fn tags_value(v: ErlTermView) -> Result<Seq<Seq<char>>, ContextStop> {
    match v {
        ErlTermView::List(items) => match binary_texts(items) {
            Some(ts) => Ok(ts),
            None => Err(ContextStop::Refused(ContextError::TagsDecode)),
        },
        ErlTermView::ImproperList(items) => match binary_texts(items) {
            Some(_) => Err(ContextStop::ImproperList),
            None => Err(ContextStop::Refused(ContextError::TagsDecode)),
        },
        _ => Err(ContextStop::Refused(ContextError::TagsDecode)),
    }
}

/// The tags of the entries of a context map, read in order: every key must
/// be a UTF-8 binary; the entry `tags` gives tags; every other entry,
/// `client_registry` among them, is passed over.
pub open spec fn entries_tags(pairs: Seq<(ErlTermView, ErlTermView)>) -> Result<Seq<Seq<char>>, ContextStop>
    decreases pairs.len(),
{
    if pairs.len() == 0 {
        Ok(Seq::empty())
    } else {
        match binary_text(pairs[0].0) {
            None => Err(ContextStop::Refused(ContextError::KeyDecode)),
            Some(k) => {
                let rest = entries_tags(pairs.drop_first());
                if k == "tags"@ {
                    match tags_value(pairs[0].1) {
                        Err(e) => Err(e),
                        Ok(ts) => match rest {
                            Ok(more) => Ok(ts + more),
                            Err(e) => Err(e),
                        },
                    }
                } else {
                    rest
                }
            },
        }
    }
}

/// The tags that a context term gives: it must be a map.
pub open spec fn context_tags(t: ErlTermView) -> Result<Seq<Seq<char>>, ContextStop> {
    match t {
        ErlTermView::MapTerm(pairs) => entries_tags(pairs),
        _ => Err(ContextStop::Refused(ContextError::NotAMap)),
    }
}

fn read_binary(t: &ErlTerm) -> (r: Option<String>)
    ensures
        match binary_text(t@) {
            Some(s) => r matches Some(out) && out@ == s,
            None => r is None,
        },
{
    match t {
        ErlTerm::Binary(b) => utf8_text(b),
        _ => None,
    }
}

fn read_binaries(items: &Vec<ErlTerm>) -> (r: Option<Vec<String>>)
    ensures
        match binary_texts(term_list_view(*items)) {
            Some(ts) => r matches Some(out) && texts(out@) == ts,
            None => r is None,
        },
{
    let ghost all = term_list_view(*items);
    let mut out: Vec<String> = Vec::new();
    let mut i: usize = 0;
    while i < items.len()
        invariant
            all == term_list_view(*items),
            i <= items@.len(),
            out@.len() == i,
            forall|j: int| 0 <= j < i ==> (#[trigger] binary_text(all[j])) == Some(out@[j]@),
        decreases items@.len() - i,
    {
        assert(all[i as int] == items@[i as int]@);
        match read_binary(&items[i]) {
            None => {
                assert(binary_text(all[i as int]) is None);
                return None;
            },
            Some(s) => {
                out.push(s);
            },
        }
        i = i + 1;
    }
    assert(texts(out@) =~= Seq::new(all.len(), |j: int| binary_text(all[j])->Some_0));
    Some(out)
}

fn read_tags(v: &ErlTerm) -> (r: Result<Vec<String>, ContextStop>)
    ensures
        match tags_value(v@) {
            Ok(ts) => r matches Ok(out) && texts(out@) == ts,
            Err(e) => r == Err::<Vec<String>, ContextStop>(e),
        },
{
    match v {
        ErlTerm::List(items) => match read_binaries(items) {
            Some(ts) => Ok(ts),
            None => Err(ContextStop::Refused(ContextError::TagsDecode)),
        },
        ErlTerm::ImproperList(items) => match read_binaries(items) {
            Some(_) => Err(ContextStop::ImproperList),
            None => Err(ContextStop::Refused(ContextError::TagsDecode)),
        },
        _ => Err(ContextStop::Refused(ContextError::TagsDecode)),
    }
}

/// `prefix` before the tags in `r`, or the stop in `r`.
pub open spec fn prepend_tags(prefix: Seq<Seq<char>>, r: Result<Seq<Seq<char>>, ContextStop>) -> Result<
    Seq<Seq<char>>,
    ContextStop,
> {
    match r {
        Ok(ts) => Ok(prefix + ts),
        Err(e) => Err(e),
    }
}

fn read_entries_tags(pairs: &Vec<(ErlTerm, ErlTerm)>) -> (r: Result<Vec<String>, ContextStop>)
    ensures
        match entries_tags(term_pairs_view(*pairs)) {
            Ok(ts) => r matches Ok(out) && texts(out@) == ts,
            Err(e) => r == Err::<Vec<String>, ContextStop>(e),
        },
{
    let ghost all = term_pairs_view(*pairs);
    let mut out: Vec<String> = Vec::new();
    let mut i: usize = 0;
    let tags_key = String::from_str("tags");
    proof {
        reveal_strlit("tags");
    }
    assert(all.skip(0) =~= all);
    assert(prepend_tags(texts(out@), entries_tags(all)) =~= entries_tags(all)) by {
        assert(texts(out@) =~= Seq::<Seq<char>>::empty());
        match entries_tags(all) {
            Ok(ts) => {
                assert(Seq::<Seq<char>>::empty() + ts =~= ts);
            },
            Err(e) => {},
        }
    }
    while i < pairs.len()
        invariant
            all == term_pairs_view(*pairs),
            tags_key@ == "tags"@,
            i <= pairs@.len(),
            entries_tags(all) == prepend_tags(texts(out@), entries_tags(all.skip(i as int))),
        decreases pairs@.len() - i,
    {
        let ghost rest = all.skip(i as int);
        assert(rest[0] == (pairs@[i as int].0@, pairs@[i as int].1@));
        assert(rest.drop_first() =~= all.skip(i + 1));
        let (key, value) = &pairs[i];
        let k = match read_binary(key) {
            None => {
                return Err(ContextStop::Refused(ContextError::KeyDecode));
            },
            Some(k) => k,
        };
        if k.eq(&tags_key) {
            let ts = match read_tags(value) {
                Err(e) => {
                    return Err(e);
                },
                Ok(ts) => ts,
            };
            let ghost before = texts(out@);
            let mut ts = ts;
            out.append(&mut ts);
            proof {
                let added = tags_value(rest[0].1)->Ok_0;
                assert(texts(out@) =~= before + added);
                match entries_tags(all.skip(i + 1)) {
                    Ok(more) => {
                        assert(before + (added + more) =~= (before + added) + more);
                    },
                    Err(e) => {},
                }
            }
        }
        i = i + 1;
    }
    assert(all.skip(pairs@.len() as int) =~= Seq::<(ErlTermView, ErlTermView)>::empty());
    assert(texts(out@) + Seq::<Seq<char>>::empty() =~= texts(out@));
    Ok(out)
}

/// Reads the context term of a call, as [`parse_runtime_context`] does, and
/// tells where the reading stops.
///
/// The context holds each tag under its own name, as
/// [`RuntimeContextBuilder::build`] makes it.
pub fn read_context(term: &ErlTerm) -> (r: Result<RuntimeContext, ContextStop>)
    ensures
        match context_tags(term@) {
            Ok(ts) => r matches Ok(c) && entries_view(c.tags) == tags_map(ts),
            Err(e) => r matches Err(stop) && stop == e,
        },
{
    match term {
        ErlTerm::MapTerm(pairs) => match read_entries_tags(pairs) {
            Ok(tags) => {
                let builder = RuntimeContextBuilder { tags, client_registry: None };
                Ok(builder.build())
            },
            Err(e) => Err(e),
        },
        _ => Err(ContextStop::Refused(ContextError::NotAMap)),
    }
}

/// Reads the context of a call from an Erlang map: the tags listed under
/// the key `tags`, each held under its own name; the entry
/// `client_registry`, and any other entry, is passed over. A context whose
/// tags list is improper is outside the domain: decoding it panics.
pub fn parse_runtime_context(term: &ErlTerm) -> (r: Result<RuntimeContext, ContextError>)
    requires
        context_tags(term@) != Err::<Seq<Seq<char>>, ContextStop>(ContextStop::ImproperList),
    ensures
        match context_tags(term@) {
            Ok(ts) => r matches Ok(c) && entries_view(c.tags) == tags_map(ts),
            Err(ContextStop::Refused(e)) => r matches Err(e2) && e2 == e,
            Err(ContextStop::ImproperList) => false,
        },
{
    match read_context(term) {
        Ok(c) => Ok(c),
        Err(ContextStop::Refused(e)) => Err(e),
        Err(ContextStop::ImproperList) => {
            proof {
                assert(false);
            }
            Err(ContextError::TagsDecode)
        },
    }
}

/// Whether a context term is the atom `nil`, which stands for no context.
pub open spec fn is_nil(t: ErlTermView) -> bool {
    t == atom("nil"@)
}

fn is_nil_exec(t: &ErlTerm) -> (r: bool)
    ensures
        r == is_nil(t@),
{
    match t {
        ErlTerm::Atom(a) => {
            let nil = String::from_str("nil");
            a.eq(&nil)
        },
        _ => false,
    }
}

/// Reads what a call is given: the arguments term as a BAML value, then the
/// context term, unless it is the atom `nil`; or the message of the first
/// error met. Where either reading would meet an improper list, the input
/// is outside the domain.
pub fn call_input(args: &ErlTerm, ctx: &ErlTerm) -> (r: Result<(BamlValue, Option<RuntimeContext>), String>)
    requires
        term_value(args@) != Err::<BamlValueView, ReadError>(ReadError::ImproperList),
        term_value(args@) is Ok && !is_nil(ctx@) ==> context_tags(ctx@) != Err::<Seq<Seq<char>>, ContextStop>(
            ContextStop::ImproperList,
        ),
    ensures
        match term_value(args@) {
            Err(ReadError::Refused(e)) => r matches Err(m) && m@ == term_error_text(e),
            Err(ReadError::ImproperList) => false,
            Ok(v) => if is_nil(ctx@) {
                r matches Ok((a, c)) && a@ == v && c is None
            } else {
                match context_tags(ctx@) {
                    Ok(ts) => r matches Ok((a, Some(c))) && a@ == v && entries_view(c.tags) == tags_map(ts),
                    Err(ContextStop::Refused(e)) => r matches Err(m) && m@ == context_error_text(e),
                    Err(ContextStop::ImproperList) => false,
                }
            },
        },
{
    let value = match read_term(args) {
        Ok(v) => v,
        Err(ReadError::Refused(e)) => {
            return Err(e.message());
        },
        Err(ReadError::ImproperList) => {
            proof {
                assert(false);
            }
            return Err(String::new());
        },
    };
    if is_nil_exec(ctx) {
        return Ok((value, None));
    }
    match parse_runtime_context(ctx) {
        Ok(c) => Ok((value, Some(c))),
        Err(e) => Err(e.message()),
    }
}

/// The reply term of a call that gives a value: `{ok, Value}`, or
/// `{error, Message}` with the message a binary.
pub open spec fn value_reply(r: Result<BamlValueView, Seq<char>>) -> ErlTermView {
    match r {
        Ok(v) => ErlTermView::Tuple(seq![atom("ok"@), to_term(v)]),
        Err(m) => ErlTermView::Tuple(seq![atom("error"@), binary_of(m)]),
    }
}

/// The view of the outcome of a call.
pub open spec fn outcome_view(r: Result<BamlValue, String>) -> Result<BamlValueView, Seq<char>> {
    match r {
        Ok(v) => Ok(v@),
        Err(m) => Err(m@),
    }
}

fn error_reply(message: &String) -> (r: ErlTerm)
    ensures
        r@ == ErlTermView::Tuple(seq![atom("error"@), binary_of(message@)]),
{
    let items = vec![atom_term("error"), binary_term(message)];
    assert(term_list_view(items) =~= seq![items@[0]@, items@[1]@]);
    ErlTerm::Tuple(items)
}

/// The reply of a function call: `{ok, Value}` or `{error, Message}`.
pub fn call_reply(result: Result<BamlValue, String>) -> (r: ErlTerm)
    ensures
        r@ == value_reply(outcome_view(result)),
{
    match result {
        Ok(v) => {
            let items = vec![atom_term("ok"), baml_value_to_term(v)];
            assert(term_list_view(items) =~= seq![items@[0]@, items@[1]@]);
            ErlTerm::Tuple(items)
        },
        Err(m) => error_reply(&m),
    }
}

/// The reply for the next step of a stream: a value or an error as for a
/// call, or `{done}` once the stream has ended.
pub fn stream_reply(next: Option<Result<BamlValue, String>>) -> (r: ErlTerm)
    ensures
        match next {
            Some(result) => r@ == value_reply(outcome_view(result)),
            None => r@ == ErlTermView::Tuple(seq![atom("done"@)]),
        },
{
    match next {
        Some(result) => call_reply(result),
        None => {
            let items = vec![atom_term("done")];
            assert(term_list_view(items) =~= seq![items@[0]@]);
            ErlTerm::Tuple(items)
        },
    }
}

/// The reply of a call that gives text: `{ok, Text}` or `{error, Message}`,
/// both binaries.
pub fn text_reply(result: Result<String, String>) -> (r: ErlTerm)
    ensures
        match result {
            Ok(t) => r@ == ErlTermView::Tuple(seq![atom("ok"@), binary_of(t@)]),
            Err(m) => r@ == ErlTermView::Tuple(seq![atom("error"@), binary_of(m@)]),
        },
{
    match result {
        Ok(t) => {
            let items = vec![atom_term("ok"), binary_term(&t)];
            assert(term_list_view(items) =~= seq![items@[0]@, items@[1]@]);
            ErlTerm::Tuple(items)
        },
        Err(m) => error_reply(&m),
    }
}

/// The reply of a call that gives nothing back: the atom `ok`, or
/// `{error, Message}`.
pub fn status_reply(result: Result<(), String>) -> (r: ErlTerm)
    ensures
        match result {
            Ok(_) => r@ == atom("ok"@),
            Err(m) => r@ == ErlTermView::Tuple(seq![atom("error"@), binary_of(m@)]),
        },
{
    match result {
        Ok(_) => atom_term("ok"),
        Err(m) => error_reply(&m),
    }
}

} // verus!
