use vstd::prelude::*;
use vstd::utf8::{decode_utf8, encode_utf8, valid_utf8};

use crate::ir::BamlMediaType;
use crate::text::chars_of;
use crate::json::{is_finite_f64_bits, is_plain, keys_distinct};
use crate::value::{
    lemma_first_key_index, baml_list_view, entries_insert, entries_view, entry_insert, media_view, BamlMedia, BamlMediaContent,
    BamlMediaContentView, BamlMediaView, BamlValue, BamlValueView,
};

verus! {

broadcast use vstd::std_specs::vec::group_vec_axioms;

/// An Erlang term as the BAML value conversions read and write it.
///
/// An integer outside the `i64` range is a `BigInt`, whose value is not
/// kept; a float is held as the bit pattern of its `f64`; a list whose
/// last tail is not the empty list is an `ImproperList` of the items before
/// that tail; a map is the map obtained by putting its pairs in order;
/// `Other` is any term of another kind (a pid, port, reference or fun).
#[derive(Debug)]
pub enum ErlTerm {
    Atom(String),
    Int(i64),
    BigInt,
    Float(u64),
    Binary(Vec<u8>),
    List(Vec<ErlTerm>),
    ImproperList(Vec<ErlTerm>),
    MapTerm(Vec<(ErlTerm, ErlTerm)>),
    Tuple(Vec<ErlTerm>),
    Other,
}

/// The mathematical value of an [`ErlTerm`].
pub enum ErlTermView {
    Atom(Seq<char>),
    Int(i64),
    BigInt,
    Float(u64),
    Binary(Seq<u8>),
    List(Seq<ErlTermView>),
    ImproperList(Seq<ErlTermView>),
    MapTerm(Seq<(ErlTermView, ErlTermView)>),
    Tuple(Seq<ErlTermView>),
    Other,
}

/// The view of each term of a list.
pub open spec fn term_list_view(l: Vec<ErlTerm>) -> Seq<ErlTermView>
    decreases l,
{
    Seq::new(
        l@.len(),
        |i: int|
            if 0 <= i < l@.len() {
                term_view(l@[i])
            } else {
                ErlTermView::Other
            },
    )
}

/// The view of each key-value pair of a map term.
pub open spec fn term_pairs_view(ps: Vec<(ErlTerm, ErlTerm)>) -> Seq<(ErlTermView, ErlTermView)>
    decreases ps,
{
    Seq::new(
        ps@.len(),
        |i: int|
            if 0 <= i < ps@.len() {
                (term_view(ps@[i].0), term_view(ps@[i].1))
            } else {
                (ErlTermView::Other, ErlTermView::Other)
            },
    )
}

/// The mathematical value of an [`ErlTerm`].
pub open spec fn term_view(t: ErlTerm) -> ErlTermView
    decreases t,
{
    match t {
        ErlTerm::Atom(a) => ErlTermView::Atom(a@),
        ErlTerm::Int(i) => ErlTermView::Int(i),
        ErlTerm::BigInt => ErlTermView::BigInt,
        ErlTerm::Float(f) => ErlTermView::Float(f),
        ErlTerm::Binary(b) => ErlTermView::Binary(b@),
        ErlTerm::List(l) => ErlTermView::List(term_list_view(l)),
        ErlTerm::ImproperList(l) => ErlTermView::ImproperList(term_list_view(l)),
        ErlTerm::MapTerm(ps) => ErlTermView::MapTerm(term_pairs_view(ps)),
        ErlTerm::Tuple(l) => ErlTermView::Tuple(term_list_view(l)),
        ErlTerm::Other => ErlTermView::Other,
    }
}

impl View for ErlTerm {
    type V = ErlTermView;

    open spec fn view(&self) -> ErlTermView {
        term_view(*self)
    }
}

/// Why an Erlang term could not be read as a BAML value.
#[derive(Clone, Copy, Debug, PartialEq, Eq)]
pub enum TermError {
    /// An integer outside the `i64` range.
    NumberDecode,
    /// A binary that is not UTF-8.
    StringDecode,
    /// A map key that is a binary but not UTF-8.
    MapKeyDecode,
    /// A map key that is neither an atom nor a binary.
    MapKeyType,
    /// A tuple: it is read as a list, which it is not.
    TupleDecode,
    /// A term of another kind.
    Unsupported,
}

/// The message of a reading error, as the conversion reports it.
pub open spec fn term_error_text(e: TermError) -> Seq<char> {
    match e {
        TermError::NumberDecode => "Failed to decode number"@,
        TermError::StringDecode => "Failed to decode string: BadArg"@,
        TermError::MapKeyDecode => "Failed to decode map key: BadArg"@,
        TermError::MapKeyType => "Map keys must be atoms or strings"@,
        TermError::TupleDecode => "Failed to decode tuple: BadArg"@,
        TermError::Unsupported => "Unsupported Erlang term type"@,
    }
}

impl TermError {
    /// The message that describes the error.
    pub fn message(&self) -> (r: String)
        ensures
            r@ == term_error_text(*self),
    {
        match self {
            TermError::NumberDecode => String::from_str("Failed to decode number"),
            TermError::StringDecode => String::from_str("Failed to decode string: BadArg"),
            TermError::MapKeyDecode => String::from_str("Failed to decode map key: BadArg"),
            TermError::MapKeyType => String::from_str("Map keys must be atoms or strings"),
            TermError::TupleDecode => String::from_str("Failed to decode tuple: BadArg"),
            TermError::Unsupported => String::from_str("Unsupported Erlang term type"),
        }
    }
}

/// Where reading an Erlang term stops: at an error that the reading
/// reports, or at an improper list, on which the list decoding of `rustler`
/// panics.
#[derive(Clone, Copy, Debug, PartialEq, Eq)]
pub enum ReadError {
    Refused(TermError),
    ImproperList,
}

/// The text of a map key: an atom's name, or a UTF-8 binary's text.
pub open spec fn key_text(k: ErlTermView) -> Result<Seq<char>, TermError> {
    match k {
        ErlTermView::Atom(a) => Ok(a),
        ErlTermView::Binary(b) => if valid_utf8(b) {
            Ok(decode_utf8(b))
        } else {
            Err(TermError::MapKeyDecode)
        },
        _ => Err(TermError::MapKeyType),
    }
}

/// The BAML values of the items of a list, or the first error met.
pub open spec fn term_values(items: Seq<ErlTermView>) -> Result<Seq<BamlValueView>, ReadError>
    decreases items,
{
    if items.len() == 0 {
        Ok(Seq::empty())
    } else {
        match term_value(items[0]) {
            Err(e) => Err(e),
            Ok(v) => match term_values(items.drop_first()) {
                Err(e) => Err(e),
                Ok(vs) => Ok(seq![v] + vs),
            },
        }
    }
}

/// The entries of a map, each key read and each value converted in order
/// and inserted into `acc`, or the first error met.
pub open spec fn term_entries(pairs: Seq<(ErlTermView, ErlTermView)>, acc: Seq<(Seq<char>, BamlValueView)>) -> Result<
    Seq<(Seq<char>, BamlValueView)>,
    ReadError,
>
    decreases pairs,
{
    if pairs.len() == 0 {
        Ok(acc)
    } else {
        match key_text(pairs[0].0) {
            Err(e) => Err(ReadError::Refused(e)),
            Ok(k) => match term_value(pairs[0].1) {
                Err(e) => Err(e),
                Ok(v) => term_entries(pairs.drop_first(), entry_insert(acc, k, v)),
            },
        }
    }
}

/// The BAML value of an Erlang term: the atoms `nil` and `undefined` are
/// null, `true` and `false` booleans, and every other atom a string; a
/// UTF-8 binary is a string; a proper list a list; a map a map whose keys
/// are atoms or UTF-8 binaries. Every other term, a tuple among them, is
/// refused, except an improper list: the reading stops there, since
/// decoding it panics. Items and entries are read in order, up to the
/// first that stops the reading.
pub open spec fn term_value(t: ErlTermView) -> Result<BamlValueView, ReadError>
    decreases t,
{
    match t {
        ErlTermView::Atom(a) => if a == "nil"@ || a == "undefined"@ {
            Ok(BamlValueView::Null)
        } else if a == "true"@ {
            Ok(BamlValueView::Bool(true))
        } else if a == "false"@ {
            Ok(BamlValueView::Bool(false))
        } else {
            Ok(BamlValueView::String(a))
        },
        ErlTermView::Int(i) => Ok(BamlValueView::Int(i)),
        ErlTermView::BigInt => Err(ReadError::Refused(TermError::NumberDecode)),
        ErlTermView::Float(f) => Ok(BamlValueView::Float(f)),
        ErlTermView::Binary(b) => if valid_utf8(b) {
            Ok(BamlValueView::String(decode_utf8(b)))
        } else {
            Err(ReadError::Refused(TermError::StringDecode))
        },
        ErlTermView::List(items) => match term_values(items) {
            Ok(vs) => Ok(BamlValueView::List(vs)),
            Err(e) => Err(e),
        },
        ErlTermView::ImproperList(_) => Err(ReadError::ImproperList),
        ErlTermView::MapTerm(pairs) => match term_entries(pairs, Seq::empty()) {
            Ok(es) => Ok(BamlValueView::MapValue(es)),
            Err(e) => Err(e),
        },
        ErlTermView::Tuple(_) => Err(ReadError::Refused(TermError::TupleDecode)),
        ErlTermView::Other => Err(ReadError::Refused(TermError::Unsupported)),
    }
}

/// The text of UTF-8 bytes, if they are UTF-8.
///
/// Calls `String::from_utf8`, which std documents as succeeding exactly on
/// valid UTF-8; the contract states this with vstd's `valid_utf8` and
/// `decode_utf8`.
#[verifier::external_body]
pub(crate) fn utf8_text(bytes: &Vec<u8>) -> (r: Option<String>)
    ensures
        r is Some <==> valid_utf8(bytes@),
        r matches Some(s) ==> s@ == decode_utf8(bytes@),
{
    String::from_utf8(bytes.clone()).ok()
}

fn read_key(k: &ErlTerm) -> (r: Result<String, TermError>)
    ensures
        match key_text(k@) {
            Ok(t) => r matches Ok(s) && s@ == t,
            Err(e) => r == Err::<String, TermError>(e),
        },
{
    match k {
        ErlTerm::Atom(a) => Ok(a.clone()),
        ErlTerm::Binary(b) => match utf8_text(b) {
            Some(s) => Ok(s),
            None => Err(TermError::MapKeyDecode),
        },
        _ => Err(TermError::MapKeyType),
    }
}

/// `prefix` before the list values in `r`, or the error in `r`.
pub open spec fn prepend_values(prefix: Seq<BamlValueView>, r: Result<Seq<BamlValueView>, ReadError>) -> Result<
    Seq<BamlValueView>,
    ReadError,
> {
    match r {
        Ok(vs) => Ok(prefix + vs),
        Err(e) => Err(e),
    }
}

fn read_list(items: &Vec<ErlTerm>) -> (r: Result<Vec<BamlValue>, ReadError>)
    ensures
        match term_values(term_list_view(*items)) {
            Ok(vs) => r matches Ok(out) && baml_list_view(out) == vs,
            Err(e) => r == Err::<Vec<BamlValue>, ReadError>(e),
        },
    decreases items,
{
    let ghost all = term_list_view(*items);
    let mut out: Vec<BamlValue> = Vec::new();
    let mut i: usize = 0;
    assert(all.skip(0) =~= all);
    assert(prepend_values(baml_list_view(out), term_values(all)) =~= term_values(all)) by {
        assert(baml_list_view(out) =~= Seq::<BamlValueView>::empty());
        match term_values(all) {
            Ok(vs) => {
                assert(Seq::<BamlValueView>::empty() + vs =~= vs);
            },
            Err(e) => {},
        }
    }
    while i < items.len()
        invariant
            all == term_list_view(*items),
            i <= items@.len(),
            term_values(all) == prepend_values(baml_list_view(out), term_values(all.skip(i as int))),
        decreases items@.len() - i,
    {
        let ghost rest = all.skip(i as int);
        assert(rest[0] == items@[i as int]@);
        assert(rest.drop_first() =~= all.skip(i + 1));
        proof {
            assert(decreases_to!(*items => items[i as int]));
        }
        match read_term(&items[i]) {
            Err(e) => {
                return Err(e);
            },
            Ok(v) => {
                let ghost before = baml_list_view(out);
                out.push(v);
                proof {
                    assert(baml_list_view(out) =~= before.push(v@));
                    match term_values(all.skip(i + 1)) {
                        Ok(vs) => {
                            assert(before + (seq![v@] + vs) =~= before.push(v@) + vs);
                        },
                        Err(e) => {},
                    }
                }
            },
        }
        i = i + 1;
    }
    assert(all.skip(items@.len() as int) =~= Seq::<ErlTermView>::empty());
    assert(baml_list_view(out) + Seq::<BamlValueView>::empty() =~= baml_list_view(out));
    Ok(out)
}

fn read_map(pairs: &Vec<(ErlTerm, ErlTerm)>) -> (r: Result<Vec<(String, BamlValue)>, ReadError>)
    ensures
        match term_entries(term_pairs_view(*pairs), Seq::empty()) {
            Ok(es) => r matches Ok(out) && entries_view(out) == es,
            Err(e) => r == Err::<Vec<(String, BamlValue)>, ReadError>(e),
        },
    decreases pairs,
{
    let ghost all = term_pairs_view(*pairs);
    let mut out: Vec<(String, BamlValue)> = Vec::new();
    let mut i: usize = 0;
    assert(all.skip(0) =~= all);
    assert(entries_view(out) =~= Seq::<(Seq<char>, BamlValueView)>::empty());
    while i < pairs.len()
        invariant
            all == term_pairs_view(*pairs),
            i <= pairs@.len(),
            term_entries(all, Seq::empty()) == term_entries(all.skip(i as int), entries_view(out)),
        decreases pairs@.len() - i,
    {
        let ghost rest = all.skip(i as int);
        assert(rest[0] == (pairs@[i as int].0@, pairs@[i as int].1@));
        assert(rest.drop_first() =~= all.skip(i + 1));
        let (key, value) = &pairs[i];
        let k = match read_key(key) {
            Err(e) => {
                return Err(ReadError::Refused(e));
            },
            Ok(k) => k,
        };
        proof {
            assert(decreases_to!(*pairs => pairs[i as int]));
        }
        let v = match read_term(value) {
            Err(e) => {
                return Err(e);
            },
            Ok(v) => v,
        };
        entries_insert(&mut out, k, v);
        i = i + 1;
    }
    assert(all.skip(pairs@.len() as int) =~= Seq::<(ErlTermView, ErlTermView)>::empty());
    Ok(out)
}

/// Reads an Erlang term as a BAML value, as [`term_to_baml_value`] does,
/// and tells where the reading stops: at the error it reports, or at an
/// improper list, on which decoding the list panics.
pub fn read_term(term: &ErlTerm) -> (r: Result<BamlValue, ReadError>)
    ensures
        match term_value(term@) {
            Ok(v) => r matches Ok(out) && out@ == v,
            Err(e) => r == Err::<BamlValue, ReadError>(e),
        },
    decreases term,
{
    match term {
        ErlTerm::Atom(a) => {
            if a.eq(&String::from_str("nil")) || a.eq(&String::from_str("undefined")) {
                Ok(BamlValue::Null)
            } else if a.eq(&String::from_str("true")) {
                Ok(BamlValue::Bool(true))
            } else if a.eq(&String::from_str("false")) {
                Ok(BamlValue::Bool(false))
            } else {
                Ok(BamlValue::String(a.clone()))
            }
        },
        ErlTerm::Int(i) => Ok(BamlValue::Int(*i)),
        ErlTerm::BigInt => Err(ReadError::Refused(TermError::NumberDecode)),
        ErlTerm::Float(f) => Ok(BamlValue::Float(*f)),
        ErlTerm::Binary(b) => match utf8_text(b) {
            Some(s) => Ok(BamlValue::String(s)),
            None => Err(ReadError::Refused(TermError::StringDecode)),
        },
        ErlTerm::List(items) => match read_list(items) {
            Ok(values) => Ok(BamlValue::List(values)),
            Err(e) => Err(e),
        },
        ErlTerm::ImproperList(_) => Err(ReadError::ImproperList),
        ErlTerm::MapTerm(pairs) => match read_map(pairs) {
            Ok(es) => Ok(BamlValue::MapValue(es)),
            Err(e) => Err(e),
        },
        ErlTerm::Tuple(_) => Err(ReadError::Refused(TermError::TupleDecode)),
        ErlTerm::Other => Err(ReadError::Refused(TermError::Unsupported)),
    }
}

/// Converts an Erlang term into a BAML value. A term whose reading meets
/// an improper list is outside the domain: decoding such a list panics.
pub fn term_to_baml_value(term: &ErlTerm) -> (r: Result<BamlValue, TermError>)
    requires
        term_value(term@) != Err::<BamlValueView, ReadError>(ReadError::ImproperList),
    ensures
        match term_value(term@) {
            Ok(v) => r matches Ok(out) && out@ == v,
            Err(ReadError::Refused(e)) => r == Err::<BamlValue, TermError>(e),
            Err(ReadError::ImproperList) => false,
        },
{
    match read_term(term) {
        Ok(v) => Ok(v),
        Err(ReadError::Refused(e)) => Err(e),
        Err(ReadError::ImproperList) => {
            proof {
                assert(false);
            }
            Err(TermError::Unsupported)
        },
    }
}

/// Whether `k` can be made an atom: each character has a Latin-1 code
/// (below 256) and there are at most 255 of them.
pub open spec fn is_atom_text(k: Seq<char>) -> bool {
    k.len() <= 255 && forall|i: int| 0 <= i < k.len() ==> (#[trigger] k[i] as u32) < 256
}

/// A string as an Erlang binary: its UTF-8 bytes.
pub open spec fn binary_of(s: Seq<char>) -> ErlTermView {
    ErlTermView::Binary(encode_utf8(s))
}

/// A map key: an atom where the key can be one, else a binary.
pub open spec fn key_term(k: Seq<char>) -> ErlTermView {
    if is_atom_text(k) {
        ErlTermView::Atom(k)
    } else {
        binary_of(k)
    }
}

/// An Erlang atom.
pub open spec fn atom(s: Seq<char>) -> ErlTermView {
    ErlTermView::Atom(s)
}

/// The Erlang term of each value of a list.
pub open spec fn to_terms(l: Seq<BamlValueView>) -> Seq<ErlTermView>
    decreases l,
{
    Seq::new(
        l.len(),
        |i: int|
            if 0 <= i < l.len() {
                to_term(l[i])
            } else {
                ErlTermView::Other
            },
    )
}

/// The key-value pairs of a map, each key and value as an Erlang term.
pub open spec fn to_term_pairs(es: Seq<(Seq<char>, BamlValueView)>) -> Seq<(ErlTermView, ErlTermView)>
    decreases es,
{
    Seq::new(
        es.len(),
        |i: int|
            if 0 <= i < es.len() {
                (key_term(es[i].0), to_term(es[i].1))
            } else {
                (ErlTermView::Other, ErlTermView::Other)
            },
    )
}

/// The Erlang term for a media value: `{baml_media, {Kind, Mime, Content}}`
/// with the MIME type a binary or `nil`, and the content a pair of `url`,
/// `base64` or `file` and a binary.
pub open spec fn media_term(m: BamlMediaView) -> ErlTermView {
    let kind = match m.media_type {
        BamlMediaType::Image => "image"@,
        BamlMediaType::Audio => "audio"@,
        BamlMediaType::Pdf => "pdf"@,
        BamlMediaType::Video => "video"@,
    };
    let mime = match m.mime_type {
        Some(t) => binary_of(t),
        None => atom("nil"@),
    };
    let content = match m.content {
        BamlMediaContentView::Url(u) => ErlTermView::Tuple(seq![atom("url"@), binary_of(u)]),
        BamlMediaContentView::Base64(b) => ErlTermView::Tuple(seq![atom("base64"@), binary_of(b)]),
        BamlMediaContentView::File(f) => ErlTermView::Tuple(seq![atom("file"@), binary_of(f)]),
    };
    ErlTermView::Tuple(seq![atom("baml_media"@), ErlTermView::Tuple(seq![atom(kind), mime, content])])
}

/// The Erlang term of a BAML value: null is the atom `nil`, booleans the
/// atoms `true` and `false`, strings binaries, maps maps; an enum is
/// `{baml_enum, {Name, Value}}` and a class `{baml_class, {Name, Fields}}`.
pub open spec fn to_term(v: BamlValueView) -> ErlTermView
    decreases v,
{
    match v {
        BamlValueView::Null => atom("nil"@),
        BamlValueView::Bool(b) => if b {
            atom("true"@)
        } else {
            atom("false"@)
        },
        BamlValueView::Int(i) => ErlTermView::Int(i),
        BamlValueView::Float(f) => ErlTermView::Float(f),
        BamlValueView::String(s) => binary_of(s),
        BamlValueView::List(l) => ErlTermView::List(to_terms(l)),
        BamlValueView::MapValue(es) => ErlTermView::MapTerm(to_term_pairs(es)),
        BamlValueView::Enum(name, value) => ErlTermView::Tuple(
            seq![atom("baml_enum"@), ErlTermView::Tuple(seq![binary_of(name), binary_of(value)])],
        ),
        BamlValueView::Class(name, fields) => ErlTermView::Tuple(
            seq![
                atom("baml_class"@),
                ErlTermView::Tuple(seq![binary_of(name), ErlTermView::MapTerm(to_term_pairs(fields))]),
            ],
        ),
        BamlValueView::Media(m) => media_term(m),
    }
}

pub(crate) fn atom_term(s: &str) -> (r: ErlTerm)
    ensures
        r@ == atom(s@),
{
    ErlTerm::Atom(String::from_str(s))
}

pub(crate) fn binary_term(s: &String) -> (r: ErlTerm)
    ensures
        r@ == binary_of(s@),
{
    let bytes = s.as_str().as_bytes_vec();
    ErlTerm::Binary(bytes)
}

fn can_be_atom(k: &String) -> (r: bool)
    ensures
        r == is_atom_text(k@),
{
    let chars = chars_of(k.as_str());
    if chars.len() > 255 {
        return false;
    }
    let mut i: usize = 0;
    while i < chars.len()
        invariant
            chars@ == k@,
            i <= chars@.len(),
            forall|j: int| 0 <= j < i ==> (#[trigger] chars@[j] as u32) < 256,
        decreases chars@.len() - i,
    {
        if chars[i] as u32 >= 256 {
            return false;
        }
        i = i + 1;
    }
    true
}

fn key_to_term(k: &String) -> (r: ErlTerm)
    ensures
        r@ == key_term(k@),
{
    if can_be_atom(k) {
        ErlTerm::Atom(k.clone())
    } else {
        binary_term(k)
    }
}

fn pairs_to_terms(es: &Vec<(String, BamlValue)>) -> (r: Vec<(ErlTerm, ErlTerm)>)
    ensures
        term_pairs_view(r) == to_term_pairs(entries_view(*es)),
    decreases es,
{
    let mut out: Vec<(ErlTerm, ErlTerm)> = Vec::new();
    let mut i: usize = 0;
    while i < es.len()
        invariant
            i <= es@.len(),
            out@.len() == i,
            forall|j: int|
                0 <= j < i ==> (#[trigger] out@[j]).0@ == key_term(es@[j].0@) && out@[j].1@ == to_term(es@[j].1@),
        decreases es@.len() - i,
    {
        let (k, v) = &es[i];
        proof {
            assert(decreases_to!(*es => es[i as int]));
        }
        let kt = key_to_term(k);
        let vt = to_term_ref(v);
        out.push((kt, vt));
        i = i + 1;
    }
    assert(term_pairs_view(out) =~= to_term_pairs(entries_view(*es)));
    out
}

fn tagged_binary(tag: &str, s: &String) -> (r: ErlTerm)
    ensures
        r@ == ErlTermView::Tuple(seq![atom(tag@), binary_of(s@)]),
{
    let items = vec![atom_term(tag), binary_term(s)];
    assert(term_list_view(items) =~= seq![items@[0]@, items@[1]@]);
    ErlTerm::Tuple(items)
}

fn media_to_term(m: &BamlMedia) -> (r: ErlTerm)
    ensures
        r@ == media_term(media_view(*m)),
{
    let kind = match m.media_type {
        BamlMediaType::Image => atom_term("image"),
        BamlMediaType::Audio => atom_term("audio"),
        BamlMediaType::Pdf => atom_term("pdf"),
        BamlMediaType::Video => atom_term("video"),
    };
    let mime = match &m.mime_type {
        Some(t) => binary_term(t),
        None => atom_term("nil"),
    };
    let content = match &m.content {
        BamlMediaContent::Url(u) => tagged_binary("url", u),
        BamlMediaContent::Base64(b) => tagged_binary("base64", b),
        BamlMediaContent::File(f) => tagged_binary("file", f),
    };
    let inner = vec![kind, mime, content];
    assert(term_list_view(inner) =~= seq![inner@[0]@, inner@[1]@, inner@[2]@]);
    let outer = vec![atom_term("baml_media"), ErlTerm::Tuple(inner)];
    assert(term_list_view(outer) =~= seq![outer@[0]@, outer@[1]@]);
    ErlTerm::Tuple(outer)
}

fn to_term_ref(value: &BamlValue) -> (r: ErlTerm)
    ensures
        r@ == to_term(value@),
    decreases value,
{
    match value {
        BamlValue::Null => atom_term("nil"),
        BamlValue::Bool(b) => {
            if *b {
                atom_term("true")
            } else {
                atom_term("false")
            }
        },
        BamlValue::Int(i) => ErlTerm::Int(*i),
        BamlValue::Float(f) => ErlTerm::Float(*f),
        BamlValue::String(s) => binary_term(s),
        BamlValue::List(list) => {
            let mut out: Vec<ErlTerm> = Vec::new();
            let mut i: usize = 0;
            while i < list.len()
                invariant
                    *value == BamlValue::List(*list),
                    i <= list@.len(),
                    out@.len() == i,
                    forall|j: int| 0 <= j < i ==> (#[trigger] out@[j])@ == to_term(list@[j]@),
                decreases list@.len() - i,
            {
                proof {
                    assert(decreases_to!(*list => list[i as int]));
                    assert(decreases_to!(*value => (*value)->List_0));
                    assert(decreases_to!(*value => list[i as int]));
                }
                out.push(to_term_ref(&list[i]));
                i = i + 1;
            }
            assert(term_list_view(out) =~= to_terms(baml_list_view(*list)));
            ErlTerm::List(out)
        },
        BamlValue::MapValue(map) => ErlTerm::MapTerm(pairs_to_terms(map)),
        BamlValue::Enum(name, v) => {
            let inner = vec![binary_term(name), binary_term(v)];
            assert(term_list_view(inner) =~= seq![inner@[0]@, inner@[1]@]);
            let outer = vec![atom_term("baml_enum"), ErlTerm::Tuple(inner)];
            assert(term_list_view(outer) =~= seq![outer@[0]@, outer@[1]@]);
            ErlTerm::Tuple(outer)
        },
        BamlValue::Class(name, fields) => {
            let inner = vec![binary_term(name), ErlTerm::MapTerm(pairs_to_terms(fields))];
            assert(term_list_view(inner) =~= seq![inner@[0]@, inner@[1]@]);
            let outer = vec![atom_term("baml_class"), ErlTerm::Tuple(inner)];
            assert(term_list_view(outer) =~= seq![outer@[0]@, outer@[1]@]);
            ErlTerm::Tuple(outer)
        },
        BamlValue::Media(media) => media_to_term(media),
    }
}

/// Converts a BAML value into an Erlang term.
pub fn baml_value_to_term(value: BamlValue) -> (r: ErlTerm)
    ensures
        r@ == to_term(value@),
{
    to_term_ref(&value)
}

proof fn lemma_key_round_trip(k: Seq<char>)
    ensures
        key_text(key_term(k)) == Ok::<Seq<char>, TermError>(k),
{
    broadcast use vstd::utf8::encode_utf8_valid_utf8, vstd::utf8::encode_utf8_decode_utf8;

}

proof fn lemma_values_round_trip(l: Seq<BamlValueView>)
    requires
        forall|i: int| 0 <= i < l.len() ==> term_value(to_term(#[trigger] l[i])) == Ok::<BamlValueView, ReadError>(l[i]),
    ensures
        term_values(to_terms(l)) == Ok::<Seq<BamlValueView>, ReadError>(l),
    decreases l.len(),
{
    if l.len() > 0 {
        let rest = l.drop_first();
        assert forall|i: int| 0 <= i < rest.len() implies term_value(to_term(#[trigger] rest[i])) == Ok::<
            BamlValueView,
            ReadError,
        >(rest[i]) by {
            assert(rest[i] == l[i + 1]);
        }
        lemma_values_round_trip(rest);
        assert(to_terms(l).drop_first() =~= to_terms(rest));
        assert(to_terms(l)[0] == to_term(l[0]));
        assert(term_value(to_term(l[0])) == Ok::<BamlValueView, ReadError>(l[0]));
        assert(seq![l[0]] + rest =~= l);
    } else {
        assert(to_terms(l) =~= Seq::<ErlTermView>::empty());
        assert(l =~= Seq::<BamlValueView>::empty());
    }
}

proof fn lemma_entries_round_trip(es: Seq<(Seq<char>, BamlValueView)>, acc: Seq<(Seq<char>, BamlValueView)>)
    requires
        keys_distinct(acc + es),
        forall|i: int|
            0 <= i < es.len() ==> term_value(to_term(#[trigger] es[i].1)) == Ok::<BamlValueView, ReadError>(es[i].1),
    ensures
        term_entries(to_term_pairs(es), acc) == Ok::<Seq<(Seq<char>, BamlValueView)>, ReadError>(acc + es),
    decreases es.len(),
{
    if es.len() == 0 {
        assert(acc + es =~= acc);
    } else {
        let rest = es.drop_first();
        let (k, v) = es[0];
        lemma_key_round_trip(k);
        assert(to_term_pairs(es)[0] == (key_term(k), to_term(v)));
        assert forall|j: int| 0 <= j < acc.len() implies (#[trigger] acc[j]).0 != k by {
            assert((acc + es)[j] == acc[j]);
            assert((acc + es)[acc.len() as int] == es[0]);
        }
        lemma_first_key_index(acc, k, acc.len() as int);
        let acc2 = acc.push((k, v));
        assert(entry_insert(acc, k, v) == acc2);
        assert(acc2 + rest =~= acc + es);
        assert forall|i: int| 0 <= i < rest.len() implies term_value(to_term(#[trigger] rest[i].1)) == Ok::<
            BamlValueView,
            ReadError,
        >(rest[i].1) by {
            assert(rest[i] == es[i + 1]);
        }
        assert(to_term_pairs(es).drop_first() =~= to_term_pairs(rest));
        lemma_entries_round_trip(rest, acc2);
    }
}

proof fn lemma_scalar_round_trip(v: BamlValueView)
    requires
        is_plain(v),
        !(v is List),
        !(v is MapValue),
    ensures
        term_value(to_term(v)) == Ok::<BamlValueView, ReadError>(v),
{
    match v {
        BamlValueView::Bool(b) => {
            reveal_strlit("nil");
            reveal_strlit("undefined");
            reveal_strlit("true");
            reveal_strlit("false");
            assert("true"@.len() == 4 && "false"@.len() == 5 && "nil"@.len() == 3 && "undefined"@.len() == 9);
            assert("true"@ != "nil"@ && "true"@ != "undefined"@);
            assert("false"@ != "nil"@ && "false"@ != "undefined"@ && "false"@ != "true"@);
        },
        BamlValueView::String(s) => {
            vstd::utf8::encode_utf8_valid_utf8(s);
            vstd::utf8::encode_utf8_decode_utf8(s);
        },
        _ => {},
    }
}

/// Reading back the Erlang term of a plain BAML value (no enum, class or
/// media; finite floats; distinct map keys) gives the same value.
pub proof fn term_round_trip(v: BamlValueView)
    requires
        is_plain(v),
    ensures
        term_value(to_term(v)) == Ok::<BamlValueView, ReadError>(v),
    decreases v,
{
    if let BamlValueView::List(l) = v {
        assert forall|i: int| 0 <= i < l.len() implies term_value(to_term(#[trigger] l[i])) == Ok::<
            BamlValueView,
            ReadError,
        >(l[i]) by {
            term_round_trip(l[i]);
        }
        lemma_values_round_trip(l);
    } else if let BamlValueView::MapValue(es) = v {
        assert forall|i: int| 0 <= i < es.len() implies term_value(to_term(#[trigger] es[i].1)) == Ok::<
            BamlValueView,
            ReadError,
        >(es[i].1) by {
            term_round_trip(es[i].1);
        }
        assert(Seq::<(Seq<char>, BamlValueView)>::empty() + es =~= es);
        lemma_entries_round_trip(es, Seq::empty());
    } else {
        lemma_scalar_round_trip(v);
    }
}

/// The Erlang term of a media value is `{baml_media, {Kind, Mime, Content}}`:
/// `Kind` is the atom of the lowercase name of its media kind, `Mime` its
/// MIME type as a UTF-8 binary or `nil`, and `Content` a pair whose first
/// item is the atom naming the kind of content (`url`, `base64` or `file`)
/// and whose second is the content's text as a UTF-8 binary.
pub proof fn media_term_tags_kind_and_content(m: BamlMediaView)
    ensures
        to_term(BamlValueView::Media(m)) matches ErlTermView::Tuple(outer) && {
            &&& outer.len() == 2
            &&& outer[0] == ErlTermView::Atom("baml_media"@)
            &&& outer[1] matches ErlTermView::Tuple(inner) && {
                &&& inner.len() == 3
                &&& (m.media_type == BamlMediaType::Image ==> inner[0] == ErlTermView::Atom("image"@))
                &&& (m.media_type == BamlMediaType::Audio ==> inner[0] == ErlTermView::Atom("audio"@))
                &&& (m.media_type == BamlMediaType::Pdf ==> inner[0] == ErlTermView::Atom("pdf"@))
                &&& (m.media_type == BamlMediaType::Video ==> inner[0] == ErlTermView::Atom("video"@))
                &&& (m.mime_type matches Some(t) ==> inner[1] == ErlTermView::Binary(encode_utf8(t)))
                &&& (m.mime_type is None ==> inner[1] == ErlTermView::Atom("nil"@))
                &&& (m.content matches BamlMediaContentView::Url(u) ==> inner[2] == ErlTermView::Tuple(
                    seq![ErlTermView::Atom("url"@), ErlTermView::Binary(encode_utf8(u))],
                ))
                &&& (m.content matches BamlMediaContentView::Base64(b) ==> inner[2] == ErlTermView::Tuple(
                    seq![ErlTermView::Atom("base64"@), ErlTermView::Binary(encode_utf8(b))],
                ))
                &&& (m.content matches BamlMediaContentView::File(f) ==> inner[2] == ErlTermView::Tuple(
                    seq![ErlTermView::Atom("file"@), ErlTermView::Binary(encode_utf8(f))],
                ))
            }
        },
{
}

/// The tag of a media value's content tells its kind of content: media
/// values whose contents are of different kinds get different tags.
pub proof fn media_term_content_tags_distinct(m1: BamlMediaView, m2: BamlMediaView, t1: ErlTermView, t2: ErlTermView)
    requires
        (m1.content is Url && !(m2.content is Url)) || (m1.content is Base64 && !(m2.content is Base64)) || (
        m1.content is File && !(m2.content is File)),
        to_term(BamlValueView::Media(m1)) matches ErlTermView::Tuple(o1) && o1[1] matches ErlTermView::Tuple(i1)
            && i1[2] matches ErlTermView::Tuple(c1) && t1 == c1[0],
        to_term(BamlValueView::Media(m2)) matches ErlTermView::Tuple(o2) && o2[1] matches ErlTermView::Tuple(i2)
            && i2[2] matches ErlTermView::Tuple(c2) && t2 == c2[0],
    ensures
        t1 != t2,
{
    media_term_tags_kind_and_content(m1);
    media_term_tags_kind_and_content(m2);
    reveal_strlit("url");
    reveal_strlit("base64");
    reveal_strlit("file");
    assert("url"@.len() == 3 && "base64"@.len() == 6 && "file"@.len() == 4);
}

/// Scalars and tagged values as Erlang terms: null is the atom `nil`,
/// booleans the atoms `true` and `false`, integers and floats keep their
/// value, a string is the binary of its UTF-8 bytes; an enum value is
/// `{baml_enum, {Name, Value}}` and a class value `{baml_class, {Name,
/// Fields}}` with the fields as a map.
pub proof fn scalar_and_tagged_terms(name: Seq<char>, value: Seq<char>, fields: Seq<(Seq<char>, BamlValueView)>, i: i64, f: u64)
    ensures
        to_term(BamlValueView::Null) == ErlTermView::Atom("nil"@),
        to_term(BamlValueView::Bool(true)) == ErlTermView::Atom("true"@),
        to_term(BamlValueView::Bool(false)) == ErlTermView::Atom("false"@),
        to_term(BamlValueView::Int(i)) == ErlTermView::Int(i),
        to_term(BamlValueView::Float(f)) == ErlTermView::Float(f),
        to_term(BamlValueView::String(name)) == ErlTermView::Binary(encode_utf8(name)),
        to_term(BamlValueView::Enum(name, value)) == ErlTermView::Tuple(
            seq![
                ErlTermView::Atom("baml_enum"@),
                ErlTermView::Tuple(seq![ErlTermView::Binary(encode_utf8(name)), ErlTermView::Binary(encode_utf8(value))]),
            ],
        ),
        to_term(BamlValueView::Class(name, fields)) matches ErlTermView::Tuple(outer) && outer.len() == 2 && outer[0]
            == ErlTermView::Atom("baml_class"@) && (outer[1] matches ErlTermView::Tuple(inner) && inner.len() == 2
            && inner[0] == ErlTermView::Binary(encode_utf8(name)) && inner[1] is MapTerm),
{
}

} // verus!
