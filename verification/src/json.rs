use vstd::prelude::*;

use crate::ir::BamlMediaType;
use crate::value::{
    entry_insert, first_key_index, lemma_first_key_index,
    BamlMedia, BamlMediaContent, BamlMediaContentView, BamlMediaView, BamlValue, BamlValueView,
};

verus! {

/// A JSON number as serde_json holds it: a non-negative integer, a
/// negative integer, or a finite float (as the bit pattern of its `f64`).
#[derive(Clone, Copy, Debug, PartialEq, Eq)]
pub enum JsonNumber {
    PosInt(u64),
    NegInt(i64),
    Float(u64),
}

/// A JSON value. The keys of an object are distinct.
#[derive(Debug)]
pub enum JsonValue {
    Null,
    Bool(bool),
    Number(JsonNumber),
    String(String),
    Array(Vec<JsonValue>),
    Object(Vec<(String, JsonValue)>),
}

/// The mathematical value of a [`JsonValue`].
pub enum JsonView {
    Null,
    Bool(bool),
    Number(JsonNumber),
    String(Seq<char>),
    Array(Seq<JsonView>),
    Object(Seq<(Seq<char>, JsonView)>),
}

/// The view of each member of a JSON object.
pub open spec fn json_entries_view(es: Vec<(String, JsonValue)>) -> Seq<(Seq<char>, JsonView)>
    decreases es,
{
    Seq::new(
        es@.len(),
        |i: int|
            if 0 <= i < es@.len() {
                (es@[i].0@, json_view(es@[i].1))
            } else {
                (Seq::empty(), JsonView::Null)
            },
    )
}

/// The view of each item of a JSON array.
pub open spec fn json_array_view(a: Vec<JsonValue>) -> Seq<JsonView>
    decreases a,
{
    Seq::new(
        a@.len(),
        |i: int|
            if 0 <= i < a@.len() {
                json_view(a@[i])
            } else {
                JsonView::Null
            },
    )
}

/// The mathematical value of a [`JsonValue`].
pub open spec fn json_view(j: JsonValue) -> JsonView
    decreases j,
{
    match j {
        JsonValue::Null => JsonView::Null,
        JsonValue::Bool(b) => JsonView::Bool(b),
        JsonValue::Number(n) => JsonView::Number(n),
        JsonValue::String(s) => JsonView::String(s@),
        JsonValue::Array(a) => JsonView::Array(json_array_view(a)),
        JsonValue::Object(es) => JsonView::Object(json_entries_view(es)),
    }
}

impl View for JsonValue {
    type V = JsonView;

    open spec fn view(&self) -> JsonView {
        json_view(*self)
    }
}


pub(crate) fn clone_members(es: &Vec<(String, JsonValue)>) -> (r: Vec<(String, JsonValue)>)
    ensures
        json_entries_view(r) == json_entries_view(*es),
    decreases es,
{
    let mut out: Vec<(String, JsonValue)> = Vec::new();
    let mut i: usize = 0;
    while i < es.len()
        invariant
            i <= es@.len(),
            out@.len() == i,
            forall|j: int| 0 <= j < i ==> (#[trigger] out@[j]).0@ == es@[j].0@ && out@[j].1@ == es@[j].1@,
        decreases es@.len() - i,
    {
        proof {
            assert(decreases_to!(*es => es[i as int]));
        }
        let (k, v) = &es[i];
        out.push((k.clone(), v.clone()));
        i = i + 1;
    }
    assert(json_entries_view(out) =~= json_entries_view(*es));
    out
}

impl Clone for JsonValue {
    fn clone(&self) -> (r: Self)
        ensures
            r@ == self@,
        decreases self,
    {
        match self {
            JsonValue::Null => JsonValue::Null,
            JsonValue::Bool(b) => JsonValue::Bool(*b),
            JsonValue::Number(n) => JsonValue::Number(*n),
            JsonValue::String(s) => JsonValue::String(s.clone()),
            JsonValue::Array(items) => {
                let mut out: Vec<JsonValue> = Vec::new();
                let mut i: usize = 0;
                while i < items.len()
                    invariant
                        *self == JsonValue::Array(*items),
                        i <= items@.len(),
                        out@.len() == i,
                        forall|j: int| 0 <= j < i ==> (#[trigger] out@[j])@ == items@[j]@,
                    decreases items@.len() - i,
                {
                    proof {
                        assert(decreases_to!(*items => items[i as int]));
                        assert(decreases_to!(*self => (*self)->Array_0));
                        assert(decreases_to!(*self => items[i as int]));
                    }
                    out.push(items[i].clone());
                    i = i + 1;
                }
                assert(json_array_view(out) =~= json_array_view(*items));
                JsonValue::Array(out)
            },
            JsonValue::Object(es) => JsonValue::Object(clone_members(es)),
        }
    }
}

/// The object made by inserting the given entries in order into `init`.
pub open spec fn object_from(init: Seq<(Seq<char>, JsonView)>, pairs: Seq<(Seq<char>, JsonView)>) -> Seq<
    (Seq<char>, JsonView),
>
    decreases pairs.len(),
{
    if pairs.len() == 0 {
        init
    } else {
        entry_insert(object_from(init, pairs.drop_last()), pairs.last().0, pairs.last().1)
    }
}

/// Whether a float's bit pattern is a finite number (neither infinite nor
/// NaN): its exponent field is not all ones.
pub open spec fn is_finite_f64_bits(bits: u64) -> bool {
    (bits / 0x10_0000_0000_0000) % 0x800 != 0x7ff
}

/// The lowercase name of a media kind.
pub open spec fn media_kind_text(m: BamlMediaType) -> Seq<char> {
    match m {
        BamlMediaType::Image => "image"@,
        BamlMediaType::Audio => "audio"@,
        BamlMediaType::Pdf => "pdf"@,
        BamlMediaType::Video => "video"@,
    }
}

/// The JSON object describing a media value: its kind under `__media__`,
/// its MIME type if known, then where its data is (`url`, `base64` or
/// `file`).
pub open spec fn media_json(m: BamlMediaView) -> JsonView {
    let head = seq![("__media__"@, JsonView::String(media_kind_text(m.media_type)))];
    let mime = match m.mime_type {
        Some(t) => seq![("mime_type"@, JsonView::String(t))],
        None => Seq::empty(),
    };
    let content = match m.content {
        BamlMediaContentView::Url(u) => ("url"@, JsonView::String(u)),
        BamlMediaContentView::Base64(b) => ("base64"@, JsonView::String(b)),
        BamlMediaContentView::File(f) => ("file"@, JsonView::String(f)),
    };
    JsonView::Object(head + mime + seq![content])
}

/// The JSON number for an integer.
pub open spec fn int_number(i: i64) -> JsonNumber {
    if i >= 0 {
        JsonNumber::PosInt(i as u64)
    } else {
        JsonNumber::NegInt(i)
    }
}

/// Object entries with each value converted to JSON.
pub open spec fn json_pairs(es: Seq<(Seq<char>, BamlValueView)>) -> Seq<(Seq<char>, JsonView)>
    decreases es,
{
    Seq::new(
        es.len(),
        |i: int|
            if 0 <= i < es.len() {
                (es[i].0, to_json(es[i].1))
            } else {
                (Seq::empty(), JsonView::Null)
            },
    )
}

/// Each value of a list converted to JSON.
pub open spec fn to_json_seq(l: Seq<BamlValueView>) -> Seq<JsonView>
    decreases l,
{
    Seq::new(
        l.len(),
        |i: int|
            if 0 <= i < l.len() {
                to_json(l[i])
            } else {
                JsonView::Null
            },
    )
}

/// The JSON form of a BAML value. Enums, classes and media become objects
/// tagged with `__enum__`, `__class__` and `__media__`; a float that is not
/// finite becomes `null`.
pub open spec fn to_json(v: BamlValueView) -> JsonView
    decreases v,
{
    match v {
        BamlValueView::Null => JsonView::Null,
        BamlValueView::Bool(b) => JsonView::Bool(b),
        BamlValueView::Int(i) => JsonView::Number(int_number(i)),
        BamlValueView::Float(f) => if is_finite_f64_bits(f) {
            JsonView::Number(JsonNumber::Float(f))
        } else {
            JsonView::Null
        },
        BamlValueView::String(s) => JsonView::String(s),
        BamlValueView::List(l) => JsonView::Array(to_json_seq(l)),
        BamlValueView::MapValue(es) => JsonView::Object(object_from(Seq::empty(), json_pairs(es))),
        BamlValueView::Enum(name, value) => JsonView::Object(
            seq![("__enum__"@, JsonView::String(name)), ("value"@, JsonView::String(value))],
        ),
        BamlValueView::Class(name, fields) => JsonView::Object(
            object_from(seq![("__class__"@, JsonView::String(name))], json_pairs(fields)),
        ),
        BamlValueView::Media(m) => media_json(m),
    }
}

broadcast use vstd::std_specs::vec::group_vec_axioms;

/// The JSON of a media value names its kind and its content: the first
/// entry is `__media__` with the lowercase name of the media kind (`image`,
/// `audio`, `pdf` or `video`), then `mime_type` with the MIME type where it
/// is known, and last the content under the name of its kind (`url`,
/// `base64` or `file`) with its text.
pub proof fn media_json_names_kind_and_content(m: BamlMediaView)
    ensures
        to_json(BamlValueView::Media(m)) matches JsonView::Object(es) && {
            &&& es.len() == if m.mime_type is Some { 3int } else { 2int }
            &&& es[0].0 == "__media__"@
            &&& (m.media_type == BamlMediaType::Image ==> es[0].1 == JsonView::String("image"@))
            &&& (m.media_type == BamlMediaType::Audio ==> es[0].1 == JsonView::String("audio"@))
            &&& (m.media_type == BamlMediaType::Pdf ==> es[0].1 == JsonView::String("pdf"@))
            &&& (m.media_type == BamlMediaType::Video ==> es[0].1 == JsonView::String("video"@))
            &&& (m.mime_type matches Some(t) ==> es[1] == ("mime_type"@, JsonView::String(t)))
            &&& (m.content matches BamlMediaContentView::Url(u) ==> es[es.len() - 1] == ("url"@, JsonView::String(u)))
            &&& (m.content matches BamlMediaContentView::Base64(b) ==> es[es.len() - 1] == (
                "base64"@,
                JsonView::String(b),
            ))
            &&& (m.content matches BamlMediaContentView::File(f) ==> es[es.len() - 1] == ("file"@, JsonView::String(f)))
        },
{
}

/// Media values of different kinds are told apart by their JSON: their
/// `__media__` entries differ.
pub proof fn media_json_kinds_distinct(m1: BamlMediaView, m2: BamlMediaView)
    requires
        m1.media_type != m2.media_type,
    ensures
        to_json(BamlValueView::Media(m1)) matches JsonView::Object(e1) && to_json(BamlValueView::Media(m2)) matches JsonView::Object(
            e2,
        ) && e1[0] != e2[0],
{
    reveal_strlit("image");
    reveal_strlit("audio");
    reveal_strlit("pdf");
    reveal_strlit("video");
    assert("image"@.len() == 5 && "audio"@.len() == 5 && "pdf"@.len() == 3 && "video"@.len() == 5);
    assert("image"@[0] != "audio"@[0] && "image"@[0] != "video"@[0] && "audio"@[0] != "video"@[0]);
}

/// Enums and classes become tagged JSON objects: an enum value is the
/// object with `__enum__` set to the enum's name and `value` to the value;
/// a class value is an object whose `__class__` entry, which comes first,
/// holds the class name where the fields have distinct names, none of them
/// `__class__`. Null,
/// booleans and strings keep their value.
pub proof fn tagged_json_objects(name: Seq<char>, value: Seq<char>, fields: Seq<(Seq<char>, BamlValueView)>, b: bool)
    ensures
        to_json(BamlValueView::Enum(name, value)) == JsonView::Object(
            seq![("__enum__"@, JsonView::String(name)), ("value"@, JsonView::String(value))],
        ),
        keys_distinct(fields) && (forall|i: int| 0 <= i < fields.len() ==> (#[trigger] fields[i]).0 != "__class__"@)
            ==> (to_json(BamlValueView::Class(name, fields)) matches JsonView::Object(es) && es.len() == fields.len() + 1
            && es[0] == ("__class__"@, JsonView::String(name))),
        to_json(BamlValueView::Null) == JsonView::Null,
        to_json(BamlValueView::Bool(b)) == JsonView::Bool(b),
        to_json(BamlValueView::String(name)) == JsonView::String(name),
{
    if keys_distinct(fields) && forall|i: int| 0 <= i < fields.len() ==> (#[trigger] fields[i]).0 != "__class__"@ {
        let pairs = json_pairs(fields);
        assert forall|i: int| 0 <= i < pairs.len() implies (#[trigger] pairs[i]).0 != "__class__"@ by {
            assert(pairs[i].0 == fields[i].0);
        }
        assert forall|i: int, j: int| 0 <= i < pairs.len() && 0 <= j < pairs.len() && i != j implies pairs[i].0
            != pairs[j].0 by {
            assert(pairs[i].0 == fields[i].0 && pairs[j].0 == fields[j].0);
        }
        lemma_class_object(seq![("__class__"@, JsonView::String(name))], json_pairs(fields));
    }
}

proof fn lemma_class_object(init: Seq<(Seq<char>, JsonView)>, pairs: Seq<(Seq<char>, JsonView)>)
    requires
        init.len() == 1,
        forall|i: int| 0 <= i < pairs.len() ==> (#[trigger] pairs[i]).0 != init[0].0,
        keys_distinct(pairs),
    ensures
        object_from(init, pairs).len() == pairs.len() + 1,
        object_from(init, pairs)[0] == init[0],
        forall|i: int| 0 <= i < pairs.len() ==> (#[trigger] object_from(init, pairs)[i + 1]) == pairs[i],
    decreases pairs.len(),
{
    if pairs.len() > 0 {
        let d = pairs.drop_last();
        assert forall|i: int, j: int| 0 <= i < d.len() && 0 <= j < d.len() && i != j implies d[i].0 != d[j].0 by {
            assert(d[i] == pairs[i] && d[j] == pairs[j]);
        }
        lemma_class_object(init, d);
        let o = object_from(init, d);
        let k = pairs.last().0;
        assert forall|j: int| 0 <= j < o.len() implies (#[trigger] o[j]).0 != k by {
            if j > 0 {
                assert(o[(j - 1) + 1] == d[j - 1]);
                assert(d[j - 1] == pairs[j - 1]);
            }
        }
        lemma_first_key_index(o, k, o.len() as int);
    }
}

/// The integer value of a JSON number, where it fits in an `i64`.
pub open spec fn number_as_i64(n: JsonNumber) -> Option<i64> {
    match n {
        JsonNumber::PosInt(u) => if u <= i64::MAX {
            Some(u as i64)
        } else {
            None
        },
        JsonNumber::NegInt(i) => Some(i),
        JsonNumber::Float(_) => None,
    }
}

/// The `f64` (as bits) nearest to an integer `u` of at least 2^63 that
/// fits in a `u64`: the nearest multiple of 2^11, ties to the even one,
/// with exponent 63 (or 2^64 itself, exponent 64).
pub open spec fn big_u64_f64_bits(u: u64) -> u64 {
    let q: int = (u / 2048) as int;
    let rem: int = (u % 2048) as int;
    let m: int = if rem > 1024 || (rem == 1024 && q % 2 == 1) {
        q + 1
    } else {
        q
    };
    if m == 0x20_0000_0000_0000 {
        (1087 * 0x10_0000_0000_0000) as u64
    } else {
        (1086 * 0x10_0000_0000_0000 + (m - 0x10_0000_0000_0000)) as u64
    }
}

/// The float value (as bits) of a JSON number that has no `i64` value:
/// a float itself, or an integer above `i64::MAX` rounded to a float.
pub open spec fn number_float_bits(n: JsonNumber) -> u64 {
    match n {
        JsonNumber::PosInt(u) => big_u64_f64_bits(u),
        JsonNumber::Float(b) => b,
        JsonNumber::NegInt(_) => 0,
    }
}

/// The BAML value of each JSON value of an array.
pub open spec fn from_json_seq(a: Seq<JsonView>) -> Seq<BamlValueView>
    decreases a,
{
    Seq::new(
        a.len(),
        |i: int|
            if 0 <= i < a.len() {
                from_json(a[i])
            } else {
                BamlValueView::Null
            },
    )
}

/// The entries of a JSON object with each value converted to BAML.
pub open spec fn from_json_pairs(es: Seq<(Seq<char>, JsonView)>) -> Seq<(Seq<char>, BamlValueView)>
    decreases es,
{
    Seq::new(
        es.len(),
        |i: int|
            if 0 <= i < es.len() {
                (es[i].0, from_json(es[i].1))
            } else {
                (Seq::empty(), BamlValueView::Null)
            },
    )
}

/// The BAML value of a JSON value: a number becomes an integer where it
/// fits in an `i64`, else a float; an array a list; an object a map with
/// the same entries.
pub open spec fn from_json(j: JsonView) -> BamlValueView
    decreases j,
{
    match j {
        JsonView::Null => BamlValueView::Null,
        JsonView::Bool(b) => BamlValueView::Bool(b),
        JsonView::Number(n) => match number_as_i64(n) {
            Some(i) => BamlValueView::Int(i),
            None => BamlValueView::Float(number_float_bits(n)),
        },
        JsonView::String(s) => BamlValueView::String(s),
        JsonView::Array(a) => BamlValueView::List(from_json_seq(a)),
        JsonView::Object(es) => BamlValueView::MapValue(from_json_pairs(es)),
    }
}

fn number_to_baml(n: JsonNumber) -> (r: BamlValue)
    ensures
        r@ == from_json(JsonView::Number(n)),
{
    match n {
        JsonNumber::PosInt(u) => {
            if u <= i64::MAX as u64 {
                BamlValue::Int(u as i64)
            } else {
                let q = u / 2048;
                let rem = u % 2048;
                let m = if rem > 1024 || (rem == 1024 && q % 2 == 1) {
                    q + 1
                } else {
                    q
                };
                if m == 0x20_0000_0000_0000 {
                    BamlValue::Float(1087 * 0x10_0000_0000_0000)
                } else {
                    BamlValue::Float(1086 * 0x10_0000_0000_0000 + (m - 0x10_0000_0000_0000))
                }
            }
        },
        JsonNumber::NegInt(i) => BamlValue::Int(i),
        JsonNumber::Float(b) => BamlValue::Float(b),
    }
}

fn entries_from_json(es: &Vec<(String, JsonValue)>) -> (r: Vec<(String, BamlValue)>)
    ensures
        crate::value::entries_view(r) == from_json_pairs(json_entries_view(*es)),
    decreases es,
{
    let mut out: Vec<(String, BamlValue)> = Vec::new();
    let mut i: usize = 0;
    while i < es.len()
        invariant
            i <= es@.len(),
            out@.len() == i,
            forall|j: int|
                0 <= j < i ==> (#[trigger] out@[j]).0@ == es@[j].0@ && out@[j].1@ == from_json(es@[j].1@),
        decreases es@.len() - i,
    {
        let (k, v) = &es[i];
        let b = from_json_ref(v);
        out.push((k.clone(), b));
        i = i + 1;
    }
    assert(crate::value::entries_view(out) =~= from_json_pairs(json_entries_view(*es)));
    out
}

fn from_json_ref(json: &JsonValue) -> (r: BamlValue)
    ensures
        r@ == from_json(json@),
    decreases json,
{
    match json {
        JsonValue::Null => BamlValue::Null,
        JsonValue::Bool(b) => BamlValue::Bool(*b),
        JsonValue::Number(n) => number_to_baml(*n),
        JsonValue::String(s) => BamlValue::String(s.clone()),
        JsonValue::Array(arr) => {
            let mut values: Vec<BamlValue> = Vec::new();
            let mut i: usize = 0;
            while i < arr.len()
                invariant
                    *json == JsonValue::Array(*arr),
                    i <= arr@.len(),
                    values@.len() == i,
                    forall|j: int| 0 <= j < i ==> (#[trigger] values@[j])@ == from_json(arr@[j]@),
                decreases arr@.len() - i,
            {
                proof {
                    assert(decreases_to!(*arr => arr[i as int]));
                    assert(decreases_to!(*json => (*json)->Array_0));
                    assert(decreases_to!(*json => arr[i as int]));
                }
                let v = from_json_ref(&arr[i]);
                values.push(v);
                i = i + 1;
            }
            let r = BamlValue::List(values);
            proof {
                assert(r@ == BamlValueView::List(crate::value::baml_list_view(values)));
                assert(json@ == JsonView::Array(json_array_view(*arr)));
                assert(crate::value::baml_list_view(values) =~= from_json_seq(json_array_view(*arr)));
            }
            r
        },
        JsonValue::Object(obj) => BamlValue::MapValue(entries_from_json(obj)),
    }
}

/// Builds an `anyhow::Error` that carries a message.
///
/// Calls `anyhow::Error::msg`; nothing about the error is stated.
#[verifier::external_body]
fn error_with_message(msg: &str) -> anyhow::Error {
    anyhow::Error::msg(msg.to_string())
}

/// The keys of a list of entries are distinct.
pub open spec fn keys_distinct<V>(es: Seq<(Seq<char>, V)>) -> bool {
    forall|i: int, j: int| 0 <= i < es.len() && 0 <= j < es.len() && i != j ==> es[i].0 != es[j].0
}

/// A BAML value that JSON carries without loss: no enum, class or media,
/// only finite floats, and maps with distinct keys, at every depth.
pub open spec fn is_plain(v: BamlValueView) -> bool
    decreases v,
{
    match v {
        BamlValueView::Float(f) => is_finite_f64_bits(f),
        BamlValueView::List(l) => forall|i: int| 0 <= i < l.len() ==> is_plain(#[trigger] l[i]),
        BamlValueView::MapValue(es) => keys_distinct(es) && forall|i: int|
            0 <= i < es.len() ==> is_plain(#[trigger] es[i].1),
        BamlValueView::Enum(..) | BamlValueView::Class(..) | BamlValueView::Media(..) => false,
        _ => true,
    }
}

proof fn lemma_object_from_distinct(pairs: Seq<(Seq<char>, JsonView)>)
    requires
        keys_distinct(pairs),
    ensures
        object_from(Seq::empty(), pairs) == pairs,
    decreases pairs.len(),
{
    if pairs.len() > 0 {
        let d = pairs.drop_last();
        assert forall|i: int, j: int| 0 <= i < d.len() && 0 <= j < d.len() && i != j implies d[i].0 != d[j].0 by {
            assert(d[i] == pairs[i] && d[j] == pairs[j]);
        }
        lemma_object_from_distinct(d);
        let k = pairs.last().0;
        assert forall|j: int| 0 <= j < d.len() implies (#[trigger] d[j]).0 != k by {
            assert(d[j] == pairs[j]);
        }
        lemma_first_key_index(d, k, d.len() as int);
        assert(d.push(pairs.last()) =~= pairs);
    }
}

/// Converting a plain BAML value to JSON and back gives the same value.
pub proof fn json_round_trip(v: BamlValueView)
    requires
        is_plain(v),
    ensures
        from_json(to_json(v)) == v,
    decreases v,
{
    match v {
        BamlValueView::Int(i) => {},
        BamlValueView::Float(f) => {},
        BamlValueView::List(l) => {
            assert forall|i: int| 0 <= i < l.len() implies from_json(to_json(#[trigger] l[i])) == l[i] by {
                json_round_trip(l[i]);
            }
            assert(from_json_seq(to_json_seq(l)) =~= l);
        },
        BamlValueView::MapValue(es) => {
            let pairs = json_pairs(es);
            assert forall|i: int, j: int|
                0 <= i < pairs.len() && 0 <= j < pairs.len() && i != j implies pairs[i].0 != pairs[j].0 by {}
            lemma_object_from_distinct(pairs);
            assert forall|i: int| 0 <= i < es.len() implies from_json(to_json(#[trigger] es[i].1)) == es[i].1 by {
                json_round_trip(es[i].1);
            }
            assert(from_json_pairs(pairs) =~= es);
        },
        _ => {},
    }
}

/// A JSON value that BAML carries without loss: its integers fit in an
/// `i64`, its floats are finite, and its objects have distinct keys, at
/// every depth.
pub open spec fn is_i64_json(j: JsonView) -> bool
    decreases j,
{
    match j {
        JsonView::Number(n) => match n {
            JsonNumber::PosInt(u) => u <= i64::MAX,
            JsonNumber::NegInt(i) => i < 0,
            JsonNumber::Float(b) => is_finite_f64_bits(b),
        },
        JsonView::Array(a) => forall|i: int| 0 <= i < a.len() ==> is_i64_json(#[trigger] a[i]),
        JsonView::Object(es) => keys_distinct(es) && forall|i: int| 0 <= i < es.len() ==> is_i64_json(#[trigger] es[i].1),
        _ => true,
    }
}

/// Converting such a JSON value to BAML and back gives the same JSON.
pub proof fn baml_round_trip(j: JsonView)
    requires
        is_i64_json(j),
    ensures
        to_json(from_json(j)) == j,
    decreases j,
{
    match j {
        JsonView::Array(a) => {
            assert forall|i: int| 0 <= i < a.len() implies to_json(from_json(#[trigger] a[i])) == a[i] by {
                baml_round_trip(a[i]);
            }
            assert(to_json_seq(from_json_seq(a)) =~= a);
        },
        JsonView::Object(es) => {
            let back = from_json_pairs(es);
            assert forall|i: int| 0 <= i < es.len() implies to_json(from_json(#[trigger] es[i].1)) == es[i].1 by {
                baml_round_trip(es[i].1);
            }
            assert(json_pairs(back) =~= es);
            lemma_object_from_distinct(json_pairs(back));
        },
        _ => {},
    }
}

/// Converts a JSON value into a BAML value; every JSON value converts.
pub fn json_to_baml_value(json: JsonValue) -> (r: Result<BamlValue, anyhow::Error>)
    ensures
        r matches Ok(v) && v@ == from_json(json@),
{
    Ok(from_json_ref(&json))
}

/// Reads the arguments of a function call: a JSON object becomes a map of
/// BAML values; anything else is refused.
pub fn parse_json_args(args: JsonValue) -> (r: Result<BamlValue, anyhow::Error>)
    ensures
        args is Object <==> r is Ok,
        r matches Ok(v) ==> v@ == from_json(args@),
{
    match args {
        JsonValue::Object(obj) => Ok(BamlValue::MapValue(entries_from_json(&obj))),
        _ => Err(error_with_message("Arguments must be a JSON object")),
    }
}

/// Inserts `k` with value `v` into the entries of an object: the entry
/// that has key `k` gets the new value in place; otherwise the pair goes
/// at the end.
fn object_insert_exec(obj: &mut Vec<(String, JsonValue)>, k: String, v: JsonValue)
    ensures
        json_entries_view(*final(obj)) == entry_insert(json_entries_view(*old(obj)), k@, v@),
{
    let ghost before = json_entries_view(*obj);
    let mut i: usize = 0;
    while i < obj.len()
        invariant
            i <= obj@.len(),
            *obj == *old(obj),
            before == json_entries_view(*obj),
            forall|j: int| 0 <= j < i ==> (#[trigger] obj@[j]).0@ != k@,
        decreases obj@.len() - i,
    {
        if obj[i].0.eq(&k) {
            proof {
                assert forall|j: int| 0 <= j < i implies (#[trigger] before[j]).0 != k@ by {
                    assert(before[j].0 == obj@[j].0@);
                }
                assert(before[i as int].0 == obj@[i as int].0@);
                lemma_first_key_index(before, k@, i as int);
            }
            assert(first_key_index(before, k@) == Some(i as int));
            let ghost kv = k@;
            let ghost vv = v@;
            obj.set(i, (k, v));
            assert(json_entries_view(*obj) =~= before.update(i as int, (kv, vv)));
            assert(entry_insert(before, kv, vv) == before.update(i as int, (kv, vv)));
            return;
        }
        i = i + 1;
    }
    proof {
        assert forall|j: int| 0 <= j < before.len() implies (#[trigger] before[j]).0 != k@ by {
            assert(before[j].0 == obj@[j].0@);
        }
        lemma_first_key_index(before, k@, before.len() as int);
    }
    obj.push((k, v));
    assert(json_entries_view(*obj) =~= before.push((k@, v@)));
}

/// Inserts each entry of `es`, converted to JSON, in order into `obj`.
fn insert_entries(obj: &mut Vec<(String, JsonValue)>, es: &Vec<(String, BamlValue)>)
    ensures
        json_entries_view(*final(obj)) == object_from(
            json_entries_view(*old(obj)),
            json_pairs(crate::value::entries_view(*es)),
        ),
    decreases es,
{
    let ghost init = json_entries_view(*obj);
    let ghost pairs = json_pairs(crate::value::entries_view(*es));
    let mut i: usize = 0;
    assert(pairs.take(0) =~= Seq::<(Seq<char>, JsonView)>::empty());
    while i < es.len()
        invariant
            i <= es@.len(),
            pairs == json_pairs(crate::value::entries_view(*es)),
            pairs.len() == es@.len(),
            json_entries_view(*obj) == object_from(init, pairs.take(i as int)),
        decreases es@.len() - i,
    {
        let (key, val) = &es[i];
        let j = to_json_ref(val);
        proof {
            assert(pairs.take(i + 1).drop_last() =~= pairs.take(i as int));
            assert(pairs[i as int] == (key@, j@));
        }
        object_insert_exec(obj, key.clone(), j);
        i = i + 1;
    }
    assert(pairs.take(es@.len() as int) =~= pairs);
}

fn media_kind_string(m: BamlMediaType) -> (r: String)
    ensures
        r@ == media_kind_text(m),
{
    match m {
        BamlMediaType::Image => String::from_str("image"),
        BamlMediaType::Audio => String::from_str("audio"),
        BamlMediaType::Pdf => String::from_str("pdf"),
        BamlMediaType::Video => String::from_str("video"),
    }
}

fn media_to_json(media: &BamlMedia) -> (r: JsonValue)
    ensures
        r@ == media_json(crate::value::media_view(*media)),
{
    let ghost mv = crate::value::media_view(*media);
    let mut entries: Vec<(String, JsonValue)> = Vec::new();
    entries.push((String::from_str("__media__"), JsonValue::String(media_kind_string(media.media_type))));
    let ghost head = seq![("__media__"@, JsonView::String(media_kind_text(mv.media_type)))];
    assert(json_entries_view(entries) =~= head);
    let ghost mime = match mv.mime_type {
        Some(t) => seq![("mime_type"@, JsonView::String(t))],
        None => Seq::empty(),
    };
    match &media.mime_type {
        Some(m) => {
            entries.push((String::from_str("mime_type"), JsonValue::String(m.clone())));
        },
        None => {},
    }
    assert(json_entries_view(entries) =~= head + mime);
    let ghost content = match mv.content {
        BamlMediaContentView::Url(u) => ("url"@, JsonView::String(u)),
        BamlMediaContentView::Base64(b) => ("base64"@, JsonView::String(b)),
        BamlMediaContentView::File(f) => ("file"@, JsonView::String(f)),
    };
    match &media.content {
        BamlMediaContent::Url(url) => {
            entries.push((String::from_str("url"), JsonValue::String(url.clone())));
        },
        BamlMediaContent::Base64(b) => {
            entries.push((String::from_str("base64"), JsonValue::String(b.clone())));
        },
        BamlMediaContent::File(f) => {
            entries.push((String::from_str("file"), JsonValue::String(f.clone())));
        },
    }
    assert(json_entries_view(entries) =~= head + mime + seq![content]);
    JsonValue::Object(entries)
}

fn to_json_ref(value: &BamlValue) -> (r: JsonValue)
    ensures
        r@ == to_json(value@),
    decreases value,
{
    match value {
        BamlValue::Null => JsonValue::Null,
        BamlValue::Bool(b) => JsonValue::Bool(*b),
        BamlValue::Int(i) => {
            if *i >= 0 {
                JsonValue::Number(JsonNumber::PosInt(*i as u64))
            } else {
                JsonValue::Number(JsonNumber::NegInt(*i))
            }
        },
        BamlValue::Float(f) => {
            if (*f / 0x10_0000_0000_0000) % 0x800 != 0x7ff {
                JsonValue::Number(JsonNumber::Float(*f))
            } else {
                JsonValue::Null
            }
        },
        BamlValue::String(s) => JsonValue::String(s.clone()),
        BamlValue::List(list) => {
            let mut out: Vec<JsonValue> = Vec::new();
            let mut i: usize = 0;
            while i < list.len()
                invariant
                    *value == BamlValue::List(*list),
                    i <= list@.len(),
                    out@.len() == i,
                    forall|j: int| 0 <= j < i ==> (#[trigger] out@[j])@ == to_json(list@[j]@),
                decreases list@.len() - i,
            {
                proof {
                    assert(decreases_to!(*list => list[i as int]));
                    assert(decreases_to!(*value => (*value)->List_0));
                    assert(decreases_to!(*value => list[i as int]));
                }
                let j = to_json_ref(&list[i]);
                out.push(j);
                i = i + 1;
            }
            let r = JsonValue::Array(out);
            proof {
                assert(r@ == JsonView::Array(json_array_view(out)));
                let lv = crate::value::baml_list_view(*list);
                assert(value@ == BamlValueView::List(lv));
                assert(json_array_view(out) =~= to_json_seq(lv));
            }
            r
        },
        BamlValue::MapValue(map) => {
            let mut obj: Vec<(String, JsonValue)> = Vec::new();
            assert(json_entries_view(obj) =~= Seq::<(Seq<char>, JsonView)>::empty());
            insert_entries(&mut obj, map);
            JsonValue::Object(obj)
        },
        BamlValue::Enum(name, value) => {
            let mut obj: Vec<(String, JsonValue)> = Vec::new();
            obj.push((String::from_str("__enum__"), JsonValue::String(name.clone())));
            obj.push((String::from_str("value"), JsonValue::String(value.clone())));
            let r = JsonValue::Object(obj);
            assert(json_entries_view(obj) =~= seq![
                ("__enum__"@, JsonView::String(name@)),
                ("value"@, JsonView::String(value@)),
            ]);
            r
        },
        BamlValue::Class(name, fields) => {
            let mut obj: Vec<(String, JsonValue)> = Vec::new();
            obj.push((String::from_str("__class__"), JsonValue::String(name.clone())));
            assert(json_entries_view(obj) =~= seq![("__class__"@, JsonView::String(name@))]);
            insert_entries(&mut obj, fields);
            JsonValue::Object(obj)
        },
        BamlValue::Media(media) => media_to_json(media),
    }
}

/// Converts a BAML value into JSON.
pub fn baml_value_to_json(value: BamlValue) -> (r: JsonValue)
    ensures
        r@ == to_json(value@),
{
    to_json_ref(&value)
}

} // verus!
