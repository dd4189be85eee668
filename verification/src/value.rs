use vstd::prelude::*;

use crate::ir::BamlMediaType;

verus! {

/// Where the data of a media value is: at a URL, inline in base64, or in a
/// file (its path relative to the BAML sources).
#[derive(Debug)]
pub enum BamlMediaContent {
    Url(String),
    Base64(String),
    File(String),
}

/// A media value: its kind, its MIME type if known, and its content.
#[derive(Debug)]
pub struct BamlMedia {
    pub media_type: BamlMediaType,
    pub mime_type: Option<String>,
    pub content: BamlMediaContent,
}

impl BamlMedia {
    /// A media value whose data is given inline in base64.
    pub fn base64(media_type: BamlMediaType, base64: String, mime_type: Option<String>) -> (r: BamlMedia)
        ensures
            r == (BamlMedia { media_type, mime_type, content: BamlMediaContent::Base64(base64) }),
    {
        BamlMedia { media_type, mime_type, content: BamlMediaContent::Base64(base64) }
    }
}

/// A BAML value. A float is held as the bit pattern of its `f64` (the
/// IEEE 754 binary64 encoding, as `f64::to_bits` gives it).
#[derive(Debug)]
pub enum BamlValue {
    String(String),
    Int(i64),
    Float(u64),
    Bool(bool),
    MapValue(Vec<(String, BamlValue)>),
    List(Vec<BamlValue>),
    Media(BamlMedia),
    Enum(String, String),
    Class(String, Vec<(String, BamlValue)>),
    Null,
}

/// The mathematical value of a media value.
pub enum BamlMediaContentView {
    Url(Seq<char>),
    Base64(Seq<char>),
    File(Seq<char>),
}

pub struct BamlMediaView {
    pub media_type: BamlMediaType,
    pub mime_type: Option<Seq<char>>,
    pub content: BamlMediaContentView,
}

/// The mathematical value of a [`BamlValue`].
pub enum BamlValueView {
    String(Seq<char>),
    Int(i64),
    Float(u64),
    Bool(bool),
    MapValue(Seq<(Seq<char>, BamlValueView)>),
    List(Seq<BamlValueView>),
    Media(BamlMediaView),
    Enum(Seq<char>, Seq<char>),
    Class(Seq<char>, Seq<(Seq<char>, BamlValueView)>),
    Null,
}

/// The mathematical value of a media value.
pub open spec fn media_view(m: BamlMedia) -> BamlMediaView {
    BamlMediaView {
        media_type: m.media_type,
        mime_type: match m.mime_type {
            Some(s) => Some(s@),
            None => None,
        },
        content: match m.content {
            BamlMediaContent::Url(u) => BamlMediaContentView::Url(u@),
            BamlMediaContent::Base64(b) => BamlMediaContentView::Base64(b@),
            BamlMediaContent::File(f) => BamlMediaContentView::File(f@),
        },
    }
}

/// The view of each entry of a map or of the fields of a class.
pub open spec fn entries_view(es: Vec<(String, BamlValue)>) -> Seq<(Seq<char>, BamlValueView)>
    decreases es,
{
    Seq::new(
        es@.len(),
        |i: int|
            if 0 <= i < es@.len() {
                (es@[i].0@, baml_value_view(es@[i].1))
            } else {
                (Seq::empty(), BamlValueView::Null)
            },
    )
}

/// The view of each item of a list.
pub open spec fn baml_list_view(l: Vec<BamlValue>) -> Seq<BamlValueView>
    decreases l,
{
    Seq::new(
        l@.len(),
        |i: int|
            if 0 <= i < l@.len() {
                baml_value_view(l@[i])
            } else {
                BamlValueView::Null
            },
    )
}

/// The mathematical value of a [`BamlValue`].
pub open spec fn baml_value_view(v: BamlValue) -> BamlValueView
    decreases v,
{
    match v {
        BamlValue::String(s) => BamlValueView::String(s@),
        BamlValue::Int(i) => BamlValueView::Int(i),
        BamlValue::Float(f) => BamlValueView::Float(f),
        BamlValue::Bool(b) => BamlValueView::Bool(b),
        BamlValue::MapValue(es) => BamlValueView::MapValue(entries_view(es)),
        BamlValue::List(l) => BamlValueView::List(baml_list_view(l)),
        BamlValue::Media(m) => BamlValueView::Media(media_view(m)),
        BamlValue::Enum(n, v) => BamlValueView::Enum(n@, v@),
        BamlValue::Class(n, fs) => BamlValueView::Class(n@, entries_view(fs)),
        BamlValue::Null => BamlValueView::Null,
    }
}

impl View for BamlValue {
    type V = BamlValueView;

    open spec fn view(&self) -> BamlValueView {
        baml_value_view(*self)
    }
}

pub(crate) fn clone_opt_string(o: &Option<String>) -> (r: Option<String>)
    ensures
        r == *o,
{
    match o {
        Some(s) => Some(s.clone()),
        None => None,
    }
}

impl Clone for BamlMedia {
    fn clone(&self) -> (r: Self)
        ensures
            media_view(r) == media_view(*self),
    {
        let content = match &self.content {
            BamlMediaContent::Url(u) => BamlMediaContent::Url(u.clone()),
            BamlMediaContent::Base64(b) => BamlMediaContent::Base64(b.clone()),
            BamlMediaContent::File(f) => BamlMediaContent::File(f.clone()),
        };
        BamlMedia { media_type: self.media_type, mime_type: clone_opt_string(&self.mime_type), content }
    }
}

fn clone_entries(es: &Vec<(String, BamlValue)>) -> (r: Vec<(String, BamlValue)>)
    ensures
        entries_view(r) == entries_view(*es),
    decreases es,
{
    let mut out: Vec<(String, BamlValue)> = Vec::new();
    let mut i: usize = 0;
    while i < es.len()
        invariant
            i <= es@.len(),
            out@.len() == i,
            forall|j: int| 0 <= j < i ==> (#[trigger] out@[j]).0@ == es@[j].0@ && out@[j].1@ == es@[j].1@,
        decreases es@.len() - i,
    {
        proof {
            assert(decreases_to!(*es => es[i as int]));
        }
        let (k, v) = &es[i];
        out.push((k.clone(), v.clone()));
        i = i + 1;
    }
    assert(entries_view(out) =~= entries_view(*es));
    out
}

impl Clone for BamlValue {
    fn clone(&self) -> (r: Self)
        ensures
            r@ == self@,
        decreases self,
    {
        match self {
            BamlValue::String(s) => BamlValue::String(s.clone()),
            BamlValue::Int(i) => BamlValue::Int(*i),
            BamlValue::Float(f) => BamlValue::Float(*f),
            BamlValue::Bool(b) => BamlValue::Bool(*b),
            BamlValue::MapValue(es) => BamlValue::MapValue(clone_entries(es)),
            BamlValue::List(l) => {
                let mut out: Vec<BamlValue> = Vec::new();
                let mut i: usize = 0;
                while i < l.len()
                    invariant
                        *self == BamlValue::List(*l),
                        i <= l@.len(),
                        out@.len() == i,
                        forall|j: int| 0 <= j < i ==> (#[trigger] out@[j])@ == l@[j]@,
                    decreases l@.len() - i,
                {
                    proof {
                        assert(decreases_to!(*l => l[i as int]));
                        assert(decreases_to!(*self => (*self)->List_0));
                        assert(decreases_to!(*self => l[i as int]));
                    }
                    out.push(l[i].clone());
                    i = i + 1;
                }
                assert(baml_list_view(out) =~= baml_list_view(*l));
                BamlValue::List(out)
            },
            BamlValue::Media(m) => BamlValue::Media(m.clone()),
            BamlValue::Enum(n, v) => BamlValue::Enum(n.clone(), v.clone()),
            BamlValue::Class(n, fs) => BamlValue::Class(n.clone(), clone_entries(fs)),
            BamlValue::Null => BamlValue::Null,
        }
    }
}

/// The index of the first entry with key `k`, if any.
pub open spec fn first_key_index<V>(es: Seq<(Seq<char>, V)>, k: Seq<char>) -> Option<int>
    decreases es.len(),
{
    if es.len() == 0 {
        None
    } else {
        match first_key_index(es.drop_last(), k) {
            Some(i) => Some(i),
            None => if es.last().0 == k {
                Some(es.len() - 1)
            } else {
                None
            },
        }
    }
}

/// Inserting into a map kept as a list of entries: the entry with the same
/// key gets the new value in place; a new key goes at the end.
pub open spec fn entry_insert<V>(es: Seq<(Seq<char>, V)>, k: Seq<char>, v: V) -> Seq<(Seq<char>, V)> {
    match first_key_index(es, k) {
        Some(i) => es.update(i, (k, v)),
        None => es.push((k, v)),
    }
}

pub proof fn lemma_first_key_index<V>(es: Seq<(Seq<char>, V)>, k: Seq<char>, i: int)
    requires
        0 <= i <= es.len(),
        forall|j: int| 0 <= j < i ==> (#[trigger] es[j]).0 != k,
    ensures
        i == es.len() ==> first_key_index(es, k) is None,
        i < es.len() && es[i].0 == k ==> first_key_index(es, k) == Some(i),
    decreases es.len(),
{
    if es.len() > 0 {
        let d = es.drop_last();
        if i == es.len() {
            assert forall|j: int| 0 <= j < d.len() implies (#[trigger] d[j]).0 != k by {
                assert(d[j] == es[j]);
            }
            lemma_first_key_index(d, k, d.len() as int);
        } else if es[i].0 == k {
            if i < d.len() {
                assert forall|j: int| 0 <= j < i implies (#[trigger] d[j]).0 != k by {
                    assert(d[j] == es[j]);
                }
                assert(d[i] == es[i]);
                lemma_first_key_index(d, k, i);
            } else {
                assert forall|j: int| 0 <= j < d.len() implies (#[trigger] d[j]).0 != k by {
                    assert(d[j] == es[j]);
                }
                lemma_first_key_index(d, k, d.len() as int);
            }
        }
    }
}

/// What `first_key_index` finds: the first entry with the key, or that
/// there is none.
pub proof fn lemma_first_key_index_found<V>(es: Seq<(Seq<char>, V)>, k: Seq<char>)
    ensures
        match first_key_index(es, k) {
            Some(i) => 0 <= i < es.len() && es[i].0 == k && forall|j: int| 0 <= j < i ==> (#[trigger] es[j]).0 != k,
            None => forall|j: int| 0 <= j < es.len() ==> (#[trigger] es[j]).0 != k,
        },
    decreases es.len(),
{
    if es.len() > 0 {
        let d = es.drop_last();
        lemma_first_key_index_found(d, k);
        assert forall|j: int| 0 <= j < d.len() implies (#[trigger] es[j]) == d[j] by {}
    }
}

/// Inserting into entries whose keys are distinct keeps them distinct; the
/// new pair is among the result, and every other pair of the result was
/// there before, as was every pair with another key.
pub proof fn lemma_entry_insert<V>(es: Seq<(Seq<char>, V)>, k: Seq<char>, v: V)
    requires
        forall|i: int, j: int| 0 <= i < es.len() && 0 <= j < es.len() && i != j ==> es[i].0 != es[j].0,
    ensures
        ({
            let r = entry_insert(es, k, v);
            &&& forall|i: int, j: int| 0 <= i < r.len() && 0 <= j < r.len() && i != j ==> r[i].0 != r[j].0
            &&& r.contains((k, v))
            &&& forall|j: int| 0 <= j < r.len() && r[j].0 != k ==> es.contains(#[trigger] r[j])
            &&& forall|i: int| 0 <= i < es.len() && es[i].0 != k ==> r.contains(#[trigger] es[i])
        }),
{
    lemma_first_key_index_found(es, k);
    let r = entry_insert(es, k, v);
    match first_key_index(es, k) {
        Some(i) => {
            assert(r[i] == (k, v));
            assert forall|j: int| 0 <= j < r.len() && r[j].0 != k implies es.contains(#[trigger] r[j]) by {
                assert(r[j] == es[j]);
            }
            assert forall|a: int| 0 <= a < es.len() && es[a].0 != k implies r.contains(#[trigger] es[a]) by {
                assert(r[a] == es[a]);
            }
        },
        None => {
            assert(r[es.len() as int] == (k, v));
            assert forall|j: int| 0 <= j < r.len() && r[j].0 != k implies es.contains(#[trigger] r[j]) by {
                assert(r[j] == es[j]);
            }
            assert forall|a: int| 0 <= a < es.len() && es[a].0 != k implies r.contains(#[trigger] es[a]) by {
                assert(r[a] == es[a]);
            }
        },
    }
}

/// Inserts `k` with value `v` into the entries of a map: the entry that
/// has key `k` gets the new value in place; otherwise the pair goes at the
/// end.
pub fn entries_insert(es: &mut Vec<(String, BamlValue)>, k: String, v: BamlValue)
    ensures
        entries_view(*final(es)) == entry_insert(entries_view(*old(es)), k@, v@),
{
    let ghost before = entries_view(*es);
    let mut i: usize = 0;
    while i < es.len()
        invariant
            i <= es@.len(),
            *es == *old(es),
            before == entries_view(*es),
            forall|j: int| 0 <= j < i ==> (#[trigger] es@[j]).0@ != k@,
        decreases es@.len() - i,
    {
        if es[i].0.eq(&k) {
            proof {
                assert forall|j: int| 0 <= j < i implies (#[trigger] before[j]).0 != k@ by {
                    assert(before[j].0 == es@[j].0@);
                }
                assert(before[i as int].0 == es@[i as int].0@);
                lemma_first_key_index(before, k@, i as int);
            }
            let ghost kv = k@;
            let ghost vv = v@;
            es.set(i, (k, v));
            assert(entries_view(*es) =~= before.update(i as int, (kv, vv)));
            return;
        }
        i = i + 1;
    }
    proof {
        assert forall|j: int| 0 <= j < before.len() implies (#[trigger] before[j]).0 != k@ by {
            assert(before[j].0 == es@[j].0@);
        }
        lemma_first_key_index(before, k@, before.len() as int);
    }
    let ghost kv = k@;
    let ghost vv = v@;
    es.push((k, v));
    assert(entries_view(*es) =~= before.push((kv, vv)));
}

} // verus!
