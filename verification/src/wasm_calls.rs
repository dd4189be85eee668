use indexmap::IndexMap;
use vstd::prelude::*;

use crate::types::{tags_map, texts, RuntimeContext, RuntimeContextBuilder};
use crate::value::{entries_view, entry_insert};

verus! {

broadcast use vstd::std_specs::vec::group_vec_axioms;

/// The entries of a JavaScript object as `Object.entries` lists them, each
/// key and each value given as its text where it is a string.
pub open spec fn entries_text(es: Seq<(Option<String>, Option<String>)>) -> Seq<(Option<Seq<char>>, Option<Seq<char>>)> {
    es.map_values(
        |e: (Option<String>, Option<String>)|
            (
                match e.0 {
                    Some(k) => Some(k@),
                    None => None,
                },
                match e.1 {
                    Some(v) => Some(v@),
                    None => None,
                },
            ),
    )
}

/// The pairs of texts of a list of pairs of strings.
pub open spec fn pairs_text(ps: Seq<(String, String)>) -> Seq<(Seq<char>, Seq<char>)> {
    ps.map_values(|p: (String, String)| (p.0@, p.1@))
}

/// The entries read in order as pairs of strings: the first entry whose
/// key, then whose value, is not a string stops the reading with the error
/// for it.
pub open spec fn string_pairs(
    es: Seq<(Option<Seq<char>>, Option<Seq<char>>)>,
    key_error: Seq<char>,
    value_error: Seq<char>,
) -> Result<Seq<(Seq<char>, Seq<char>)>, Seq<char>>
    decreases es.len(),
{
    if es.len() == 0 {
        Ok(Seq::empty())
    } else {
        match es[0].0 {
            None => Err(key_error),
            Some(k) => match es[0].1 {
                None => Err(value_error),
                Some(v) => match string_pairs(es.drop_first(), key_error, value_error) {
                    Ok(rest) => Ok(seq![(k, v)] + rest),
                    Err(e) => Err(e),
                },
            },
        }
    }
}

fn read_pairs(es: &Vec<(Option<String>, Option<String>)>, key_error: &str, value_error: &str) -> (r: Result<
    Vec<(String, String)>,
    String,
>)
    ensures
        match string_pairs(entries_text(es@), key_error@, value_error@) {
            Ok(ps) => r matches Ok(out) && pairs_text(out@) == ps,
            Err(m) => r matches Err(e) && e@ == m,
        },
{
    let ghost all = entries_text(es@);
    let mut out: Vec<(String, String)> = Vec::new();
    let mut i: usize = 0;
    assert(all.skip(0) =~= all);
    while i < es.len()
        invariant
            all == entries_text(es@),
            i <= es@.len(),
            string_pairs(all, key_error@, value_error@) == match string_pairs(
                all.skip(i as int),
                key_error@,
                value_error@,
            ) {
                Ok(rest) => Ok(pairs_text(out@) + rest),
                Err(e) => Err(e),
            },
        decreases es@.len() - i,
    {
        let ghost rest = all.skip(i as int);
        assert(rest.drop_first() =~= all.skip(i + 1));
        assert(rest[0] == all[i as int]);
        let (k, v) = &es[i];
        let key = match k {
            None => {
                return Err(String::from_str(key_error));
            },
            Some(key) => key.clone(),
        };
        let value = match v {
            None => {
                return Err(String::from_str(value_error));
            },
            Some(value) => value.clone(),
        };
        let ghost before = pairs_text(out@);
        let ghost kv = (key@, value@);
        out.push((key, value));
        proof {
            assert(pairs_text(out@) =~= before.push(kv));
            match string_pairs(all.skip(i + 1), key_error@, value_error@) {
                Ok(more) => {
                    assert(before + (seq![kv] + more) =~= before.push(kv) + more);
                },
                Err(e) => {},
            }
        }
        i = i + 1;
    }
    assert(all.skip(es@.len() as int) =~= Seq::<(Option<Seq<char>>, Option<Seq<char>>)>::empty());
    assert(pairs_text(out@) + Seq::<(Seq<char>, Seq<char>)>::empty() =~= pairs_text(out@));
    Ok(out)
}

/// Reads the environment variables given from JavaScript: none where the
/// value is `null` or `undefined`, else the entries of the object in order,
/// each key and value a string.
pub fn parse_env_vars(entries: Option<Vec<(Option<String>, Option<String>)>>) -> (r: Result<
    Vec<(String, String)>,
    String,
>)
    ensures
        match entries {
            None => r matches Ok(vars) && vars@.len() == 0,
            Some(es) => match string_pairs(entries_text(es@), "Invalid env var key"@, "Invalid env var value"@) {
                Ok(ps) => r matches Ok(vars) && pairs_text(vars@) == ps,
                Err(m) => r matches Err(e) && e@ == m,
            },
        },
{
    match entries {
        None => Ok(Vec::new()),
        Some(es) => read_pairs(&es, "Invalid env var key", "Invalid env var value"),
    }
}

/// The files map made by inserting the pairs in order.
pub open spec fn files_map(ps: Seq<(Seq<char>, Seq<char>)>) -> Seq<(Seq<char>, Seq<char>)>
    decreases ps.len(),
{
    if ps.len() == 0 {
        Seq::empty()
    } else {
        entry_insert(files_map(ps.drop_last()), ps.last().0, ps.last().1)
    }
}

/// The map type that holds source files, path to content, in order of
/// first insertion.
#[verifier::external_type_specification]
#[verifier::external_body]
#[verifier::reject_recursive_types(K)]
#[verifier::reject_recursive_types(V)]
#[verifier::reject_recursive_types(S)]
pub struct ExIndexMap<K, V, S>(IndexMap<K, V, S>);

/// The entries of a map of files, in the map's order.
pub uninterp spec fn file_entries(files: IndexMap<String, String>) -> Seq<(Seq<char>, Seq<char>)>;

/// An empty map of files.
///
/// Calls `IndexMap::new`, which makes a map with no entries.
#[verifier::external_body]
fn files_new() -> (r: IndexMap<String, String>)
    ensures
        file_entries(r) == Seq::<(Seq<char>, Seq<char>)>::empty(),
{
    IndexMap::new()
}

/// Inserts a file into a map of files.
///
/// Calls `IndexMap::insert`, which, as its documentation says, updates the
/// value of an equal key that is already there, keeping its place in the
/// order, and otherwise puts the pair last.
#[verifier::external_body]
fn files_insert(files: &mut IndexMap<String, String>, path: String, content: String)
    ensures
        file_entries(*final(files)) == entry_insert(file_entries(*old(files)), path@, content@),
{
    files.insert(path, content);
}

/// Reads the source files given from JavaScript, path to content: none
/// where the value is `null` or `undefined`, else the entries of the object
/// inserted in order into a map that keeps the order of first insertion.
pub fn parse_files(entries: Option<Vec<(Option<String>, Option<String>)>>) -> (r: Result<
    IndexMap<String, String>,
    String,
>)
    ensures
        match entries {
            None => r matches Ok(files) && file_entries(files) == Seq::<(Seq<char>, Seq<char>)>::empty(),
            Some(es) => match string_pairs(entries_text(es@), "Invalid file path"@, "Invalid file content"@) {
                Ok(ps) => r matches Ok(files) && file_entries(files) == files_map(ps),
                Err(m) => r matches Err(e) && e@ == m,
            },
        },
{
    match entries {
        None => Ok(files_new()),
        Some(es) => match read_pairs(&es, "Invalid file path", "Invalid file content") {
            Err(e) => Err(e),
            Ok(pairs) => {
                let ghost ps = pairs_text(pairs@);
                let mut files = files_new();
                let mut i: usize = 0;
                assert(file_entries(files) =~= files_map(ps.take(0)));
                while i < pairs.len()
                    invariant
                        ps == pairs_text(pairs@),
                        i <= pairs@.len(),
                        file_entries(files) == files_map(ps.take(i as int)),
                    decreases pairs@.len() - i,
                {
                    assert(ps.take(i + 1).drop_last() =~= ps.take(i as int));
                    assert(ps.take(i + 1).last() == ps[i as int]);
                    let (path, content) = &pairs[i];
                    files_insert(&mut files, path.clone(), content.clone());
                    i = i + 1;
                }
                assert(ps.take(pairs@.len() as int) =~= ps);
                Ok(files)
            },
        },
    }
}

/// The texts of the items that are strings, in order.
pub open spec fn present_texts(items: Seq<Option<String>>) -> Seq<Seq<char>>
    decreases items.len(),
{
    if items.len() == 0 {
        Seq::empty()
    } else {
        let rest = present_texts(items.drop_last());
        match items.last() {
            Some(t) => rest.push(t@),
            None => rest,
        }
    }
}

/// Reads the context of a call given from JavaScript: `tags` is the array
/// under the key `tags` of the context object, each item given as its text
/// where it is a string, or nothing where there is no such array. Each tag
/// that is a string is held under its own name; every other item is passed
/// over.
pub fn parse_runtime_context(tags: Option<Vec<Option<String>>>) -> (r: RuntimeContext)
    ensures
        match tags {
            Some(items) => entries_view(r.tags) == tags_map(present_texts(items@)),
            None => r.tags@.len() == 0,
        },
{
    let mut builder = RuntimeContextBuilder::new();
    match tags {
        None => {},
        Some(items) => {
            let mut i: usize = 0;
            assert(texts(builder.tags@) =~= present_texts(items@.take(0)));
            while i < items.len()
                invariant
                    i <= items@.len(),
                    texts(builder.tags@) == present_texts(items@.take(i as int)),
                decreases items@.len() - i,
            {
                assert(items@.take(i + 1).drop_last() =~= items@.take(i as int));
                match &items[i] {
                    Some(t) => {
                        let ghost before = builder.tags@;
                        builder.add_tag(t.clone());
                        assert(texts(builder.tags@) =~= texts(before).push(t@));
                    },
                    None => {},
                }
                i = i + 1;
            }
            assert(items@.take(items@.len() as int) =~= items@);
        },
    }
    let ghost built_from = texts(builder.tags@);
    let c = builder.build();
    assert(entries_view(c.tags) == tags_map(built_from));
    proof {
        if tags is None {
            assert(texts(Seq::<String>::empty()) =~= Seq::<Seq<char>>::empty());
        }
    }
    c
}

} // verus!
