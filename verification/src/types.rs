use vstd::prelude::*;

use crate::ir::BamlMediaType;
use crate::json::{clone_members, json_entries_view, keys_distinct, JsonValue};
use crate::value::{
    clone_opt_string, entries_insert, entries_view, entry_insert, lemma_entry_insert, BamlMedia, BamlMediaContent,
    BamlValue, BamlValueView,
};

verus! {

/// What a BAML function call returned, with facts about the call.
#[derive(Debug, Clone)]
pub struct FunctionResult {
    pub value: BamlValue,
    pub metadata: FunctionMetadata,
}

/// Facts about a function call.
#[derive(Debug, Clone)]
pub struct FunctionMetadata {
    pub function_name: String,
    /// How long the call took, in milliseconds.
    pub duration_ms: u64,
    pub span_id: Option<String>,
    pub warnings: Vec<String>,
}

/// One step of a streamed function call.
#[derive(Debug, Clone)]
pub struct StreamingResult {
    pub partial: Option<BamlValue>,
    pub is_complete: bool,
    pub error: Option<String>,
}

/// How to reach a language model.
#[derive(Debug)]
pub struct ClientConfig {
    pub provider: String,
    pub model: String,
    pub api_key: Option<String>,
    pub base_url: Option<String>,
    pub options: Vec<(String, JsonValue)>,
}

/// A tracing span.
#[derive(Debug, Clone)]
pub struct BamlSpan {
    pub span_id: String,
    pub parent_id: Option<String>,
    pub name: String,
    pub start_time: u64,
    pub end_time: Option<u64>,
    pub attributes: Vec<(String, JsonValue)>,
}

/// Two client configurations say the same: equal fields, and options with
/// the same names and JSON values in the same order.
pub open spec fn same_config(a: ClientConfig, b: ClientConfig) -> bool {
    &&& a.provider == b.provider
    &&& a.model == b.model
    &&& a.api_key == b.api_key
    &&& a.base_url == b.base_url
    &&& json_entries_view(a.options) == json_entries_view(b.options)
}

impl Clone for ClientConfig {
    fn clone(&self) -> (r: Self)
        ensures
            same_config(r, *self),
    {
        ClientConfig {
            provider: self.provider.clone(),
            model: self.model.clone(),
            api_key: clone_opt_string(&self.api_key),
            base_url: clone_opt_string(&self.base_url),
            options: clone_members(&self.options),
        }
    }
}

/// The map that a list of named clients stands for.
pub open spec fn clients_map(cs: Seq<(String, ClientConfig)>) -> Map<Seq<char>, ClientConfig>
    decreases cs.len(),
{
    if cs.len() == 0 {
        Map::empty()
    } else {
        clients_map(cs.drop_last()).insert(cs.last().0@, cs.last().1)
    }
}

/// The names of a list of named clients are distinct.
pub open spec fn names_distinct(cs: Seq<(String, ClientConfig)>) -> bool {
    forall|i: int, j: int| 0 <= i < cs.len() && 0 <= j < cs.len() && i != j ==> cs[i].0@ != cs[j].0@
}

proof fn lemma_clients_map(cs: Seq<(String, ClientConfig)>)
    requires
        names_distinct(cs),
    ensures
        forall|k: Seq<char>| #[trigger] clients_map(cs).contains_key(k) <==> exists|i: int| 0 <= i < cs.len() && cs[i].0@ == k,
        forall|i: int| 0 <= i < cs.len() ==> #[trigger] clients_map(cs)[cs[i].0@] == cs[i].1,
    decreases cs.len(),
{
    if cs.len() > 0 {
        let d = cs.drop_last();
        assert(names_distinct(d)) by {
            assert forall|i: int, j: int| 0 <= i < d.len() && 0 <= j < d.len() && i != j implies d[i].0@ != d[j].0@ by {
                assert(d[i] == cs[i] && d[j] == cs[j]);
            }
        }
        lemma_clients_map(d);
        assert forall|k: Seq<char>| #[trigger] clients_map(cs).contains_key(k) implies exists|i: int|
            0 <= i < cs.len() && cs[i].0@ == k by {
            if k != cs.last().0@ {
                assert(clients_map(d).contains_key(k));
                let i = choose|i: int| 0 <= i < d.len() && d[i].0@ == k;
                assert(cs[i] == d[i]);
            } else {
                assert(cs[cs.len() - 1].0@ == k);
            }
        }
        assert forall|k: Seq<char>| (exists|i: int| 0 <= i < cs.len() && cs[i].0@ == k) implies #[trigger] clients_map(
            cs,
        ).contains_key(k) by {
            let i = choose|i: int| 0 <= i < cs.len() && cs[i].0@ == k;
            if i < d.len() {
                assert(d[i] == cs[i]);
                assert(clients_map(d).contains_key(k));
            }
        }
        assert forall|i: int| 0 <= i < cs.len() implies #[trigger] clients_map(cs)[cs[i].0@] == cs[i].1 by {
            if i < d.len() {
                assert(d[i] == cs[i]);
                assert(cs[i].0@ != cs.last().0@);
                assert(clients_map(d)[d[i].0@] == d[i].1);
            }
        }
    }
}

proof fn lemma_clients_map_update(cs: Seq<(String, ClientConfig)>, i: int, name: String, config: ClientConfig)
    requires
        names_distinct(cs),
        0 <= i < cs.len(),
        cs[i].0@ == name@,
    ensures
        names_distinct(cs.update(i, (name, config))),
        clients_map(cs.update(i, (name, config))) == clients_map(cs).insert(name@, config),
{
    let u = cs.update(i, (name, config));
    assert(names_distinct(u)) by {
        assert forall|a: int, b: int| 0 <= a < u.len() && 0 <= b < u.len() && a != b implies u[a].0@ != u[b].0@ by {
            assert(u[a].0@ == cs[a].0@ && u[b].0@ == cs[b].0@);
        }
    }
    lemma_clients_map(cs);
    lemma_clients_map(u);
    assert forall|k: Seq<char>| clients_map(u).contains_key(k) <==> clients_map(cs).insert(name@, config).contains_key(k) by {
        if clients_map(u).contains_key(k) {
            let j = choose|j: int| 0 <= j < u.len() && u[j].0@ == k;
            assert(cs[j].0@ == k);
        }
        if clients_map(cs).contains_key(k) {
            let j = choose|j: int| 0 <= j < cs.len() && cs[j].0@ == k;
            assert(u[j].0@ == k);
        }
        if k == name@ {
            assert(u[i].0@ == k);
        }
    }
    assert forall|k: Seq<char>| #[trigger] clients_map(u).contains_key(k) implies clients_map(u)[k]
        == clients_map(cs).insert(name@, config)[k] by {
        let j = choose|j: int| 0 <= j < u.len() && u[j].0@ == k;
        assert(clients_map(u)[u[j].0@] == u[j].1);
        if j != i {
            assert(clients_map(cs)[cs[j].0@] == cs[j].1);
        }
    }
    assert(clients_map(u) =~= clients_map(cs).insert(name@, config));
}

/// The clients that calls may be routed to, by name.
#[derive(Debug)]
pub struct ClientRegistry {
    clients: Vec<(String, ClientConfig)>,
}

impl View for ClientRegistry {
    type V = Map<Seq<char>, ClientConfig>;

    closed spec fn view(&self) -> Map<Seq<char>, ClientConfig> {
        clients_map(self.clients@)
    }
}

impl ClientRegistry {
    #[verifier::type_invariant]
    spec fn names_are_distinct(self) -> bool {
        names_distinct(self.clients@)
    }

    /// An empty registry.
    pub fn new() -> (r: Self)
        ensures
            r@ == Map::<Seq<char>, ClientConfig>::empty(),
    {
        ClientRegistry { clients: Vec::new() }
    }

    /// Registers `config` under `name`, replacing what was registered under
    /// that name.
    pub fn add_client(&mut self, name: String, config: ClientConfig)
        ensures
            final(self)@ == old(self)@.insert(name@, config),
    {
        proof {
            use_type_invariant(&*self);
        }
        let ghost before = self.clients@;
        let mut i: usize = 0;
        while i < self.clients.len()
            invariant
                self.clients@ == before,
                before == old(self).clients@,
                names_distinct(before),
                i <= before.len(),
                forall|j: int| 0 <= j < i ==> (#[trigger] before[j]).0@ != name@,
            decreases before.len() - i,
        {
            if self.clients[i].0.eq(&name) {
                proof {
                    lemma_clients_map_update(before, i as int, name, config);
                }
                let mut clients: Vec<(String, ClientConfig)> = Vec::new();
                std::mem::swap(&mut clients, &mut self.clients);
                clients.set(i, (name, config));
                self.clients = clients;
                return;
            }
            i = i + 1;
        }
        let ghost pushed = before.push((name, config));
        assert(names_distinct(pushed)) by {
            assert forall|a: int, b: int| 0 <= a < pushed.len() && 0 <= b < pushed.len() && a != b implies pushed[a].0@
                != pushed[b].0@ by {
                if a < before.len() && b < before.len() {
                    assert(pushed[a] == before[a] && pushed[b] == before[b]);
                } else if a < before.len() {
                    assert(pushed[a] == before[a]);
                } else {
                    assert(pushed[b] == before[b]);
                }
            }
        }
        assert(pushed.drop_last() =~= before);
        let mut clients: Vec<(String, ClientConfig)> = Vec::new();
        std::mem::swap(&mut clients, &mut self.clients);
        clients.push((name, config));
        self.clients = clients;
    }

    /// The configuration registered under `name`, if any.
    pub fn get_client(&self, name: &str) -> (r: Option<&ClientConfig>)
        ensures
            match r {
                Some(c) => self@.contains_key(name@) && *c == self@[name@],
                None => !self@.contains_key(name@),
            },
    {
        proof {
            use_type_invariant(self);
            lemma_clients_map(self.clients@);
        }
        let key = String::from_str(name);
        let mut i: usize = 0;
        while i < self.clients.len()
            invariant
                i <= self.clients@.len(),
                key@ == name@,
                names_distinct(self.clients@),
                forall|j: int| 0 <= j < i ==> (#[trigger] self.clients@[j]).0@ != name@,
            decreases self.clients@.len() - i,
        {
            if self.clients[i].0.eq(&key) {
                proof {
                    lemma_clients_map(self.clients@);
                }
                return Some(&self.clients[i].1);
            }
            i = i + 1;
        }
        proof {
            lemma_clients_map(self.clients@);
        }
        None
    }

    /// The registered names, each once.
    pub fn list_clients(&self) -> (r: Vec<String>)
        ensures
            forall|i: int| 0 <= i < r@.len() ==> self@.contains_key(#[trigger] r@[i]@),
            forall|k: Seq<char>| #[trigger] self@.contains_key(k) ==> exists|i: int| 0 <= i < r@.len() && r@[i]@ == k,
            forall|i: int, j: int| 0 <= i < r@.len() && 0 <= j < r@.len() && i != j ==> r@[i]@ != r@[j]@,
    {
        proof {
            use_type_invariant(self);
            lemma_clients_map(self.clients@);
        }
        let mut out: Vec<String> = Vec::new();
        let mut i: usize = 0;
        while i < self.clients.len()
            invariant
                names_distinct(self.clients@),
                i <= self.clients@.len(),
                out@.len() == i,
                forall|j: int| 0 <= j < i ==> (#[trigger] out@[j])@ == self.clients@[j].0@,
            decreases self.clients@.len() - i,
        {
            out.push(self.clients[i].0.clone());
            i = i + 1;
        }
        proof {
            assert forall|k: Seq<char>| #[trigger] clients_map(self.clients@).contains_key(k) implies exists|i: int|
                0 <= i < out@.len() && out@[i]@ == k by {
                let i = choose|i: int| 0 <= i < self.clients@.len() && self.clients@[i].0@ == k;
                assert(out@[i]@ == k);
            }
        }
        out
    }
}

impl Clone for ClientRegistry {
    /// A registry with the same names, each with a copy of its
    /// configuration.
    fn clone(&self) -> (r: Self)
        ensures
            r@.dom() == self@.dom(),
            forall|k: Seq<char>| #[trigger] r@.contains_key(k) ==> same_config(r@[k], self@[k]),
    {
        proof {
            use_type_invariant(self);
        }
        let mut clients: Vec<(String, ClientConfig)> = Vec::new();
        let mut i: usize = 0;
        while i < self.clients.len()
            invariant
                names_distinct(self.clients@),
                i <= self.clients@.len(),
                clients@.len() == i,
                forall|j: int|
                    0 <= j < i ==> (#[trigger] clients@[j]).0 == self.clients@[j].0 && same_config(
                        clients@[j].1,
                        self.clients@[j].1,
                    ),
            decreases self.clients@.len() - i,
        {
            let (name, config) = &self.clients[i];
            clients.push((name.clone(), config.clone()));
            i = i + 1;
        }
        proof {
            assert(names_distinct(clients@)) by {
                assert forall|a: int, b: int|
                    0 <= a < clients@.len() && 0 <= b < clients@.len() && a != b implies clients@[a].0@
                    != clients@[b].0@ by {
                    assert(clients@[a].0 == self.clients@[a].0 && clients@[b].0 == self.clients@[b].0);
                }
            }
            lemma_clients_map(clients@);
            lemma_clients_map(self.clients@);
            assert forall|k: Seq<char>| clients_map(clients@).contains_key(k) <==> clients_map(
                self.clients@,
            ).contains_key(k) by {
                if clients_map(clients@).contains_key(k) {
                    let j = choose|j: int| 0 <= j < clients@.len() && clients@[j].0@ == k;
                    assert(self.clients@[j].0@ == k);
                }
                if clients_map(self.clients@).contains_key(k) {
                    let j = choose|j: int| 0 <= j < self.clients@.len() && self.clients@[j].0@ == k;
                    assert(clients@[j].0@ == k);
                }
            }
            assert(clients_map(clients@).dom() =~= clients_map(self.clients@).dom());
            assert forall|k: Seq<char>| #[trigger] clients_map(clients@).contains_key(k) implies same_config(
                clients_map(clients@)[k],
                clients_map(self.clients@)[k],
            ) by {
                let j = choose|j: int| 0 <= j < clients@.len() && clients@[j].0@ == k;
                assert(clients_map(clients@)[clients@[j].0@] == clients@[j].1);
                assert(clients_map(self.clients@)[self.clients@[j].0@] == self.clients@[j].1);
            }
        }
        ClientRegistry { clients }
    }
}

/// Reading a registry after registering a client gives that client back,
/// and leaves every other name as it was.
pub proof fn registry_read_after_write(
    before: Map<Seq<char>, ClientConfig>,
    after: Map<Seq<char>, ClientConfig>,
    name: Seq<char>,
    config: ClientConfig,
    other: Seq<char>,
)
    requires
        after == before.insert(name, config),
    ensures
        after.contains_key(name) && after[name] == config,
        other != name ==> (after.contains_key(other) == before.contains_key(other) && (before.contains_key(
            other,
        ) ==> after[other] == before[other])),
{
}

/// The context a function call runs in, as far as the context builder sets
/// it: the tags of the call, each name mapped to itself as a string value.
/// Every other part of the context is left empty.
#[derive(Debug)]
pub struct RuntimeContext {
    pub tags: Vec<(String, BamlValue)>,
}

/// Collects the tags (and a client registry) for the context of a call.
#[derive(Debug)]
pub struct RuntimeContextBuilder {
    pub tags: Vec<String>,
    pub client_registry: Option<ClientRegistry>,
}

/// The texts of a sequence of strings.
pub open spec fn texts(s: Seq<String>) -> Seq<Seq<char>> {
    s.map_values(|t: String| t@)
}

/// The tags map of a context built from `tags`: each tag, in order,
/// inserted under its own name.
pub open spec fn tags_map(tags: Seq<Seq<char>>) -> Seq<(Seq<char>, BamlValueView)>
    decreases tags.len(),
{
    if tags.len() == 0 {
        Seq::empty()
    } else {
        entry_insert(tags_map(tags.drop_last()), tags.last(), BamlValueView::String(tags.last()))
    }
}

/// The tags map built from a list of tags holds each tag once, as a string
/// under its own name, and nothing else.
pub proof fn context_holds_each_tag_once(tags: Seq<Seq<char>>)
    ensures
        keys_distinct(tags_map(tags)),
        forall|i: int| 0 <= i < tags.len() ==> tags_map(tags).contains((tags[i], BamlValueView::String(tags[i]))),
        forall|j: int|
            0 <= j < tags_map(tags).len() ==> tags.contains(#[trigger] tags_map(tags)[j].0) && tags_map(tags)[j].1
                == BamlValueView::String(tags_map(tags)[j].0),
    decreases tags.len(),
{
    if tags.len() > 0 {
        let d = tags.drop_last();
        let t = tags.last();
        context_holds_each_tag_once(d);
        let m = tags_map(d);
        lemma_entry_insert(m, t, BamlValueView::String(t));
        let r = tags_map(tags);
        assert(r == entry_insert(m, t, BamlValueView::String(t)));
        assert forall|i: int| 0 <= i < tags.len() implies r.contains((tags[i], BamlValueView::String(tags[i]))) by {
            if i < d.len() {
                assert(tags[i] == d[i]);
                if tags[i] != t {
                    let j = choose|j: int| 0 <= j < m.len() && m[j] == (d[i], BamlValueView::String(d[i]));
                    assert(m[j].0 != t);
                    assert(r.contains(m[j]));
                }
            }
        }
        assert forall|j: int| 0 <= j < r.len() implies tags.contains(#[trigger] r[j].0) && r[j].1
            == BamlValueView::String(r[j].0) by {
            if r[j].0 == t {
                assert(tags[tags.len() - 1] == t);
                if r[j] != (t, BamlValueView::String(t)) {
                    let a = choose|a: int| 0 <= a < r.len() && r[a] == (t, BamlValueView::String(t));
                    assert(a != j);
                }
            } else {
                let a = choose|a: int| 0 <= a < m.len() && m[a] == r[j];
                assert(d.contains(m[a].0));
                let b = choose|b: int| 0 <= b < d.len() && d[b] == m[a].0;
                assert(tags[b] == d[b]);
            }
        }
    }
}

impl RuntimeContextBuilder {
    /// A builder with no tags and no client registry.
    pub fn new() -> (r: Self)
        ensures
            r.tags@.len() == 0,
            r.client_registry is None,
    {
        RuntimeContextBuilder { tags: Vec::new(), client_registry: None }
    }

    /// Adds a tag.
    pub fn add_tag(&mut self, tag: String) -> (r: &mut Self)
        ensures
            r.tags@ == old(self).tags@.push(tag),
            r.client_registry == old(self).client_registry,
            *final(self) == *final(r),
    {
        self.tags.push(tag);
        self
    }

    /// Sets the client registry.
    pub fn with_client_registry(&mut self, registry: ClientRegistry) -> (r: &mut Self)
        ensures
            r.tags == old(self).tags,
            r.client_registry == Some(registry),
            *final(self) == *final(r),
    {
        self.client_registry = Some(registry);
        self
    }

    /// The context: its tags map holds each tag under its own name (a tag
    /// added twice once). The client registry is not passed on.
    pub fn build(self) -> (r: RuntimeContext)
        ensures
            entries_view(r.tags) == tags_map(texts(self.tags@)),
    {
        let mut tags_out: Vec<(String, BamlValue)> = Vec::new();
        let mut i: usize = 0;
        assert(entries_view(tags_out) =~= tags_map(texts(self.tags@.take(0))));
        while i < self.tags.len()
            invariant
                i <= self.tags@.len(),
                entries_view(tags_out) == tags_map(texts(self.tags@.take(i as int))),
            decreases self.tags@.len() - i,
        {
            let tag = &self.tags[i];
            assert(texts(self.tags@.take(i + 1)).drop_last() =~= texts(self.tags@.take(i as int)));
            assert(texts(self.tags@.take(i + 1)).last() == tag@);
            entries_insert(&mut tags_out, tag.clone(), BamlValue::String(tag.clone()));
            i = i + 1;
        }
        assert(self.tags@.take(self.tags@.len() as int) =~= self.tags@);
        RuntimeContext { tags: tags_out }
    }
}

/// The character for a 6-bit value in the standard base64 alphabet:
/// `A`-`Z`, `a`-`z`, `0`-`9`, `+` and `/`.
pub open spec fn base64_char(v: int) -> char {
    if v < 26 {
        (65 + v) as char
    } else if v < 52 {
        (71 + v) as char
    } else if v < 62 {
        (v - 4) as char
    } else if v == 62 {
        '+'
    } else {
        '/'
    }
}

/// Standard base64 with `=` padding (RFC 4648): each group of three bytes
/// becomes four characters of six bits each; a last group of one or two
/// bytes is filled with zero bits and padded with `=`.
pub open spec fn base64_standard(data: Seq<u8>) -> Seq<char>
    decreases data.len(),
{
    if data.len() == 0 {
        Seq::empty()
    } else if data.len() == 1 {
        let a = data[0] as int;
        seq![base64_char(a / 4), base64_char((a % 4) * 16), '=', '=']
    } else if data.len() == 2 {
        let a = data[0] as int;
        let b = data[1] as int;
        seq![base64_char(a / 4), base64_char((a % 4) * 16 + b / 16), base64_char((b % 16) * 4), '=']
    } else {
        let a = data[0] as int;
        let b = data[1] as int;
        let c = data[2] as int;
        seq![
            base64_char(a / 4),
            base64_char((a % 4) * 16 + b / 16),
            base64_char((b % 16) * 4 + c / 64),
            base64_char(c % 64),
        ] + base64_standard(data.skip(3))
    }
}

/// Encodes bytes in base64.
///
/// Calls `base64::encode`, which in this version of the crate encodes with
/// the `STANDARD` engine: the standard alphabet with `=` padding, as
/// `base64_standard` spells it out.
#[verifier::external_body]
fn base64_encode(data: &Vec<u8>) -> (r: String)
    ensures
        r@ == base64_standard(data@),
{
    #[allow(deprecated)]
    base64::encode(data)
}

/// A media value of kind `media_type` whose data, given as bytes, is held
/// inline in base64 with the given MIME type.
pub fn media_from_bytes(media_type: BamlMediaType, mime_type: String, data: &Vec<u8>) -> (r: BamlMedia)
    ensures
        r.media_type == media_type,
        r.mime_type == Some(mime_type),
        r.content matches BamlMediaContent::Base64(b) && b@ == base64_standard(data@),
{
    let base64_data = base64_encode(data);
    BamlMedia::base64(media_type, base64_data, Some(mime_type))
}

/// Image data.
#[derive(Debug, Clone)]
pub struct BamlImage {
    pub mime_type: String,
    pub data: Vec<u8>,
}

/// Audio data.
#[derive(Debug, Clone)]
pub struct BamlAudio {
    pub mime_type: String,
    pub data: Vec<u8>,
}

/// PDF data.
#[derive(Debug, Clone)]
pub struct BamlPdf {
    pub mime_type: String,
    pub data: Vec<u8>,
}

/// Video data.
#[derive(Debug, Clone)]
pub struct BamlVideo {
    pub mime_type: String,
    pub data: Vec<u8>,
}

impl From<BamlImage> for BamlMedia {
    fn from(img: BamlImage) -> (r: Self)
        ensures
            r.media_type == BamlMediaType::Image,
            r.mime_type == Some(img.mime_type),
            r.content matches BamlMediaContent::Base64(b) && b@ == base64_standard(img.data@),
    {
        media_from_bytes(BamlMediaType::Image, img.mime_type, &img.data)
    }
}

impl From<BamlAudio> for BamlMedia {
    fn from(audio: BamlAudio) -> (r: Self)
        ensures
            r.media_type == BamlMediaType::Audio,
            r.mime_type == Some(audio.mime_type),
            r.content matches BamlMediaContent::Base64(b) && b@ == base64_standard(audio.data@),
    {
        media_from_bytes(BamlMediaType::Audio, audio.mime_type, &audio.data)
    }
}

impl From<BamlPdf> for BamlMedia {
    fn from(pdf: BamlPdf) -> (r: Self)
        ensures
            r.media_type == BamlMediaType::Pdf,
            r.mime_type == Some(pdf.mime_type),
            r.content matches BamlMediaContent::Base64(b) && b@ == base64_standard(pdf.data@),
    {
        media_from_bytes(BamlMediaType::Pdf, pdf.mime_type, &pdf.data)
    }
}

impl From<BamlVideo> for BamlMedia {
    fn from(video: BamlVideo) -> (r: Self)
        ensures
            r.media_type == BamlMediaType::Video,
            r.mime_type == Some(video.mime_type),
            r.content matches BamlMediaContent::Base64(b) && b@ == base64_standard(video.data@),
    {
        media_from_bytes(BamlMediaType::Video, video.mime_type, &video.data)
    }
}

impl vstd::std_specs::convert::FromSpecImpl<BamlImage> for BamlMedia {
    /// The conversion is stated by the `ensures` of `from`: what it gives is
    /// a media value with these properties, not a value fixed in advance.
    open spec fn obeys_from_spec() -> bool {
        false
    }

    open spec fn from_spec(v: BamlImage) -> BamlMedia {
        choose|m: BamlMedia|
            m.media_type == BamlMediaType::Image && m.mime_type == Some(v.mime_type) && (m.content matches BamlMediaContent::Base64(b)
                && b@ == base64_standard(v.data@))
    }
}

impl vstd::std_specs::convert::FromSpecImpl<BamlAudio> for BamlMedia {
    /// The conversion is stated by the `ensures` of `from`: what it gives is
    /// a media value with these properties, not a value fixed in advance.
    open spec fn obeys_from_spec() -> bool {
        false
    }

    open spec fn from_spec(v: BamlAudio) -> BamlMedia {
        choose|m: BamlMedia|
            m.media_type == BamlMediaType::Audio && m.mime_type == Some(v.mime_type) && (m.content matches BamlMediaContent::Base64(b)
                && b@ == base64_standard(v.data@))
    }
}

impl vstd::std_specs::convert::FromSpecImpl<BamlPdf> for BamlMedia {
    /// The conversion is stated by the `ensures` of `from`: what it gives is
    /// a media value with these properties, not a value fixed in advance.
    open spec fn obeys_from_spec() -> bool {
        false
    }

    open spec fn from_spec(v: BamlPdf) -> BamlMedia {
        choose|m: BamlMedia|
            m.media_type == BamlMediaType::Pdf && m.mime_type == Some(v.mime_type) && (m.content matches BamlMediaContent::Base64(b)
                && b@ == base64_standard(v.data@))
    }
}

impl vstd::std_specs::convert::FromSpecImpl<BamlVideo> for BamlMedia {
    /// The conversion is stated by the `ensures` of `from`: what it gives is
    /// a media value with these properties, not a value fixed in advance.
    open spec fn obeys_from_spec() -> bool {
        false
    }

    open spec fn from_spec(v: BamlVideo) -> BamlMedia {
        choose|m: BamlMedia|
            m.media_type == BamlMediaType::Video && m.mime_type == Some(v.mime_type) && (m.content matches BamlMediaContent::Base64(b)
                && b@ == base64_standard(v.data@))
    }
}

} // verus!
