//! The backends that the client is logged into, and which of them a model id
//! belongs to.

use crate::text::after_prefix;
use vstd::prelude::*;
use vstd::string::*;

verus! {

/// A kind of backend.
#[derive(Clone, Copy, Debug, PartialEq, Eq, Structural)]
pub enum BackendTag {
    OpenRouter,
    OpenAi,
    OpencodeGo,
    Codex,
}

impl BackendTag {
    /// What the composite ids of the backend's models begin with.
    pub open spec fn prefix(self) -> Seq<char> {
        match self {
            BackendTag::OpenRouter => ""@,
            BackendTag::OpenAi => "openai:"@,
            BackendTag::OpencodeGo => "opencode:"@,
            BackendTag::Codex => "codex:"@,
        }
    }

    /// What the composite ids of the backend's models begin with.
    pub fn key_prefix(self) -> (r: &'static str)
        ensures
            r@ == self.prefix(),
    {
        match self {
            BackendTag::OpenRouter => "",
            BackendTag::OpenAi => "openai:",
            BackendTag::OpencodeGo => "opencode:",
            BackendTag::Codex => "codex:",
        }
    }
}

/// A backend that the client is logged into: its kind, its credential, and the
/// models it has for background jobs and for research.
pub struct Backend {
    pub tag: BackendTag,
    pub key: String,
    pub utility_model: String,
    pub research_model: String,
}

impl Clone for Backend {
    fn clone(&self) -> (r: Backend)
        ensures
            r == *self,
    {
        Backend {
            tag: self.tag,
            key: self.key.clone(),
            utility_model: self.utility_model.clone(),
            research_model: self.research_model.clone(),
        }
    }
}

impl Backend {
    /// The kind of the backend.
    pub fn backend_tag(&self) -> (r: BackendTag)
        ensures
            r == self.tag,
    {
        self.tag
    }
}

/// One model of a backend's catalog.
pub struct Model {
    pub id: String,
    pub name: String,
    pub backend: BackendTag,
    pub supports_reasoning: bool,
    pub supports_images: bool,
    pub supports_image_generation: bool,
    pub supports_video_generation: bool,
    pub context_length: Option<u64>,
}

/// The backends that the client is logged into, at most one of each kind.
pub struct Backends {
    pub openrouter: Option<Backend>,
    pub openai: Option<Backend>,
    pub opencode: Option<Backend>,
    pub codex: Option<Backend>,
}

impl Default for Backends {
    fn default() -> (r: Backends)
        ensures
            forall|tag: BackendTag| r.of(tag) is None,
    {
        Backends { openrouter: None, openai: None, opencode: None, codex: None }
    }
}

/// The kinds in the order in which they are shown.
pub open spec fn all_tags() -> Seq<BackendTag> {
    seq![BackendTag::OpenRouter, BackendTag::OpenAi, BackendTag::OpencodeGo, BackendTag::Codex]
}

impl Backends {
    /// The backend of a kind.
    pub open spec fn of(&self, tag: BackendTag) -> Option<Backend> {
        match tag {
            BackendTag::OpenRouter => self.openrouter,
            BackendTag::OpenAi => self.openai,
            BackendTag::OpencodeGo => self.opencode,
            BackendTag::Codex => self.codex,
        }
    }

    /// The kinds that are configured among `tags`, in their order.
    pub open spec fn configured(&self, tags: Seq<BackendTag>) -> Seq<BackendTag>
        decreases tags.len(),
    {
        if tags.len() == 0 {
            Seq::empty()
        } else if self.of(tags.last()) is Some {
            self.configured(tags.drop_last()).push(tags.last())
        } else {
            self.configured(tags.drop_last())
        }
    }

    /// The backend that takes ids without a prefix: the one of the first
    /// configured kind, in the order in which kinds are shown.
    pub open spec fn first(&self) -> Option<Backend> {
        match (self.openrouter, self.openai, self.opencode, self.codex) {
            (Some(b), _, _, _) => Some(b),
            (None, Some(b), _, _) => Some(b),
            (None, None, Some(b), _) => Some(b),
            (None, None, None, b) => b,
        }
    }

    /// The backend and the raw model id that a composite id stands for. A
    /// prefix decides, even where its backend is not configured.
    pub open spec fn route(&self, id: Seq<char>) -> Option<(Backend, Seq<char>)> {
        if "openai:"@.is_prefix_of(id) {
            with_id(self.openai, id.skip("openai:"@.len() as int))
        } else if "opencode:"@.is_prefix_of(id) {
            with_id(self.opencode, id.skip("opencode:"@.len() as int))
        } else if "codex:"@.is_prefix_of(id) {
            with_id(self.codex, id.skip("codex:"@.len() as int))
        } else {
            with_id(self.first(), id)
        }
    }

    /// Whether any backend is configured.
    pub fn any(&self) -> (r: bool)
        ensures
            r == (exists|tag: BackendTag| self.of(tag) is Some),
            r == self.first() is Some,
    {
        let r = self.openrouter.is_some() || self.openai.is_some() || self.opencode.is_some()
            || self.codex.is_some();
        proof {
            if self.openrouter is Some {
                assert(self.of(BackendTag::OpenRouter) is Some);
            }
            if self.openai is Some {
                assert(self.of(BackendTag::OpenAi) is Some);
            }
            if self.opencode is Some {
                assert(self.of(BackendTag::OpencodeGo) is Some);
            }
            if self.codex is Some {
                assert(self.of(BackendTag::Codex) is Some);
            }
        }
        r
    }

    /// The backend of a kind.
    pub fn get(&self, tag: BackendTag) -> (r: Option<&Backend>)
        ensures
            match r {
                Some(b) => self.of(tag) == Some(*b),
                None => self.of(tag) is None,
            },
    {
        match tag {
            BackendTag::OpenRouter => self.openrouter.as_ref(),
            BackendTag::OpenAi => self.openai.as_ref(),
            BackendTag::OpencodeGo => self.opencode.as_ref(),
            BackendTag::Codex => self.codex.as_ref(),
        }
    }

    /// Makes `provider` the backend of a kind and leaves the others.
    pub fn set(&mut self, tag: BackendTag, provider: Backend)
        ensures
            forall|t: BackendTag| #[trigger]
                final(self).of(t) == (if t == tag {
                    Some(provider)
                } else {
                    old(self).of(t)
                }),
    {
        match tag {
            BackendTag::OpenRouter => {
                self.openrouter = Some(provider);
            },
            BackendTag::OpenAi => {
                self.openai = Some(provider);
            },
            BackendTag::OpencodeGo => {
                self.opencode = Some(provider);
            },
            BackendTag::Codex => {
                self.codex = Some(provider);
            },
        }
    }

    /// The kinds that are configured, in the order in which they are shown.
    pub fn configured_tags(&self) -> (r: Vec<BackendTag>)
        ensures
            r@ == self.configured(all_tags()),
    {
        let mut r: Vec<BackendTag> = Vec::new();
        if self.openrouter.is_some() {
            r.push(BackendTag::OpenRouter);
        }
        if self.openai.is_some() {
            r.push(BackendTag::OpenAi);
        }
        if self.opencode.is_some() {
            r.push(BackendTag::OpencodeGo);
        }
        if self.codex.is_some() {
            r.push(BackendTag::Codex);
        }
        proof {
            let t = all_tags();
            reveal_with_fuel(Backends::configured, 5);
            assert(t.drop_last().drop_last().drop_last().drop_last() =~= Seq::empty());
            assert(t.drop_last().drop_last().drop_last().last() == BackendTag::OpenRouter);
            assert(t.drop_last().drop_last().last() == BackendTag::OpenAi);
            assert(t.drop_last().last() == BackendTag::OpencodeGo);
            assert(t.last() == BackendTag::Codex);
            assert(r@ =~= self.configured(t));
        }
        r
    }

    /// The backend that a composite model id belongs to and the raw id to
    /// send; nothing where that backend is not configured.
    pub fn resolve(&self, composite_id: &str) -> (r: Option<(Backend, String)>)
        ensures
            match r {
                Some(p) => self.route(composite_id@) == Some((p.0, p.1@)),
                None => self.route(composite_id@) is None,
            },
    {
        if let Some(raw) = after_prefix(composite_id, "openai:") {
            return routed(self.get(BackendTag::OpenAi), raw);
        }
        if let Some(raw) = after_prefix(composite_id, "opencode:") {
            return routed(self.get(BackendTag::OpencodeGo), raw);
        }
        if let Some(raw) = after_prefix(composite_id, "codex:") {
            return routed(self.get(BackendTag::Codex), raw);
        }
        if self.openrouter.is_some() {
            routed(self.get(BackendTag::OpenRouter), composite_id)
        } else if self.openai.is_some() {
            routed(self.get(BackendTag::OpenAi), composite_id)
        } else if self.opencode.is_some() {
            routed(self.get(BackendTag::OpencodeGo), composite_id)
        } else {
            routed(self.get(BackendTag::Codex), composite_id)
        }
    }
}

/// A backend and an id, where there is a backend.
pub open spec fn with_id(b: Option<Backend>, id: Seq<char>) -> Option<(Backend, Seq<char>)> {
    match b {
        Some(b) => Some((b, id)),
        None => None,
    }
}

fn routed(b: Option<&Backend>, id: &str) -> (r: Option<(Backend, String)>)
    ensures
        match r {
            Some(p) => b == Some(&p.0) && p.1@ == id@,
            None => b is None,
        },
{
    match b {
        Some(b) => Some((b.clone(), id.to_owned())),
        None => None,
    }
}

/// The id under which a model is stored and compared.
pub open spec fn composite(m: Model) -> Seq<char> {
    m.backend.prefix() + m.id@
}

/// The id under which a model is stored and compared: the bare id for
/// OpenRouter, and one with a prefix for the other backends, whose raw ids may
/// collide.
pub fn composite_id(m: &Model) -> (r: String)
    ensures
        r@ == composite(*m),
{
    let mut r = m.backend.key_prefix().to_owned();
    r.append(m.id.as_str());
    r
}

/// A stored id finds its way back: the composite id of a model of a backend
/// that is configured goes to that backend under the model's raw id. The ids
/// of OpenRouter carry no prefix, so this leaves out those that happen to
/// begin with the prefix of another backend.
pub proof fn composite_id_routes_back(b: Backends, m: Model)
    requires
        b.of(m.backend) is Some,
        m.backend == BackendTag::OpenRouter ==> !"openai:"@.is_prefix_of(m.id@)
            && !"opencode:"@.is_prefix_of(m.id@) && !"codex:"@.is_prefix_of(m.id@),
    ensures
        b.route(composite(m)) == Some((b.of(m.backend)->0, m.id@)),
{
    let id = composite(m);
    reveal_strlit("");
    reveal_strlit("openai:");
    reveal_strlit("opencode:");
    reveal_strlit("codex:");
    let p = m.backend.prefix();
    assert(id.take(p.len() as int) =~= p);
    assert(id.skip(p.len() as int) =~= m.id@);
    if m.backend == BackendTag::OpenRouter {
        assert(id =~= m.id@);
    } else {
        assert(p.is_prefix_of(id));
        assert(id[0] == p[0] && id[1] == p[1] && id[4] == p[4]);
        if "openai:"@.is_prefix_of(id) {
            assert(id[4] == "openai:"@[4]);
            assert(id[0] == "openai:"@[0]);
            assert(id[1] == "openai:"@[1]);
        }
        if "opencode:"@.is_prefix_of(id) {
            assert(id[4] == "opencode:"@[4]);
            assert(id[0] == "opencode:"@[0]);
        }
    }
}

} // verus!
