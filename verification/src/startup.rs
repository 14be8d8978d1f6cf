//! What the store holds about models and settings, taken over at the start.

use crate::app::App;
use crate::state::{Catalog, Config, Screen, Settings};
use crate::keyed::is_latest;
use crate::store::{FloatBits, ModelPref, ModelPrefView};
use crate::text::{number_in, opt_text, parse_number, same, trim, trimmed, views};
use crate::ui::{is_search_provider, is_verbosity, search_providers, verbosity_levels};
use vstd::prelude::*;
use vstd::string::*;

verus! {

/// The favorites with those of the stored rows.
pub open spec fn with_favorites(base: Set<Seq<char>>, prefs: Seq<ModelPrefView>) -> Set<Seq<char>>
    decreases prefs.len(),
{
    if prefs.len() == 0 {
        base
    } else {
        let before = with_favorites(base, prefs.drop_last());
        if prefs.last().favorite { before.insert(prefs.last().id) } else { before }
    }
}

/// The times of last use with those of the stored rows.
pub open spec fn with_last_used(
    base: Map<Seq<char>, Seq<char>>,
    prefs: Seq<ModelPrefView>,
) -> Map<Seq<char>, Seq<char>>
    decreases prefs.len(),
{
    if prefs.len() == 0 {
        base
    } else {
        let before = with_last_used(base, prefs.drop_last());
        match prefs.last().last_used {
            Some(t) => before.insert(prefs.last().id, t),
            None => before,
        }
    }
}

/// The reasoning efforts with those of the stored rows.
pub open spec fn with_reasoning(
    base: Map<Seq<char>, Seq<char>>,
    prefs: Seq<ModelPrefView>,
) -> Map<Seq<char>, Seq<char>>
    decreases prefs.len(),
{
    if prefs.len() == 0 {
        base
    } else {
        let before = with_reasoning(base, prefs.drop_last());
        match prefs.last().reasoning {
            Some(r) => before.insert(prefs.last().id, r),
            None => before,
        }
    }
}

/// A stored setting, with the number that its value reads as where a
/// floating-point number is wanted.
pub struct Setting {
    pub key: String,
    pub value: String,
    pub number: Option<FloatBits>,
}

/// The settings, and the texts that are taken over with them.
#[verifier::ext_equal]
pub struct Configured {
    pub settings: Settings,
    pub memory_model: Seq<char>,
    pub transcriber_model: Seq<char>,
    pub searxng_url: Seq<char>,
    pub verbosity: Seq<char>,
    pub langsearch_key: Seq<char>,
    pub search_provider: Seq<char>,
}

/// What a `Setting` stands for.
#[verifier::ext_equal]
pub struct SettingView {
    pub key: Seq<char>,
    pub value: Seq<char>,
    pub number: Option<FloatBits>,
}

impl View for Setting {
    type V = SettingView;

    open spec fn view(&self) -> SettingView {
        SettingView { key: self.key@, value: self.value@, number: self.number }
    }
}

/// One stored setting is taken over. One that is not known, and a value that
/// its setting does not take, changes nothing.
pub open spec fn configure(c: Configured, s: SettingView) -> Configured {
    let on = s.value == "1"@;
    if s.key == "show_stats"@ {
        Configured { settings: Settings { show_stats: on, ..c.settings }, ..c }
    } else if s.key == "show_reasoning"@ {
        Configured { settings: Settings { show_reasoning: on, ..c.settings }, ..c }
    } else if s.key == "hide_hints"@ {
        Configured { settings: Settings { hide_hints: on, ..c.settings }, ..c }
    } else if s.key == "temperature"@ {
        Configured { settings: Settings { temperature: s.number, ..c.settings }, ..c }
    } else if s.key == "top_p"@ {
        Configured { settings: Settings { top_p: s.number, ..c.settings }, ..c }
    } else if s.key == "max_tokens"@ {
        let max_tokens = match parse_number(s.value, u32::MAX as nat) {
            Some(n) => Some(n as u32),
            None => None,
        };
        Configured { settings: Settings { max_tokens, ..c.settings }, ..c }
    } else if s.key == "memory_model"@ {
        Configured { memory_model: s.value, ..c }
    } else if s.key == "transcriber_model"@ {
        Configured { transcriber_model: s.value, ..c }
    } else if s.key == "compact_threshold"@ {
        match parse_number(s.value, u8::MAX as nat) {
            Some(n) => Configured {
                settings: Settings { compact_threshold: n as u8, ..c.settings },
                ..c
            },
            None => c,
        }
    } else if s.key == "searxng_url"@ {
        Configured { searxng_url: s.value, ..c }
    } else if s.key == "verbosity"@ {
        if verbosity_levels().contains(s.value) {
            Configured { verbosity: s.value, ..c }
        } else {
            c
        }
    } else if s.key == "langsearch_key"@ {
        Configured { langsearch_key: s.value, ..c }
    } else if s.key == "search_provider"@ {
        if search_providers().contains(s.value) {
            Configured { search_provider: s.value, ..c }
        } else {
            c
        }
    } else {
        c
    }
}

/// Stored settings are taken over in their order.
pub open spec fn configure_all(c: Configured, kv: Seq<SettingView>) -> Configured
    decreases kv.len(),
{
    if kv.len() == 0 {
        c
    } else {
        configure(configure_all(c, kv.drop_last()), kv.last())
    }
}

/// What the tools are set up with.
pub struct ToolboxConfig {
    pub searxng_url: Option<String>,
    pub langsearch_key: Option<String>,
    pub search_provider: String,
    /// The space whose files the tools see.
    pub space_id: String,
    /// The space whose apps the tools build, while the server of apps runs.
    pub apps_space: Option<String>,
}

/// A text without surrounding whitespace, or nothing where it is blank.
pub open spec fn present(s: Seq<char>) -> Option<Seq<char>> {
    if trim(s).len() == 0 { None } else { Some(trim(s)) }
}

/// A text without surrounding whitespace, or nothing where it is blank.
pub fn present_of(s: &str) -> (r: Option<String>)
    ensures
        opt_text(r) == present(s@),
{
    let t = trimmed(s);
    if t.is_empty() {
        None
    } else {
        Some(t.to_owned())
    }
}

impl Catalog {
    /// Takes over what is stored about models.
    fn take_prefs(&mut self, prefs: &Vec<ModelPref>)
        requires
            old(self).wf(),
        ensures
            final(self).wf(),
            *final(self) == (Catalog {
                favorites: final(self).favorites,
                last_used: final(self).last_used,
                reasoning: final(self).reasoning,
                ..*old(self)
            }),
            final(self).favorites@ == with_favorites(old(self).favorites@, views(prefs@)),
            final(self).last_used@ == with_last_used(old(self).last_used@, views(prefs@)),
            final(self).reasoning@ == with_reasoning(old(self).reasoning@, views(prefs@)),
    {
        let mut i: usize = 0;
        assert(views(prefs@).take(0) =~= Seq::<ModelPrefView>::empty());
        while i < prefs.len()
            invariant
                i <= prefs@.len(),
                self.wf(),
                *self == (Catalog {
                    favorites: self.favorites,
                    last_used: self.last_used,
                    reasoning: self.reasoning,
                    ..*old(self)
                }),
                self.favorites@ == with_favorites(
                    old(self).favorites@,
                    views(prefs@).take(i as int),
                ),
                self.last_used@ == with_last_used(
                    old(self).last_used@,
                    views(prefs@).take(i as int),
                ),
                self.reasoning@ == with_reasoning(
                    old(self).reasoning@,
                    views(prefs@).take(i as int),
                ),
            decreases prefs@.len() - i,
        {
            proof {
                let t = views(prefs@).take(i + 1);
                assert(t.drop_last() =~= views(prefs@).take(i as int));
                assert(t.last() == prefs@[i as int]@);
            }
            let p = &prefs[i];
            if p.favorite {
                self.favorites.insert(p.id.clone());
            }
            if let Some(t) = &p.last_used {
                self.last_used.insert(p.id.clone(), t.clone());
            }
            if let Some(r) = &p.reasoning {
                self.reasoning.insert(p.id.clone(), r.clone());
            }
            i += 1;
        }
        assert(views(prefs@).take(i as int) =~= views(prefs@));
    }

    /// Makes the model that was used last the active one, where there is one.
    fn take_latest(&mut self) -> (r: bool)
        requires
            old(self).wf(),
        ensures
            *final(self) == (Catalog { current: final(self).current, ..*old(self) }),
            r == (old(self).last_used@ != Map::<Seq<char>, Seq<char>>::empty()),
            r ==> final(self).current is Some && is_latest(
                old(self).last_used@,
                (final(self).current->0)@,
            ),
            !r ==> final(self).current == old(self).current,
    {
        match self.last_used.latest() {
            Some(id) => {
                assert(self.last_used@.contains_key(id@));
                self.current = Some(id);
                true
            },
            None => false,
        }
    }
}

/// The status once a model is active.
fn chosen_status(id: &Option<String>) -> (r: String)
    requires
        id is Some,
    ensures
        r@ == "model: "@ + (id->0)@ + " — type a message, /model to change"@,
{
    let mut s = "model: ".to_owned();
    if let Some(id) = id {
        s.append(id.as_str());
    }
    s.append(" — type a message, /model to change");
    s
}

impl Config {
    /// The settings, and the texts that are taken over with them.
    pub open spec fn configured(&self) -> Configured {
        Configured {
            settings: self.settings,
            memory_model: self.memory_model@,
            transcriber_model: self.transcriber_model@,
            searxng_url: self.searxng_url@,
            verbosity: self.verbosity@,
            langsearch_key: self.langsearch_key@,
            search_provider: self.search_provider@,
        }
    }

    /// Whether two configurations differ in nothing but what is taken over.
    pub open spec fn beside_configured(&self, other: Config) -> bool {
        *self == (Config {
            settings: self.settings,
            memory_model: self.memory_model,
            transcriber_model: self.transcriber_model,
            searxng_url: self.searxng_url,
            verbosity: self.verbosity,
            langsearch_key: self.langsearch_key,
            search_provider: self.search_provider,
            ..other
        })
    }

    /// Takes over one stored setting.
    fn load_setting(&mut self, s: &Setting)
        ensures
            final(self).beside_configured(*old(self)),
            final(self).configured() == configure(old(self).configured(), s@),
    {
        let k = s.key.as_str();
        let v = s.value.as_str();
        if same(k, "show_stats") {
            self.settings.show_stats = same(v, "1");
        } else if same(k, "show_reasoning") {
            self.settings.show_reasoning = same(v, "1");
        } else if same(k, "hide_hints") {
            self.settings.hide_hints = same(v, "1");
        } else if same(k, "temperature") {
            self.settings.temperature = s.number;
        } else if same(k, "top_p") {
            self.settings.top_p = s.number;
        } else if same(k, "max_tokens") {
            self.settings.max_tokens = match number_in(v, u32::MAX as u64) {
                Some(n) => Some(n as u32),
                None => None,
            };
        } else if same(k, "memory_model") {
            self.memory_model = s.value.clone();
        } else if same(k, "transcriber_model") {
            self.transcriber_model = s.value.clone();
        } else if same(k, "compact_threshold") {
            if let Some(n) = number_in(v, u8::MAX as u64) {
                self.settings.compact_threshold = n as u8;
            }
        } else if same(k, "searxng_url") {
            self.searxng_url = s.value.clone();
        } else if same(k, "verbosity") {
            if is_verbosity(v) {
                self.verbosity = s.value.clone();
            }
        } else if same(k, "langsearch_key") {
            self.langsearch_key = s.value.clone();
        } else if same(k, "search_provider") {
            if is_search_provider(v) {
                self.search_provider = s.value.clone();
            }
        }
    }

    /// Takes over stored settings.
    pub fn take_settings(&mut self, kv: &Vec<Setting>)
        ensures
            final(self).beside_configured(*old(self)),
            final(self).configured() == configure_all(old(self).configured(), views(kv@)),
    {
        let mut i: usize = 0;
        assert(views(kv@).take(0) =~= Seq::<SettingView>::empty());
        while i < kv.len()
            invariant
                i <= kv@.len(),
                self.beside_configured(*old(self)),
                self.configured() == configure_all(
                    old(self).configured(),
                    views(kv@).take(i as int),
                ),
            decreases kv@.len() - i,
        {
            proof {
                let t = views(kv@).take(i + 1);
                assert(t.drop_last() =~= views(kv@).take(i as int));
                assert(t.last() == kv@[i as int]@);
            }
            self.load_setting(&kv[i]);
            i += 1;
        }
        assert(views(kv@).take(i as int) =~= views(kv@));
    }
}

impl App {
    /// Takes over what is stored about models. The model that was used last
    /// becomes the active one.
    pub fn load_prefs(&mut self, prefs: &Vec<ModelPref>)
        requires
            old(self).wf(),
        ensures
            final(self).wf(),
            *final(self) == (App {
                catalog: Catalog {
                    favorites: final(self).catalog.favorites,
                    last_used: final(self).catalog.last_used,
                    reasoning: final(self).catalog.reasoning,
                    current: final(self).catalog.current,
                    ..old(self).catalog
                },
                screen: Screen { status: final(self).screen.status, ..old(self).screen },
                ..*old(self)
            }),
            final(self).catalog.favorites@ == with_favorites(
                old(self).catalog.favorites@,
                views(prefs@),
            ),
            final(self).catalog.last_used@ == with_last_used(
                old(self).catalog.last_used@,
                views(prefs@),
            ),
            final(self).catalog.reasoning@ == with_reasoning(
                old(self).catalog.reasoning@,
                views(prefs@),
            ),
            if final(self).catalog.last_used@ == Map::<Seq<char>, Seq<char>>::empty() {
                final(self).catalog.current == old(self).catalog.current
                    && final(self).screen.status == old(self).screen.status
            } else {
                &&& final(self).catalog.current is Some
                &&& is_latest(
                    final(self).catalog.last_used@,
                    (final(self).catalog.current->0)@,
                )
                &&& if old(self).backends.first() is Some {
                    final(self).screen.status@ == "model: "@ + (final(self).catalog.current->0)@
                        + " — type a message, /model to change"@
                } else {
                    final(self).screen.status == old(self).screen.status
                }
            },
    {
        self.catalog.take_prefs(prefs);
        if self.catalog.take_latest() && self.backends.any() {
            self.screen.status = chosen_status(&self.catalog.current);
        }
    }

    /// Takes over stored settings.
    pub fn load_settings(&mut self, kv: &Vec<Setting>)
        ensures
            *final(self) == (App { config: final(self).config, ..*old(self) }),
            final(self).config.beside_configured(old(self).config),
            final(self).config.configured() == configure_all(
                old(self).config.configured(),
                views(kv@),
            ),
    {
        self.config.take_settings(kv);
    }

    /// What the tools are to be set up with.
    pub fn toolbox_config(&self) -> (r: ToolboxConfig)
        ensures
            opt_text(r.searxng_url) == present(self.config.searxng_url@),
            opt_text(r.langsearch_key) == present(self.config.langsearch_key@),
            r.search_provider == self.config.search_provider,
            r.space_id == self.active_space.id,
            r.apps_space == (if self.app_server {
                Some(self.active_space.name)
            } else {
                None
            }),
    {
        ToolboxConfig {
            searxng_url: present_of(self.config.searxng_url.as_str()),
            langsearch_key: present_of(self.config.langsearch_key.as_str()),
            search_provider: self.config.search_provider.clone(),
            space_id: self.active_space.id.clone(),
            apps_space: if self.app_server {
                Some(self.active_space.name.clone())
            } else {
                None
            },
        }
    }
}

} // verus!
