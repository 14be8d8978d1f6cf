//! What the screens can be in: popups, modes, panels, and the rows of the
//! settings.

use crate::text::same;
use vstd::prelude::*;

verus! {

/// Which popup is open, if any.
#[derive(Clone, Copy, Debug, PartialEq, Eq, Structural)]
pub enum Popup {
    Closed,
    Model,
    Session,
    Key,
    Settings,
    Copy,
    Space,
    Context,
    Skills,
    Files,
    Apps,
    Login,
    Swarm,
    ResearchLive,
}

/// What the apps popup does.
#[derive(Clone, Copy, Debug, PartialEq, Eq, Structural)]
pub enum AppsMode {
    Browse,
    ConfirmDelete,
}

/// What the skills popup does.
#[derive(Clone, Copy, Debug, PartialEq, Eq, Structural)]
pub enum SkillsMode {
    Browse,
    Install,
    ConfirmRemove,
}

/// What the files popup does.
#[derive(Clone, Copy, Debug, PartialEq, Eq, Structural)]
pub enum FilesMode {
    Browse,
    Add,
    Rename,
    ConfirmDelete,
    Pick,
}

/// What the images popup does.
#[derive(Clone, Copy, Debug, PartialEq, Eq, Structural)]
pub enum ImagesMode {
    Browse,
    ConfirmDelete,
}

/// What the space picker does.
#[derive(Clone, Copy, Debug, PartialEq, Eq, Structural)]
pub enum SpaceMode {
    Browse,
    Create,
    Rename,
    ConfirmDelete,
}

/// What the session picker does.
#[derive(Clone, Copy, Debug, PartialEq, Eq, Structural)]
pub enum SessionMode {
    Browse,
    Rename,
    ConfirmDelete,
}

/// What the swarm popup does.
#[derive(Clone, Copy, Debug, PartialEq, Eq, Structural)]
pub enum SwarmPopupMode {
    Browse,
    ConfirmRemove,
}

/// Which pane a mouse press drives, if any.
#[derive(Clone, Copy, Debug, PartialEq, Eq, Structural)]
pub enum MouseTarget {
    Outside,
    Input,
    History,
}

/// The two columns of the model picker.
#[derive(Clone, Copy, Debug, PartialEq, Eq, Structural)]
pub enum ModelPanel {
    Favorites,
    Available,
}

/// Which backend a pasted key is for.
#[derive(Clone, Copy, Debug, PartialEq, Eq, Structural)]
pub enum KeyTarget {
    OpenRouter,
    OpenAi,
    OpencodeGo,
}

/// What a confirmed pick in the model picker is for.
#[derive(Clone, Copy, Debug, PartialEq, Eq, Structural)]
pub enum ModelPickTarget {
    Session,
    Memory,
    Transcriber,
    Ocr,
    Research,
    Escalation,
    ImageGen,
    VideoGen,
    /// A row of the swarm's roster.
    SwarmPersona(usize),
}

impl Default for ModelPickTarget {
    fn default() -> (r: ModelPickTarget)
        ensures
            r == ModelPickTarget::Session,
    {
        ModelPickTarget::Session
    }
}

/// The rows of the settings popup.
#[derive(Clone, Copy, Debug, PartialEq, Eq, Structural)]
pub enum SettingsField {
    ShowStats,
    ShowReasoning,
    HideHints,
    Temperature,
    TopP,
    MaxTokens,
    MemoryModel,
    CompactThreshold,
    SearxngUrl,
    Verbosity,
    LangsearchKey,
    SearchProvider,
    TranscriberModel,
}

/// The rows of the settings popup in the order in which they are shown.
pub open spec fn all_fields() -> Seq<SettingsField> {
    seq![
        SettingsField::ShowStats,
        SettingsField::ShowReasoning,
        SettingsField::HideHints,
        SettingsField::Temperature,
        SettingsField::TopP,
        SettingsField::MaxTokens,
        SettingsField::MemoryModel,
        SettingsField::CompactThreshold,
        SettingsField::SearxngUrl,
        SettingsField::Verbosity,
        SettingsField::LangsearchKey,
        SettingsField::SearchProvider,
        SettingsField::TranscriberModel,
    ]
}

/// The label of a row of the settings popup.
pub open spec fn field_label(f: SettingsField) -> Seq<char> {
    match f {
        SettingsField::ShowStats => "show stats (model · TPS footer)"@,
        SettingsField::ShowReasoning => "expand reasoning (Ctrl+R)"@,
        SettingsField::HideHints => "hide hints (keybind labels)"@,
        SettingsField::Temperature => "temperature"@,
        SettingsField::TopP => "top_p"@,
        SettingsField::MaxTokens => "max_tokens"@,
        SettingsField::MemoryModel => "memory model (Enter to pick, Backspace clears)"@,
        SettingsField::CompactThreshold => "auto-compact at (% of context, 0 disables)"@,
        SettingsField::SearxngUrl => "web search URL (SearXNG instance, blank disables)"@,
        SettingsField::Verbosity => "answer length (Space cycles normal/concise/caveman)"@,
        SettingsField::LangsearchKey => "LangSearch API key (langsearch.com/dashboard, free)"@,
        SettingsField::SearchProvider => "search provider (Space cycles auto/langsearch/searxng/duckduckgo)"@,
        SettingsField::TranscriberModel => "image model (Enter to pick, Backspace clears)"@,
    }
}

/// How many rows the settings popup has.
pub const SETTINGS_FIELDS: usize = 13;

impl SettingsField {
    /// The row at a position.
    pub fn at(i: usize) -> (r: SettingsField)
        requires
            i < SETTINGS_FIELDS,
        ensures
            r == all_fields()[i as int],
    {
        match i {
            0 => SettingsField::ShowStats,
            1 => SettingsField::ShowReasoning,
            2 => SettingsField::HideHints,
            3 => SettingsField::Temperature,
            4 => SettingsField::TopP,
            5 => SettingsField::MaxTokens,
            6 => SettingsField::MemoryModel,
            7 => SettingsField::CompactThreshold,
            8 => SettingsField::SearxngUrl,
            9 => SettingsField::Verbosity,
            10 => SettingsField::LangsearchKey,
            11 => SettingsField::SearchProvider,
            _ => SettingsField::TranscriberModel,
        }
    }

    /// The label of the row.
    pub fn label(self) -> (r: &'static str)
        ensures
            r@ == field_label(self),
    {
        match self {
            SettingsField::ShowStats => "show stats (model · TPS footer)",
            SettingsField::ShowReasoning => "expand reasoning (Ctrl+R)",
            SettingsField::HideHints => "hide hints (keybind labels)",
            SettingsField::Temperature => "temperature",
            SettingsField::TopP => "top_p",
            SettingsField::MaxTokens => "max_tokens",
            SettingsField::MemoryModel => "memory model (Enter to pick, Backspace clears)",
            SettingsField::CompactThreshold => "auto-compact at (% of context, 0 disables)",
            SettingsField::SearxngUrl => "web search URL (SearXNG instance, blank disables)",
            SettingsField::Verbosity => "answer length (Space cycles normal/concise/caveman)",
            SettingsField::LangsearchKey => "LangSearch API key (langsearch.com/dashboard, free)",
            SettingsField::SearchProvider => "search provider (Space cycles auto/langsearch/searxng/duckduckgo)",
            SettingsField::TranscriberModel => "image model (Enter to pick, Backspace clears)",
        }
    }
}

/// A row of grouped settings: the header of a group, or a field.
#[derive(Clone, Copy, Debug, PartialEq, Eq, Structural)]
pub enum SettingsRow {
    Group(usize),
    Field(SettingsField),
}

/// The answer lengths, in the order in which they are cycled.
pub open spec fn verbosity_levels() -> Seq<Seq<char>> {
    seq!["normal"@, "concise"@, "caveman"@]
}

/// The search providers, in the order in which they are cycled.
pub open spec fn search_providers() -> Seq<Seq<char>> {
    seq!["auto"@, "langsearch"@, "searxng"@, "duckduckgo"@]
}

/// The OCR engines, in the order in which they are cycled.
pub open spec fn ocr_engines() -> Seq<Seq<char>> {
    seq!["auto"@, "tesseract"@, "vlm"@, "local"@]
}

/// Whether an answer length is known.
pub fn is_verbosity(level: &str) -> (r: bool)
    ensures
        r == verbosity_levels().contains(level@),
{
    let r = same(level, "normal") || same(level, "concise") || same(level, "caveman");
    proof {
        let v = verbosity_levels();
        assert(v[0] == "normal"@ && v[1] == "concise"@ && v[2] == "caveman"@);
        if v.contains(level@) {
            let i = choose|i: int| 0 <= i < v.len() && v[i] == level@;
            assert(i == 0 || i == 1 || i == 2);
        }
    }
    r
}

/// Whether a search provider is known.
pub fn is_search_provider(name: &str) -> (r: bool)
    ensures
        r == search_providers().contains(name@),
{
    let r = same(name, "auto") || same(name, "langsearch") || same(name, "searxng") || same(
        name,
        "duckduckgo",
    );
    proof {
        let v = search_providers();
        assert(v[0] == "auto"@ && v[1] == "langsearch"@ && v[2] == "searxng"@ && v[3]
            == "duckduckgo"@);
        if v.contains(name@) {
            let i = choose|i: int| 0 <= i < v.len() && v[i] == name@;
            assert(i == 0 || i == 1 || i == 2 || i == 3);
        }
    }
    r
}

/// The answer length after a level; one that is not known counts as concise.
pub open spec fn next_verbosity(level: Seq<char>) -> Seq<char> {
    if level == "normal"@ {
        "concise"@
    } else if level == "caveman"@ {
        "normal"@
    } else {
        "caveman"@
    }
}

/// The search provider after one; one that is not known counts as automatic.
pub open spec fn next_search_provider(name: Seq<char>) -> Seq<char> {
    if name == "langsearch"@ {
        "searxng"@
    } else if name == "searxng"@ {
        "duckduckgo"@
    } else if name == "duckduckgo"@ {
        "auto"@
    } else {
        "langsearch"@
    }
}

/// The OCR engine after one; one that is not known counts as automatic.
pub open spec fn next_ocr_engine(name: Seq<char>) -> Seq<char> {
    if name == "tesseract"@ {
        "vlm"@
    } else if name == "vlm"@ {
        "local"@
    } else if name == "local"@ {
        "auto"@
    } else {
        "tesseract"@
    }
}

/// The answer length after a level.
pub fn verbosity_after(level: &str) -> (r: &'static str)
    ensures
        r@ == next_verbosity(level@),
{
    if same(level, "normal") {
        "concise"
    } else if same(level, "caveman") {
        "normal"
    } else {
        "caveman"
    }
}

/// The search provider after one.
pub fn search_provider_after(name: &str) -> (r: &'static str)
    ensures
        r@ == next_search_provider(name@),
{
    if same(name, "langsearch") {
        "searxng"
    } else if same(name, "searxng") {
        "duckduckgo"
    } else if same(name, "duckduckgo") {
        "auto"
    } else {
        "langsearch"
    }
}

/// The OCR engine after one.
pub fn ocr_engine_after(name: &str) -> (r: &'static str)
    ensures
        r@ == next_ocr_engine(name@),
{
    if same(name, "tesseract") {
        "vlm"
    } else if same(name, "vlm") {
        "local"
    } else if same(name, "local") {
        "auto"
    } else {
        "tesseract"
    }
}

/// Cycling goes through the known values in their order and comes back to the
/// first behind the last.
pub proof fn cycles_go_round(i: int)
    ensures
        0 <= i < 3 ==> next_verbosity(verbosity_levels()[i]) == verbosity_levels()[(i + 1) % 3],
        0 <= i < 4 ==> next_search_provider(search_providers()[i]) == search_providers()[(i + 1)
            % 4],
        0 <= i < 4 ==> next_ocr_engine(ocr_engines()[i]) == ocr_engines()[(i + 1) % 4],
{
    reveal_strlit("normal");
    reveal_strlit("concise");
    reveal_strlit("caveman");
    reveal_strlit("auto");
    reveal_strlit("langsearch");
    reveal_strlit("searxng");
    reveal_strlit("duckduckgo");
    reveal_strlit("tesseract");
    reveal_strlit("vlm");
    reveal_strlit("local");
    assert("normal"@.len() == 6);
    assert("concise"@[1] == 'o' && "caveman"@[1] == 'a');
    assert("auto"@.len() == 4 && "langsearch"@.len() == 10 && "searxng"@.len() == 7
        && "duckduckgo"@.len() == 10);
    assert("langsearch"@[0] == 'l' && "duckduckgo"@[0] == 'd');
    assert("tesseract"@.len() == 9 && "vlm"@.len() == 3 && "local"@.len() == 5);
}

} // verus!
