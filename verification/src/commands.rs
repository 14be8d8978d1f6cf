//! The commands that are typed behind a slash, and what fetched catalogs
//! change.

use crate::app::App;
use crate::backends::{Backend, BackendTag, Backends, Model};
use crate::effects::{no_effects, Effect, EffectView};
use crate::picks::picker_opened;
use crate::pipeline::concat;
use crate::state::{says, Catalog, Jobs, LoginPopup, PendingEditor, SavedKeys, Screen, SkillsPopup};
use crate::store::Skill;
use crate::text::{
    chars_of, decimal, decimal_of, find_char, find_char_found, first_word, first_word_of,
    found_char, is_space, join, joined, rest_of, same, texts, texts_push, trim, trimmed,
    up_to_space, views,
};
use crate::ui::{ModelPickTarget, Popup};
use vstd::prelude::*;
use vstd::string::*;

verus! {

/// A command: its name, and other names for it.
pub struct CommandName {
    pub name: String,
    pub aliases: Vec<String>,
}

/// Whether a word calls a command.
pub open spec fn calls(c: CommandName, word: Seq<char>) -> bool {
    c.name@ == word || texts(c.aliases@).contains(word)
}

fn is_call(c: &CommandName, word: &str) -> (r: bool)
    ensures
        r == calls(*c, word@),
{
    if same(c.name.as_str(), word) {
        return true;
    }
    let mut i: usize = 0;
    while i < c.aliases.len()
        invariant
            i <= c.aliases@.len(),
            forall|j: int| 0 <= j < i ==> (#[trigger] c.aliases@[j])@ != word@,
        decreases c.aliases@.len() - i,
    {
        if same(c.aliases[i].as_str(), word) {
            assert(texts(c.aliases@)[i as int] == word@);
            return true;
        }
        i += 1;
    }
    assert(!texts(c.aliases@).contains(word@)) by {
        if texts(c.aliases@).contains(word@) {
            let k = choose|k: int| 0 <= k < texts(c.aliases@).len() && texts(c.aliases@)[k] == word@;
            assert(c.aliases@[k]@ == word@);
        }
    }
    false
}

/// The name of the command that a word calls; the word itself where it calls
/// none.
pub open spec fn canonical(commands: Seq<CommandName>, word: Seq<char>, i: int) -> Seq<char>
    decreases commands.len() - i,
{
    if i < 0 || i >= commands.len() {
        word
    } else if calls(commands[i], word) {
        commands[i].name@
    } else {
        canonical(commands, word, i + 1)
    }
}

fn canonical_of(commands: &Vec<CommandName>, word: &str) -> (r: String)
    ensures
        r@ == canonical(commands@, word@, 0),
{
    let mut i: usize = 0;
    while i < commands.len()
        invariant
            i <= commands@.len(),
            canonical(commands@, word@, 0) == canonical(commands@, word@, i as int),
        decreases commands@.len() - i,
    {
        if is_call(&commands[i], word) {
            return commands[i].name.clone();
        }
        i += 1;
    }
    word.to_owned()
}

/// What a command leads to.
pub enum CommandStep {
    /// Nothing more: the state shows what it did.
    Done,
    NewSession,
    Compact,
    SessionPicker,
    SpacePicker,
    ModelPicker,
    KeyPrompt,
    Config,
    ReasoningView,
    CopyMenu,
    SkillsPopup,
    FilesPopup,
    AppsPopup,
    /// Edit a file of an app.
    Edit(String),
    /// Send a message, with the skill that was just armed.
    Send(String),
}

/// A command that opens or starts something, by its name.
pub open spec fn plain_step(name: Seq<char>) -> Option<CommandStep> {
    if name == "new"@ {
        Some(CommandStep::NewSession)
    } else if name == "compact"@ {
        Some(CommandStep::Compact)
    } else if name == "session"@ {
        Some(CommandStep::SessionPicker)
    } else if name == "space"@ {
        Some(CommandStep::SpacePicker)
    } else if name == "model"@ {
        Some(CommandStep::ModelPicker)
    } else if name == "key"@ {
        Some(CommandStep::KeyPrompt)
    } else if name == "config"@ {
        Some(CommandStep::Config)
    } else if name == "think"@ {
        Some(CommandStep::ReasoningView)
    } else if name == "copy"@ {
        Some(CommandStep::CopyMenu)
    } else if name == "skills"@ {
        Some(CommandStep::SkillsPopup)
    } else if name == "files"@ {
        Some(CommandStep::FilesPopup)
    } else if name == "apps"@ {
        Some(CommandStep::AppsPopup)
    } else {
        None
    }
}

fn plain_step_of(name: &str) -> (r: Option<CommandStep>)
    ensures
        r == plain_step(name@),
{
    if same(name, "new") {
        Some(CommandStep::NewSession)
    } else if same(name, "compact") {
        Some(CommandStep::Compact)
    } else if same(name, "session") {
        Some(CommandStep::SessionPicker)
    } else if same(name, "space") {
        Some(CommandStep::SpacePicker)
    } else if same(name, "model") {
        Some(CommandStep::ModelPicker)
    } else if same(name, "key") {
        Some(CommandStep::KeyPrompt)
    } else if same(name, "config") {
        Some(CommandStep::Config)
    } else if same(name, "think") {
        Some(CommandStep::ReasoningView)
    } else if same(name, "copy") {
        Some(CommandStep::CopyMenu)
    } else if same(name, "skills") {
        Some(CommandStep::SkillsPopup)
    } else if same(name, "files") {
        Some(CommandStep::FilesPopup)
    } else if same(name, "apps") {
        Some(CommandStep::AppsPopup)
    } else {
        None
    }
}

/// The names of commands, as the help shows them.
pub open spec fn help_words(commands: Seq<CommandName>) -> Seq<Seq<char>> {
    commands.map_values(|c: CommandName| "/"@ + c.name@)
}

fn help_of(commands: &Vec<CommandName>) -> (r: String)
    ensures
        r@ == join(help_words(commands@), "  "@),
{
    let ghost all = help_words(commands@);
    let mut out: Vec<String> = Vec::new();
    let mut i: usize = 0;
    assert(texts(out@) =~= all.take(0));
    while i < commands.len()
        invariant
            i <= commands@.len(),
            all == help_words(commands@),
            texts(out@) == all.take(i as int),
        decreases commands@.len() - i,
    {
        let word = concat("/", commands[i].name.as_str());
        proof {
            texts_push(out@, word);
            assert(all.take(i as int).push(word@) =~= all.take(i + 1));
        }
        out.push(word);
        i += 1;
    }
    assert(all.take(i as int) =~= all);
    joined(&out, "  ")
}

/// Whether a skill of the name is installed.
pub open spec fn installed(list: Seq<Skill>, name: Seq<char>) -> bool {
    exists|i: int| 0 <= i < list.len() && (#[trigger] list[i]).name@ == name
}

fn is_installed(list: &Vec<Skill>, name: &str) -> (r: bool)
    ensures
        r == installed(list@, name@),
{
    let mut i: usize = 0;
    while i < list.len()
        invariant
            i <= list@.len(),
            forall|j: int| 0 <= j < i ==> (#[trigger] list@[j]).name@ != name@,
        decreases list@.len() - i,
    {
        if same(list[i].name.as_str(), name) {
            return true;
        }
        i += 1;
    }
    false
}

/// How many bytes the character takes in UTF-8.
pub open spec fn width(c: char) -> int {
    if (c as u32) < 0x80 {
        1
    } else if (c as u32) < 0x800 {
        2
    } else if (c as u32) < 0x10000 {
        3
    } else {
        4
    }
}

/// How many bytes the text takes in UTF-8.
pub open spec fn bytes_in(s: Seq<char>) -> int
    decreases s.len(),
{
    if s.len() == 0 {
        0
    } else {
        width(s[0]) + bytes_in(s.skip(1))
    }
}

/// The text from its byte `n` on; none where no character begins there.
pub open spec fn from_byte(s: Seq<char>, n: int) -> Option<Seq<char>>
    decreases s.len(),
{
    if n == 0 {
        Some(s)
    } else if s.len() == 0 || n < width(s[0]) {
        None
    } else {
        from_byte(s.skip(1), n - width(s[0]))
    }
}

/// What a command leaves for the file or the message behind its name: as many
/// bytes as its first word has are taken off its start, and the whitespace
/// around the rest. Where the command begins with its name, that is what
/// follows the name; where whitespace stands before the name, the cut falls
/// that much earlier. There is none where it falls inside a character.
pub open spec fn command_rest(cmd: Seq<char>) -> Option<Seq<char>> {
    match from_byte(cmd, bytes_in(first_word(cmd))) {
        Some(rest) => Some(trim(rest)),
        None => None,
    }
}

proof fn bytes_split(a: Seq<char>, b: Seq<char>)
    ensures
        bytes_in(a) >= 0,
        from_byte(a + b, bytes_in(a)) == Some(b),
    decreases a.len(),
{
    if a.len() == 0 {
        assert(a + b =~= b);
    } else {
        bytes_split(a.skip(1), b);
        assert((a + b).skip(1) =~= a.skip(1) + b);
        assert((a + b)[0] == a[0]);
    }
}

proof fn word_begins(s: Seq<char>)
    ensures
        s == up_to_space(s) + s.skip(up_to_space(s).len() as int),
        up_to_space(s).len() <= s.len(),
    decreases s.len(),
{
    if s.len() > 0 && !is_space(s[0]) {
        word_begins(s.skip(1));
        assert(s.skip(1).skip(up_to_space(s.skip(1)).len() as int) =~= s.skip(
            up_to_space(s).len() as int,
        ));
        assert(s =~= seq![s[0]] + s.skip(1));
    } else {
        assert(s.skip(0) =~= s);
        assert(s =~= Seq::<char>::empty() + s);
    }
}

/// Behind a command that begins with its name, there is always a rest: what
/// follows the name, without the whitespace around it.
pub proof fn rest_follows_the_name(cmd: Seq<char>)
    requires
        cmd.len() > 0 ==> !is_space(cmd[0]),
    ensures
        command_rest(cmd) == Some(trim(cmd.skip(first_word(cmd).len() as int))),
{
    word_begins(cmd);
    bytes_split(first_word(cmd), cmd.skip(first_word(cmd).len() as int));
}

fn width_of(c: char) -> (r: u128)
    ensures
        r == width(c),
        1 <= r <= 4,
{
    if (c as u32) < 0x80 {
        1
    } else if (c as u32) < 0x800 {
        2
    } else if (c as u32) < 0x10000 {
        3
    } else {
        4
    }
}

fn count_bytes(s: &str) -> (r: u128)
    ensures
        r == bytes_in(s@),
{
    let cs = chars_of(s);
    let mut n: u128 = 0;
    let mut i: usize = 0;
    assert(s@.skip(0) =~= s@);
    while i < cs.len()
        invariant
            i <= cs@.len(),
            cs@ == s@,
            n <= 4 * i,
            n + bytes_in(s@.skip(i as int)) == bytes_in(s@),
        decreases cs@.len() - i,
    {
        assert(s@.skip(i as int).skip(1) =~= s@.skip(i + 1));
        n += width_of(cs[i]);
        i += 1;
    }
    n
}

fn rest_of_command<'a>(cmd: &'a str, word: &str) -> (r: &'a str)
    requires
        word@ == first_word(cmd@),
        command_rest(cmd@) is Some,
    ensures
        Some(r@) == command_rest(cmd@),
{
    let cs = chars_of(cmd);
    let n: usize = cs.len();
    let mut left: u128 = count_bytes(word);
    let mut i: usize = 0;
    assert(cmd@.skip(0) =~= cmd@);
    while left > 0
        invariant
            i <= n == cs@.len(),
            cs@ == cmd@,
            from_byte(cmd@.skip(i as int), left as int) is Some,
            from_byte(cmd@.skip(i as int), left as int) == from_byte(
                cmd@,
                bytes_in(first_word(cmd@)),
            ),
        decreases left,
    {
        assert(cmd@.skip(i as int).len() > 0);
        assert(cmd@.skip(i as int)[0] == cs@[i as int]);
        assert(cmd@.skip(i as int).skip(1) =~= cmd@.skip(i + 1));
        left -= width_of(cs[i]);
        i += 1;
    }
    trimmed(rest_of(cmd, i))
}

/// Whether the command with the name takes what follows: `edit`, and the
/// commands that name a skill.
pub open spec fn takes_rest(skills: Seq<Skill>, name: Seq<char>) -> bool {
    ||| name == "edit"@
    ||| name != "quit"@ && name != "help"@ && plain_step(name) is None && installed(skills, name)
}

/// Whether the command can be cut behind its name, where it takes what follows.
pub open spec fn can_cut(commands: Seq<CommandName>, skills: Seq<Skill>, cmd: Seq<char>) -> bool {
    takes_rest(skills, canonical(commands, first_word(cmd), 0)) ==> command_rest(cmd) is Some
}

/// What a command changes of the skills and the screen, and what it leads to.
pub open spec fn command_step(
    commands: Seq<CommandName>,
    before: (SkillsPopup, Screen),
    after: (SkillsPopup, Screen),
    cmd: Seq<char>,
    r: CommandStep,
) -> bool {
    let (skills, screen) = before;
    let name = canonical(commands, first_word(cmd), 0);
    let rest = command_rest(cmd);
    if name == "quit"@ {
        r is Done && after == (skills, Screen { should_quit: true, ..screen })
    } else if name == "help"@ {
        r is Done && after.0 == skills && says(
            screen,
            after.1,
            join(help_words(commands), "  "@),
        )
    } else if name == "edit"@ {
        r matches CommandStep::Edit(arg) && Some(arg@) == rest && after == before
    } else if plain_step(name) is Some {
        Some(r) == plain_step(name) && after == before
    } else if installed(skills.list@, name) {
        &&& after.0 == (SkillsPopup { forced: after.0.forced, ..skills })
        &&& after.0.forced matches Some(f) && f@ == name
        &&& if rest == Some(Seq::<char>::empty()) {
            r is Done && says(screen, after.1, "skill "@ + name + " armed for next message"@)
        } else {
            r matches CommandStep::Send(text) && Some(text@) == rest && after.1 == screen
        }
    } else {
        r is Done && after.0 == skills && says(screen, after.1, "unknown command: /"@ + name)
    }
}

fn take_command(
    commands: &Vec<CommandName>,
    skills: &mut SkillsPopup,
    screen: &mut Screen,
    cmd: &str,
) -> (r: CommandStep)
    requires
        can_cut(commands@, old(skills).list@, cmd@),
    ensures
        command_step(
            commands@,
            (*old(skills), *old(screen)),
            (*final(skills), *final(screen)),
            cmd@,
            r,
        ),
{
    let word = first_word_of(cmd);
    let name = canonical_of(commands, word);
    if same(name.as_str(), "quit") {
        screen.should_quit = true;
        return CommandStep::Done;
    }
    if same(name.as_str(), "help") {
        screen.status = help_of(commands);
        return CommandStep::Done;
    }
    if same(name.as_str(), "edit") {
        return CommandStep::Edit(rest_of_command(cmd, word).to_owned());
    }
    if let Some(step) = plain_step_of(name.as_str()) {
        return step;
    }
    if is_installed(&skills.list, name.as_str()) {
        skills.forced = Some(name.clone());
        let rest = rest_of_command(cmd, word);
        if rest.is_empty() {
            assert(rest@ =~= Seq::empty());
            let mut s = "skill ".to_owned();
            s.append(name.as_str());
            s.append(" armed for next message");
            screen.status = s;
            return CommandStep::Done;
        }
        return CommandStep::Send(rest.to_owned());
    }
    screen.status = concat("unknown command: /", name.as_str());
    CommandStep::Done
}

/// What was typed, without the whitespace around it: nothing, a command, or a
/// message.
pub enum Submitted {
    Nothing,
    Command(String),
    Text(String),
}

/// Whether a path names a file below the directory of apps: every part of it
/// is a name.
pub open spec fn parts_are_names(parts: Seq<Seq<char>>) -> bool {
    forall|i: int|
        0 <= i < parts.len() ==> (#[trigger] parts[i]).len() > 0 && parts[i] != "."@ && parts[i]
            != ".."@
}

/// The parts of a path between its slashes.
pub open spec fn path_parts(s: Seq<char>) -> Seq<Seq<char>>
    decreases s.len(),
{
    if s.len() == 0 {
        seq![Seq::empty()]
    } else {
        let before = path_parts(s.drop_last());
        if s.last() == '/' {
            before.push(Seq::empty())
        } else {
            before.drop_last().push(before.last().push(s.last()))
        }
    }
}

fn parts_of(s: &str) -> (r: Vec<String>)
    ensures
        texts(r@) == path_parts(s@),
{
    let cs = chars_of(s);
    let mut done: Vec<String> = Vec::new();
    let mut last = String::new();
    let mut i: usize = 0;
    assert(s@.take(0) =~= Seq::empty());
    assert(texts(done@).push(last@) =~= seq![Seq::empty()]);
    while i < cs.len()
        invariant
            i <= cs@.len(),
            cs@ == s@,
            texts(done@).push(last@) == path_parts(s@.take(i as int)),
        decreases cs@.len() - i,
    {
        proof {
            let t = s@.take(i + 1);
            assert(t.drop_last() =~= s@.take(i as int));
            assert(t.last() == cs@[i as int]);
            let before = path_parts(t.drop_last());
            assert(before.last() == last@);
            assert(before.drop_last() =~= texts(done@));
        }
        if cs[i] == '/' {
            proof {
                texts_push(done@, last);
            }
            done.push(last);
            last = String::new();
        } else {
            last.push(cs[i]);
        }
        i += 1;
    }
    assert(s@.take(i as int) =~= s@);
    proof {
        texts_push(done@, last);
    }
    done.push(last);
    done
}

fn are_names(parts: &Vec<String>) -> (r: bool)
    ensures
        r == parts_are_names(texts(parts@)),
{
    let mut i: usize = 0;
    while i < parts.len()
        invariant
            i <= parts@.len(),
            forall|j: int|
                0 <= j < i ==> (#[trigger] texts(parts@)[j]).len() > 0 && texts(parts@)[j] != "."@
                    && texts(parts@)[j] != ".."@,
        decreases parts@.len() - i,
    {
        assert(texts(parts@)[i as int] == parts@[i as int]@);
        let p = parts[i].as_str();
        if p.is_empty() || same(p, ".") || same(p, "..") {
            return false;
        }
        i += 1;
    }
    true
}

/// What asking for a file of an app in the editor changes of the screen.
/// `is_file` says whether there is such a file.
pub open spec fn edit_request(before: Screen, after: Screen, arg: Seq<char>, is_file: bool) -> bool {
    if arg.len() == 0 || !arg.contains('/') {
        says(before, after, "usage: /edit <app>/<file>  e.g. /edit deck/index.html"@)
    } else if !parts_are_names(path_parts(arg)) {
        says(before, after, "invalid path: "@ + arg)
    } else if !is_file {
        says(before, after, "no such app file: "@ + arg)
    } else {
        &&& after == (Screen { pending_editor: after.pending_editor, ..before })
        &&& after.pending_editor matches Some(PendingEditor::AppFile(p)) && p@ == arg
    }
}

fn request_edit(screen: &mut Screen, arg: &str, is_file: bool)
    ensures
        edit_request(*old(screen), *final(screen), arg@, is_file),
{
    proof {
        find_char_found(arg@, '/');
    }
    let slash = found_char(arg, '/');
    proof {
        if let Some(k) = find_char(arg@, '/') {
            assert(arg@[k] == '/');
            assert(arg@.contains('/'));
        }
    }
    if arg.is_empty() || slash.is_none() {
        screen.status = "usage: /edit <app>/<file>  e.g. /edit deck/index.html".to_owned();
        return;
    }
    if !are_names(&parts_of(arg)) {
        screen.status = concat("invalid path: ", arg);
        return;
    }
    if !is_file {
        screen.status = concat("no such app file: ", arg);
        return;
    }
    screen.pending_editor = Some(PendingEditor::AppFile(arg.to_owned()));
}

/// The models that a backend has for background jobs and for research.
pub struct DefaultModels {
    pub utility: String,
    pub research: String,
}

/// The default models of each kind of backend.
pub struct AllDefaults {
    pub openrouter: DefaultModels,
    pub openai: DefaultModels,
    pub opencode: DefaultModels,
    pub codex: DefaultModels,
}

/// The backend that a credential gives access to.
pub open spec fn backend_for(tag: BackendTag, key: Option<String>, d: DefaultModels) -> Option<
    Backend,
> {
    match key {
        Some(k) => Some(
            Backend { tag, key: k, utility_model: d.utility, research_model: d.research },
        ),
        None => None,
    }
}

fn backend_of(tag: BackendTag, key: &Option<String>, d: &DefaultModels) -> (r: Option<Backend>)
    ensures
        r == backend_for(tag, *key, *d),
{
    match key {
        Some(k) => Some(
            Backend {
                tag,
                key: k.clone(),
                utility_model: d.utility.clone(),
                research_model: d.research.clone(),
            },
        ),
        None => None,
    }
}

/// The backends that the stored credentials give access to.
pub open spec fn all_backends(saved: SavedKeys, d: AllDefaults) -> Backends {
    Backends {
        openrouter: backend_for(BackendTag::OpenRouter, saved.openrouter_key, d.openrouter),
        openai: backend_for(BackendTag::OpenAi, saved.openai_key, d.openai),
        opencode: backend_for(BackendTag::OpencodeGo, saved.opencode_key, d.opencode),
        codex: backend_for(BackendTag::Codex, saved.codex, d.codex),
    }
}

/// What catalogs that came back, or the reason why none did, change of the
/// catalog and the screen, before the picker opens.
pub open spec fn models_taken(
    before: App,
    result: Option<Result<Vec<Model>, String>>,
    status: String,
) -> App {
    App {
        jobs: Jobs { models: false, ..before.jobs },
        catalog: match result {
            Some(Ok(models)) => Catalog { models, ..before.catalog },
            _ => before.catalog,
        },
        screen: Screen { status, ..before.screen },
        ..before
    }
}

impl App {
    /// Runs a command, without its slash: what it changes at once, and what it
    /// leads to. A skill of that name is armed, and the rest of the command
    /// sent with it.
    pub fn run_command(&mut self, cmd: &str, commands: &Vec<CommandName>) -> (r: CommandStep)
        requires
            can_cut(commands@, old(self).skills.list@, cmd@),
        ensures
            *final(self) == (App {
                skills: final(self).skills,
                screen: final(self).screen,
                ..*old(self)
            }),
            command_step(
                commands@,
                (old(self).skills, old(self).screen),
                (final(self).skills, final(self).screen),
                cmd@,
                r,
            ),
    {
        take_command(commands, &mut self.skills, &mut self.screen, cmd)
    }

    /// Takes what stands in the composer: a command where it begins with a
    /// slash, else a message.
    pub fn submit(&mut self) -> (r: Submitted)
        ensures
            *final(self) == (App {
                screen: Screen { input: final(self).screen.input, ..old(self).screen },
                ..*old(self)
            }),
            final(self).screen.input@ == Seq::<char>::empty(),
            ({
                let text = trim(old(self).screen.input@);
                match r {
                    Submitted::Nothing => text.len() == 0,
                    Submitted::Command(cmd) => text.len() > 0 && text[0] == '/' && cmd@
                        == text.skip(1),
                    Submitted::Text(t) => text.len() > 0 && text[0] != '/' && t@ == text,
                }
            }),
    {
        let text = trimmed(self.screen.input.as_str()).to_owned();
        self.screen.input = String::new();
        let cs = chars_of(text.as_str());
        if cs.len() == 0 {
            return Submitted::Nothing;
        }
        if cs[0] == '/' {
            Submitted::Command(rest_of(text.as_str(), 1).to_owned())
        } else {
            Submitted::Text(text)
        }
    }

    /// Opens the prompt for the key of OpenRouter.
    pub fn open_key_prompt(&mut self)
        ensures
            *final(self) == (App {
                login: LoginPopup {
                    key_input: final(self).login.key_input,
                    ..old(self).login
                },
                screen: Screen {
                    popup: Popup::Key,
                    status: final(self).screen.status,
                    ..old(self).screen
                },
                ..*old(self)
            }),
            final(self).login.key_input@ == Seq::<char>::empty(),
            final(self).screen.status@ == "paste your OpenRouter key, then Enter"@,
    {
        self.login.key_input = String::new();
        self.screen.status = "paste your OpenRouter key, then Enter".to_owned();
        self.screen.popup = Popup::Key;
    }

    /// Has a file of an app opened in the user's editor.
    pub fn request_app_file_edit(&mut self, arg: &str, is_file: bool)
        ensures
            *final(self) == (App { screen: final(self).screen, ..*old(self) }),
            edit_request(old(self).screen, final(self).screen, arg@, is_file),
    {
        request_edit(&mut self.screen, arg, is_file);
    }

    /// Sets the backends up anew from the stored credentials.
    pub fn rebuild_all_backends(&mut self, d: &AllDefaults)
        ensures
            *final(self) == (App {
                backends: all_backends(old(self).saved, *d),
                ..*old(self)
            }),
    {
        self.backends =
        Backends {
            openrouter: backend_of(
                BackendTag::OpenRouter,
                &self.saved.openrouter_key,
                &d.openrouter,
            ),
            openai: backend_of(BackendTag::OpenAi, &self.saved.openai_key, &d.openai),
            opencode: backend_of(BackendTag::OpencodeGo, &self.saved.opencode_key, &d.opencode),
            codex: backend_of(BackendTag::Codex, &self.saved.codex, &d.codex),
        };
    }

    /// Takes the catalogs that were fetched, or the reason why there are none.
    /// Where no model was picked yet and nothing else is open, the model
    /// picker opens.
    pub fn on_models_result(&mut self, result: Option<Result<Vec<Model>, String>>) -> (r: Vec<
        Effect,
    >)
        requires
            old(self).wf(),
        ensures
            ({
                let middle = models_taken(*old(self), result, final(self).screen.status);
                &&& match result {
                    Some(Ok(models)) if models@.len() > 0 && old(self).catalog.current is None
                        && old(self).screen.popup == Popup::Closed => picker_opened(
                        middle,
                        *final(self),
                        ModelPickTarget::Session,
                        views(r@),
                    ),
                    _ => *final(self) == middle && views(r@) == Seq::<EffectView>::empty(),
                }
                &&& final(self).screen.status@ == models_words(result)
            }),
    {
        let opens = match &result {
            Some(Ok(models)) => models.len() > 0 && self.catalog.current.is_none()
                && self.screen.popup == Popup::Closed,
            _ => false,
        };
        take_models(&mut self.jobs, &mut self.catalog, &mut self.screen, result);
        if opens {
            self.open_model_picker()
        } else {
            no_effects()
        }
    }
}

/// What the screen says of catalogs that came back, or did not.
pub open spec fn models_words(result: Option<Result<Vec<Model>, String>>) -> Seq<char> {
    match result {
        Some(Ok(models)) => "loaded "@ + decimal(models@.len()) + " models"@,
        Some(Err(e)) => "model fetch failed: "@ + e@,
        None => "model fetch failed: model fetch cancelled"@,
    }
}

fn take_models(
    jobs: &mut Jobs,
    catalog: &mut Catalog,
    screen: &mut Screen,
    result: Option<Result<Vec<Model>, String>>,
)
    ensures
        *final(jobs) == (Jobs { models: false, ..*old(jobs) }),
        *final(catalog) == (match result {
            Some(Ok(models)) => Catalog { models, ..*old(catalog) },
            _ => *old(catalog),
        }),
        says(*old(screen), *final(screen), models_words(result)),
{
    jobs.models = false;
    match result {
        None => {
            screen.status = "model fetch failed: model fetch cancelled".to_owned();
        },
        Some(Err(e)) => {
            screen.status = concat("model fetch failed: ", e.as_str());
        },
        Some(Ok(models)) => {
            let mut s = "loaded ".to_owned();
            s.append(decimal_of(models.len() as u64).as_str());
            s.append(" models");
            screen.status = s;
            catalog.models = models;
        },
    }
}

} // verus!
