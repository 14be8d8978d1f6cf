//! What a client does with what its user asks of it: commands, models and
//! keys, what is copied, followed or flagged, and the jobs that follow an
//! exchange.

use crate::app::App;
use crate::backends::{BackendTag, Backends, Model};
use crate::chat::fenced_blocks;
use crate::clipboard::{copied_step, copy_options, copy_source, last_reply};
use crate::commands::{
    all_backends, canonical, command_rest, command_step, edit_request, models_taken, path_parts,
    plain_step, AllDefaults, CommandName, CommandStep,
};
use crate::compaction::{compaction_due, percent, CompactRequest};
use crate::effects::EffectView;
use crate::followup::{memory_asked, memory_writes, session_at, title_asked, titled, JobRequest};
use crate::login::{login_step, LoginMsg};
use crate::memory::{changed_facts, facts_of, memory_file, MemoryOp};
use crate::memory_laws::{every_added_fact_is_there, the_memory_model_knows_the_exchange};
use crate::modes::{cited, flagged, link_step, Citation, LinkStep};
use crate::picks::{
    key_login, next_filter, pick_writes, picked, picker_opened, row_target, target_tag,
};
use crate::research_start::{recent_talk, scoping_refusal};
use crate::sending::effort_to_clear;
use crate::sessions::{is_retitled, is_retitled_view};
use crate::settings::installing;
use crate::spaces::{is_renamed, name_taken, space_at};
use crate::startup::{with_favorites, with_last_used, with_reasoning};
use crate::state::{
    Catalog, Config, Conversation, Jobs, PendingEditor, SavedKeys, Screen, SessionPicker,
    SkillsPopup, SpacePicker, SwarmState,
};
use crate::store::{CopyOptionView, MessageView, ModelPrefView, PersonaView, Session, Space};
use crate::swarm::persona_in;
use crate::swarm_session::{edit_step, editor_step, named_only, roster_without};
use crate::text::{decimal, first_chars, first_word, join, lines, texts, trim, views};
use crate::text_laws::{
    blank, joined_parts_stand, stands_between, stands_last, trimming_cuts_whitespace, within,
    within_carries,
};
use crate::ui::{KeyTarget, ModelPickTarget, Popup};
use vstd::prelude::*;

verus! {

/// A command is known under its name and under each of its other names, where
/// no command before it has that name.
pub proof fn a_command_is_known_under_its_names(
    commands: Seq<CommandName>,
    word: Seq<char>,
    i: int,
    k: int,
)
    requires
        0 <= i <= k < commands.len(),
        commands[k].name@ == word || texts(commands[k].aliases@).contains(word),
        forall|j: int|
            0 <= j < k ==> (#[trigger] commands[j]).name@ != word && !texts(
                commands[j].aliases@,
            ).contains(word),
    ensures
        canonical(commands, word, i) == commands[k].name@,
    decreases k - i,
{
    if i < k {
        assert(commands[i].name@ != word);
        a_command_is_known_under_its_names(commands, word, i + 1, k);
    }
}

/// A word that names no command stays as it is.
pub proof fn an_unknown_word_stays(commands: Seq<CommandName>, word: Seq<char>, i: int)
    requires
        0 <= i,
        forall|j: int|
            0 <= j < commands.len() ==> (#[trigger] commands[j]).name@ != word && !texts(
                commands[j].aliases@,
            ).contains(word),
    ensures
        canonical(commands, word, i) == word,
    decreases commands.len() - i,
{
    if i < commands.len() {
        assert(commands[i].name@ != word);
        an_unknown_word_stays(commands, word, i + 1);
    }
}

/// The commands without an argument do what their names say.
pub proof fn plain_commands_do_what_they_say()
    ensures
        plain_step("new"@) == Some(CommandStep::NewSession),
        plain_step("compact"@) == Some(CommandStep::Compact),
        plain_step("session"@) == Some(CommandStep::SessionPicker),
        plain_step("space"@) == Some(CommandStep::SpacePicker),
        plain_step("model"@) == Some(CommandStep::ModelPicker),
        plain_step("key"@) == Some(CommandStep::KeyPrompt),
        plain_step("config"@) == Some(CommandStep::Config),
        plain_step("think"@) == Some(CommandStep::ReasoningView),
        plain_step("copy"@) == Some(CommandStep::CopyMenu),
        plain_step("skills"@) == Some(CommandStep::SkillsPopup),
        plain_step("files"@) == Some(CommandStep::FilesPopup),
        plain_step("apps"@) == Some(CommandStep::AppsPopup),
        plain_step("quit"@) is None,
        plain_step("help"@) is None,
        plain_step("edit"@) is None,
{
    reveal_strlit("new");
    reveal_strlit("compact");
    reveal_strlit("session");
    reveal_strlit("space");
    reveal_strlit("model");
    reveal_strlit("key");
    reveal_strlit("config");
    reveal_strlit("think");
    reveal_strlit("copy");
    reveal_strlit("skills");
    reveal_strlit("files");
    reveal_strlit("apps");
    reveal_strlit("quit");
    reveal_strlit("help");
    reveal_strlit("edit");
    assert("new"@[0] == 'n' && "compact"@[0] == 'c' && "session"@[0] == 's' && "space"@[0] == 's');
    assert("model"@[0] == 'm' && "key"@[0] == 'k' && "config"@[0] == 'c' && "think"@[0] == 't');
    assert("copy"@[0] == 'c' && "skills"@[0] == 's' && "files"@[0] == 'f' && "apps"@[0] == 'a');
    assert("quit"@[0] == 'q' && "help"@[0] == 'h' && "edit"@[0] == 'e');
    assert("session"@[1] == 'e' && "space"@[1] == 'p' && "skills"@[1] == 'k');
    assert("compact"@[2] == 'm' && "config"@[2] == 'n' && "copy"@[2] == 'p');
}

/// A skill that is called by its name goes with the next message; what stands
/// behind the name is sent at once.
pub proof fn a_called_skill_is_armed(
    commands: Seq<CommandName>,
    before: (SkillsPopup, Screen),
    after: (SkillsPopup, Screen),
    cmd: Seq<char>,
    r: CommandStep,
    name: Seq<char>,
    i: int,
)
    requires
        command_step(commands, before, after, cmd, r),
        canonical(commands, first_word(cmd), 0) == name,
        name != "quit"@ && name != "help"@ && name != "edit"@ && plain_step(name) is None,
        0 <= i < before.0.list@.len(),
        before.0.list@[i].name@ == name,
    ensures
        after.0.forced matches Some(f) && f@ == name,
        command_rest(cmd) == Some(Seq::<char>::empty()) ==> r is Done,
        command_rest(cmd) matches Some(rest) && rest.len() > 0 ==> (r matches CommandStep::Send(
            text,
        ) && text@ == command_rest(cmd)->0),
        after.0.list == before.0.list,
{
}

/// A command that is none changes nothing but the status, which names it.
pub proof fn an_unknown_command_does_nothing(
    commands: Seq<CommandName>,
    before: (SkillsPopup, Screen),
    after: (SkillsPopup, Screen),
    cmd: Seq<char>,
    r: CommandStep,
    name: Seq<char>,
)
    requires
        command_step(commands, before, after, cmd, r),
        canonical(commands, first_word(cmd), 0) == name,
        name != "quit"@ && name != "help"@ && name != "edit"@ && plain_step(name) is None,
        forall|i: int|
            0 <= i < before.0.list@.len() ==> (#[trigger] before.0.list@[i]).name@ != name,
    ensures
        r is Done,
        after.0 == before.0,
        !(before.1.should_quit) ==> !after.1.should_quit,
        name.is_suffix_of(after.1.status@),
{
    let words = "unknown command: /"@ + name;
    assert(words.skip(words.len() - name.len()) =~= name);
}

/// Only the command to quit quits.
pub proof fn quitting_quits(
    commands: Seq<CommandName>,
    before: (SkillsPopup, Screen),
    after: (SkillsPopup, Screen),
    cmd: Seq<char>,
    r: CommandStep,
)
    requires
        command_step(commands, before, after, cmd, r),
        !before.1.should_quit,
    ensures
        after.1.should_quit <==> canonical(commands, first_word(cmd), 0) == "quit"@,
{
}

/// The help names every command.
pub proof fn the_help_names_every_command(
    commands: Seq<CommandName>,
    before: (SkillsPopup, Screen),
    after: (SkillsPopup, Screen),
    cmd: Seq<char>,
    r: CommandStep,
    i: int,
)
    requires
        command_step(commands, before, after, cmd, r),
        canonical(commands, first_word(cmd), 0) == "help"@,
        0 <= i < commands.len(),
    ensures
        within("/"@ + commands[i].name@, after.1.status@),
{
    reveal_strlit("quit");
    reveal_strlit("help");
    assert("quit"@[0] == 'q' && "help"@[0] == 'h');
    let words = crate::commands::help_words(commands);
    assert(words[i] == "/"@ + commands[i].name@);
    joined_parts_stand(words, "  "@, i);
}

/// A path is cut at its slashes: put together again, its parts are the path.
pub proof fn a_path_is_its_parts(s: Seq<char>)
    ensures
        path_parts(s).len() > 0,
        join(path_parts(s), "/"@) == s,
        forall|i: int|
            0 <= i < path_parts(s).len() ==> !(#[trigger] path_parts(s)[i]).contains('/'),
    decreases s.len(),
{
    reveal_strlit("/");
    let parts = path_parts(s);
    if s.len() == 0 {
        assert(s =~= Seq::<char>::empty());
        assert(parts == seq![s]);
        assert(join(parts, "/"@) =~= s);
    } else {
        a_path_is_its_parts(s.drop_last());
        let before = path_parts(s.drop_last());
        if s.last() == '/' {
            assert(parts.drop_last() =~= before);
            assert(join(parts, "/"@) =~= s);
            assert forall|i: int| 0 <= i < parts.len() implies !(#[trigger] parts[i]).contains(
                '/',
            ) by {
                if i < before.len() {
                    assert(parts[i] == before[i]);
                }
            }
        } else {
            let part = before.last().push(s.last());
            assert(parts.drop_last() =~= before.drop_last());
            assert(parts.last() == part);
            assert(join(parts, "/"@) =~= join(before, "/"@).push(s.last()));
            assert(join(parts, "/"@) =~= s);
            assert(!before.last().contains('/'));
            assert forall|i: int| 0 <= i < parts.len() implies !(#[trigger] parts[i]).contains(
                '/',
            ) by {
                if i < before.len() - 1 {
                    assert(parts[i] == before[i]);
                } else {
                    assert(parts[i] == part);
                    if part.contains('/') {
                        let k = choose|k: int| 0 <= k < part.len() && part[k] == '/';
                        if k < part.len() - 1 {
                            assert(before.last()[k] == '/');
                        }
                    }
                }
            }
        }
    }
}

/// A file of an app opens only under a path that stays inside: none of its
/// parts is empty, and none leads upwards.
pub proof fn an_edited_path_stays_inside(
    before: Screen,
    after: Screen,
    arg: Seq<char>,
    is_file: bool,
    i: int,
)
    requires
        edit_request(before, after, arg, is_file),
        before.pending_editor is None,
        after.pending_editor is Some,
    ensures
        is_file,
        arg.contains('/'),
        after.pending_editor matches Some(PendingEditor::AppFile(p)) && p@ == arg,
        0 <= i < path_parts(arg).len() ==> path_parts(arg)[i].len() > 0 && path_parts(arg)[i]
            != "."@ && path_parts(arg)[i] != ".."@,
{
}

/// A backend is there exactly where its key is saved, with that key.
pub proof fn a_saved_key_makes_a_backend(saved: SavedKeys, d: AllDefaults)
    ensures
        ({
            let b = all_backends(saved, d);
            &&& b.openrouter is Some <==> saved.openrouter_key is Some
            &&& b.openai is Some <==> saved.openai_key is Some
            &&& b.opencode is Some <==> saved.opencode_key is Some
            &&& b.codex is Some <==> saved.codex is Some
            &&& b.openrouter matches Some(x) ==> x.tag == BackendTag::OpenRouter && Some(x.key)
                == saved.openrouter_key && x.utility_model == d.openrouter.utility
                && x.research_model == d.openrouter.research
            &&& b.openai matches Some(x) ==> x.tag == BackendTag::OpenAi && Some(x.key)
                == saved.openai_key && x.utility_model == d.openai.utility && x.research_model
                == d.openai.research
            &&& b.opencode matches Some(x) ==> x.tag == BackendTag::OpencodeGo && Some(x.key)
                == saved.opencode_key && x.utility_model == d.opencode.utility && x.research_model
                == d.opencode.research
            &&& b.codex matches Some(x) ==> x.tag == BackendTag::Codex && Some(x.key)
                == saved.codex && x.utility_model == d.codex.utility && x.research_model
                == d.codex.research
        }),
{
}

/// A model of a backend is routed to that backend under its own id; another
/// one to the first backend there is.
pub proof fn a_model_is_routed_to_its_backend(b: Backends, id: Seq<char>)
    ensures
        b.openai matches Some(x) ==> b.route("openai:"@ + id) == Some((x, id)),
        b.opencode matches Some(x) ==> b.route("opencode:"@ + id) == Some((x, id)),
        b.codex matches Some(x) ==> b.route("codex:"@ + id) == Some((x, id)),
        !"openai:"@.is_prefix_of(id) && !"opencode:"@.is_prefix_of(id) && !"codex:"@.is_prefix_of(
            id,
        ) ==> match b.first() {
            Some(x) => b.route(id) == Some((x, id)),
            None => b.route(id) is None,
        },
        b.openai is None ==> b.route("openai:"@ + id) is None,
        b.opencode is None ==> b.route("opencode:"@ + id) is None,
        b.codex is None ==> b.route("codex:"@ + id) is None,
{
    reveal_strlit("openai:");
    reveal_strlit("opencode:");
    reveal_strlit("codex:");
    let (o, p, c) = ("openai:"@ + id, "opencode:"@ + id, "codex:"@ + id);
    assert(o.skip("openai:"@.len() as int) =~= id);
    assert(p.skip("opencode:"@.len() as int) =~= id);
    assert(c.skip("codex:"@.len() as int) =~= id);
    assert(o.take("openai:"@.len() as int) =~= "openai:"@);
    assert(p.take("opencode:"@.len() as int) =~= "opencode:"@);
    assert(c.take("codex:"@.len() as int) =~= "codex:"@);
    assert(p[4] == 'c' && "openai:"@[4] == 'a');
    assert(c[0] == 'c' && "openai:"@[0] == 'o' && "opencode:"@[0] == 'o');
}

/// The first backend is one that is there, and there is one where any is.
pub proof fn the_first_backend_is_there(b: Backends)
    ensures
        b.first() is None <==> b.openrouter is None && b.openai is None && b.opencode is None
            && b.codex is None,
        b.openrouter is Some ==> b.first() == b.openrouter,
        b.openrouter is None && b.openai is Some ==> b.first() == b.openai,
        b.openrouter is None && b.openai is None && b.opencode is Some ==> b.first() == b.opencode,
{
}

/// The models that came in are the catalog; where none came, it stays.
pub proof fn fetched_models_are_the_catalog(
    before: App,
    models: Vec<Model>,
    e: String,
    status: String,
)
    ensures
        models_taken(before, Some(Ok(models)), status).catalog.models == models,
        models_taken(before, Some(Err(e)), status).catalog == before.catalog,
        models_taken(before, None, status).catalog == before.catalog,
        !models_taken(before, None, status).jobs.models,
        models_taken(before, Some(Ok(models)), status).talk == before.talk,
{
}

/// A model that is picked for the conversation is the one that it goes on
/// with, and is stored with it.
pub proof fn a_picked_model_is_used(a: App, b: App, id: String, now: String)
    requires
        picked(a, b, id, now, true),
        a.catalog.target == ModelPickTarget::Session,
    ensures
        b.catalog.current == Some(id),
        b.catalog.last_used@.contains_key(id@) && b.catalog.last_used@[id@] == now@,
        id@.is_suffix_of(b.screen.status@),
        b.talk == a.talk,
        pick_writes(a, id@).contains(EffectView::MarkModelUsed { model: id@ }),
        a.talk.session matches Some(s) ==> pick_writes(a, id@).contains(
            EffectView::SetSessionModel { session_id: s.id@, model: id@ },
        ),
{
    let words = "model: "@ + id@;
    assert(words.skip(words.len() - id@.len()) =~= id@);
    let w = pick_writes(a, id@);
    if a.talk.session is Some {
        assert(w[0] is SetSessionModel);
        assert(w[1] == (EffectView::MarkModelUsed { model: id@ }));
    } else {
        assert(w[0] == (EffectView::MarkModelUsed { model: id@ }));
    }
}

/// A model that is picked for a task is set for that task and stored under the
/// name of that setting; the conversation keeps its own.
pub proof fn a_model_is_set_for_its_task(a: App, b: App, id: String, now: String)
    requires
        picked(a, b, id, now, true),
    ensures
        a.catalog.target == ModelPickTarget::Memory ==> b.config.memory_model == id && pick_writes(
            a,
            id@,
        ) == seq![EffectView::SetSetting { key: "memory_model"@, value: id@ }],
        a.catalog.target == ModelPickTarget::Research ==> b.config.research_model == id
            && pick_writes(a, id@) == seq![
            EffectView::SetSetting { key: "research_model"@, value: id@ },
        ],
        a.catalog.target == ModelPickTarget::Escalation ==> b.config.escalation_model == id
            && pick_writes(a, id@) == seq![
            EffectView::SetSetting { key: "escalation_model"@, value: id@ },
        ],
        a.catalog.target == ModelPickTarget::Ocr ==> b.config.ocr_model == id && pick_writes(
            a,
            id@,
        ) == seq![EffectView::SetSetting { key: "ocr_model"@, value: id@ }],
        a.catalog.target == ModelPickTarget::Transcriber ==> b.config.transcriber_model == id
            && pick_writes(a, id@) == seq![
            EffectView::SetSetting { key: "transcriber_model"@, value: id@ },
        ],
        a.catalog.target == ModelPickTarget::ImageGen ==> b.config.image_gen_model == id
            && pick_writes(a, id@) == seq![
            EffectView::SetSetting { key: "image_gen_model"@, value: id@ },
        ],
        a.catalog.target == ModelPickTarget::VideoGen ==> b.config.video_gen_model == id
            && pick_writes(a, id@) == seq![
            EffectView::SetSetting { key: "video_gen_model"@, value: id@ },
        ],
        a.catalog.target != ModelPickTarget::Session ==> b.catalog == a.catalog && b.talk == a.talk,
{
}

/// A model that is picked for a persona is that persona's, and no other
/// changes.
pub proof fn a_personas_model_is_its_own(
    a: App,
    b: App,
    id: String,
    now: String,
    row: usize,
    k: int,
)
    requires
        picked(a, b, id, now, true),
        a.catalog.target == ModelPickTarget::SwarmPersona(row),
        0 <= k < a.swarm.cache@.len(),
    ensures
        ({
            let old_roster = views(a.swarm.cache@);
            let roster = views(b.swarm.cache@);
            &&& roster.len() == old_roster.len()
            &&& roster[k].name == old_roster[k].name && roster[k].blurb == old_roster[k].blurb
            &&& k == row ==> roster[k].model == id@
            &&& k != row ==> roster[k] == old_roster[k]
            &&& a.talk.session matches Some(s) ==> pick_writes(a, id@) == seq![
                EffectView::SaveRoster { session_id: s.id@, personas: roster },
            ]
        }),
{
}

/// The picker of models opens for what it was asked for. Without a key it asks
/// for one, and without models it fetches them.
pub proof fn the_picker_opens_for_its_target(
    before: App,
    after: App,
    target: ModelPickTarget,
    effects: Seq<EffectView>,
)
    requires
        picker_opened(before, after, target, effects),
    ensures
        after.catalog.target == target,
        before.backends.first() is None ==> after.screen.popup == Popup::Login && effects.len()
            == 0,
        before.backends.first() is Some ==> after.screen.popup == Popup::Model,
        before.backends.first() is Some && before.catalog.models@.len() == 0 ==> effects == seq![
            EffectView::FetchModels,
        ] && after.jobs.models,
        before.backends.first() is Some && before.catalog.models@.len() > 0 ==> effects.len() == 0
            && after.catalog.filter@.len() == 0,
        after.catalog.models == before.catalog.models,
        after.talk == before.talk,
{
}

/// A key that was given is that of its backend, and no other key changes; it
/// is saved, and the models are fetched anew.
pub proof fn a_key_is_kept_for_its_backend(
    a: App,
    b: App,
    effects: Seq<EffectView>,
    target: KeyTarget,
    env: String,
    utility_model: String,
    research_model: String,
)
    requires
        key_login(a, b, effects, target, Some(env), utility_model, research_model),
        !blank(env@),
    ensures
        b.saved.key_of(target) matches Some(k) && k@ == trim(env@),
        forall|u: KeyTarget| u != target ==> #[trigger] b.saved.key_of(u) == a.saved.key_of(u),
        b.backends.of(target_tag(target)) matches Some(x) && x.key@ == trim(env@),
        effects.len() == 2,
        effects[0] matches EffectView::SaveKey { key, .. } && key == trim(env@),
        effects[1] == EffectView::FetchModels,
        b.talk == a.talk && b.config == a.config,
{
    trimming_cuts_whitespace(env@);
}

/// Without a key the user is asked for one, and nothing is saved.
pub proof fn a_missing_key_is_asked_for(
    a: App,
    b: App,
    effects: Seq<EffectView>,
    target: KeyTarget,
    utility_model: String,
    research_model: String,
)
    requires
        key_login(a, b, effects, target, None, utility_model, research_model),
    ensures
        b.saved == a.saved && b.backends == a.backends,
        b.login.key_target == target,
        b.screen.popup == Popup::Key,
        effects.len() == 0,
{
}

/// The filter of the picker goes through the backends in order, and behind the
/// last one shows all.
pub proof fn the_filter_goes_round(tags: Seq<BackendTag>, i: int)
    requires
        0 <= i < tags.len(),
        forall|a: int, b: int| 0 <= a < b < tags.len() ==> tags[a] != tags[b],
    ensures
        next_filter(tags, None) == Some(tags[0]),
        i + 1 < tags.len() ==> next_filter(tags, Some(tags[i])) == Some(tags[i + 1]),
        i + 1 == tags.len() ==> next_filter(tags, Some(tags[i])) is None,
{
    a_tag_is_found(tags, 0, i);
}

proof fn a_tag_is_found(tags: Seq<BackendTag>, j: int, i: int)
    requires
        0 <= j <= i < tags.len(),
        forall|a: int, b: int| 0 <= a < b < tags.len() ==> tags[a] != tags[b],
    ensures
        crate::picks::tag_at(tags, tags[i], j) == Some(i),
    decreases i - j,
{
    if j < i {
        a_tag_is_found(tags, j + 1, i);
    }
}

/// The rows of the login are the backends that take a key, each once.
pub proof fn every_row_is_a_backend()
    ensures
        row_target(0) == Some(KeyTarget::OpenRouter),
        row_target(1) == Some(KeyTarget::OpencodeGo),
        row_target(2) == Some(KeyTarget::OpenAi),
        forall|i: int| i < 0 || i > 2 ==> #[trigger] row_target(i) is None,
{
}

/// A login that went through makes the backend usable; one that failed tells
/// why and changes no key.
pub proof fn a_login_makes_a_backend(
    before: (Backends, SavedKeys, Jobs, Screen),
    after: (Backends, SavedKeys, Jobs, Screen),
    effects: Seq<EffectView>,
    r: Result<String, String>,
    utility_model: String,
    research_model: String,
)
    requires
        login_step(
            before,
            after,
            effects,
            Some(LoginMsg::Done(r)),
            utility_model,
            research_model,
        ),
    ensures
        !after.2.login,
        r matches Ok(access) ==> {
            &&& after.0.codex matches Some(x) && x.key == access && x.tag == BackendTag::Codex
            &&& after.1.codex == Some(access)
            &&& effects.contains(EffectView::FetchModels)
        },
        r matches Err(e) ==> {
            &&& after.0 == before.0 && after.1 == before.1
            &&& e@.is_suffix_of(after.3.status@)
            &&& effects.len() == 0
        },
        after.0.openrouter == before.0.openrouter && after.0.openai == before.0.openai
            && after.0.opencode == before.0.opencode,
{
    if let Err(e) = r {
        let words = "OpenAI Codex login failed: "@ + e@;
        assert(words.skip(words.len() - e@.len()) =~= e@);
    } else {
        assert(effects[0] == EffectView::FetchModels);
    }
}

/// What is copied of a row: the plain text of a reply, any other row as it
/// is, and behind the rows the reply that comes in.
pub proof fn a_row_is_copied(
    rows: Seq<MessageView>,
    streaming: Option<Seq<char>>,
    i: int,
    plain: Seq<char>,
)
    ensures
        0 <= i < rows.len() && rows[i].role == "assistant"@ ==> copy_source(
            rows,
            streaming,
            i,
            plain,
        ) == Some(plain),
        0 <= i < rows.len() && rows[i].role != "assistant"@ ==> copy_source(
            rows,
            streaming,
            i,
            plain,
        ) == Some(rows[i].content),
        copy_source(rows, streaming, rows.len() as int, plain) == streaming,
        i < 0 || i > rows.len() ==> copy_source(rows, streaming, i, plain) is None,
{
}

/// The last reply is one, and no reply comes behind it; there is one where any
/// row is a reply.
pub proof fn the_last_reply_is_the_last(rows: Seq<MessageView>, j: int)
    requires
        0 <= j < rows.len(),
        rows[j].role == "assistant"@,
    ensures
        last_reply(rows) matches Some(i) && j <= i < rows.len() && rows[i].role == "assistant"@,
    decreases rows.len(),
{
    if rows.last().role != "assistant"@ {
        assert(j < rows.len() - 1);
        assert(rows.drop_last()[j] == rows[j]);
        the_last_reply_is_the_last(rows.drop_last(), j);
        let i = last_reply(rows)->0;
        assert(rows.drop_last()[i] == rows[i]);
    }
}

/// A reply can be copied whole, and each of its code blocks for itself, in
/// order.
pub proof fn every_code_block_can_be_copied(content: Seq<char>, plain: Seq<char>, i: int)
    ensures
        copy_options(content, plain).len() == fenced_blocks(content).len() + 1,
        copy_options(content, plain)[0].text == plain,
        0 <= i < fenced_blocks(content).len() ==> copy_options(content, plain)[i + 1].text
            == fenced_blocks(content)[i].1 && within(
            decimal((i + 1) as nat),
            copy_options(content, plain)[i + 1].label,
        ),
{
    let blocks = fenced_blocks(content);
    blocks_as_options(blocks, i);
    let o = crate::clipboard::block_options(blocks);
    if 0 <= i < blocks.len() {
        assert(copy_options(content, plain)[i + 1] == o[i]);
        let n = decimal((i + 1) as nat);
        match blocks[i].0 {
            Some(l) => {
                assert(o[i].label =~= "Code block "@ + n + (" ("@ + l + ")"@));
                stands_between("Code block "@, n, " ("@ + l + ")"@);
            },
            None => {
                stands_last("Code block "@, n);
            },
        }
    }
}

proof fn blocks_as_options(blocks: Seq<crate::chat::Block>, i: int)
    ensures
        crate::clipboard::block_options(blocks).len() == blocks.len(),
        0 <= i < blocks.len() ==> crate::clipboard::block_options(blocks)[i] == (CopyOptionView {
            label: crate::clipboard::block_label((i + 1) as nat, blocks[i].0),
            text: blocks[i].1,
        }),
    decreases blocks.len(),
{
    if blocks.len() > 0 {
        blocks_as_options(blocks.drop_last(), i);
    }
}

/// Copying says how much was copied, or that it was not; nothing copied says
/// nothing.
pub proof fn a_copy_is_counted(before: Screen, after: Screen, text: Seq<char>, ok: bool)
    requires
        copied_step(before, after, text, ok),
    ensures
        text.len() == 0 ==> after == before,
        text.len() > 0 && ok ==> within(decimal(text.len()), after.status@),
        text.len() > 0 && !ok ==> after.status@ == "clipboard unavailable"@,
{
    stands_between("copied "@, decimal(text.len()), " chars"@);
}

/// A link to a session leads to the session that its first line names.
pub proof fn a_link_leads_to_its_session(
    talk: Conversation,
    before: Screen,
    after: Screen,
    i: usize,
    r: LinkStep,
    id: Seq<char>,
    rest: Seq<char>,
)
    requires
        link_step(talk, before, after, Some(i), r),
        i < talk.messages@.len(),
        talk.messages@[i as int].role@ == "session_link"@,
        talk.messages@[i as int].content@ == id + "\n"@ + rest,
        !id.contains('\n'),
        trim(id) == id,
    ensures
        r matches LinkStep::Open(t) && t@ == id,
        after == before,
{
    let content = talk.messages@[i as int].content@;
    reveal_strlit("\n");
    assert(content[id.len() as int] == '\n');
    crate::text::find_char_found(content, '\n');
    let k = crate::text::find_char(content, '\n');
    assert(k is Some);
    let at = k->0;
    if at < id.len() {
        assert(id[at] == '\n');
        assert(false);
    }
    assert(at == id.len());
    assert(content.take(at) =~= id);
}

/// Nothing but a link to a session is followed.
pub proof fn other_rows_are_not_followed(
    talk: Conversation,
    before: Screen,
    after: Screen,
    at: Option<usize>,
    r: LinkStep,
)
    requires
        link_step(talk, before, after, at, r),
        r is Open,
    ensures
        at matches Some(i) && i < talk.messages@.len() && talk.messages@[i as int].role@
            == "session_link"@,
{
}

/// A source that is cited by its number is the one that is flagged; only a
/// number of a source of that message is.
pub proof fn the_cited_source_is_flagged(
    c: Citation,
    talk: Conversation,
    n: u64,
    sources: Vec<(u64, String)>,
    k: int,
)
    requires
        c.selected,
        c.number == Some(n),
        c.sources == Some(sources),
        talk.session is Some,
    ensures
        0 <= k < sources@.len() && sources@[k].0 == n && (forall|j: int|
            0 <= j < k ==> (#[trigger] sources@[j]).0 != n) ==> cited(c, talk) == Ok::<
            (u64, Seq<char>),
            Seq<char>,
        >((n, sources@[k].1@)),
        (forall|j: int| 0 <= j < sources@.len() ==> (#[trigger] sources@[j]).0 != n) ==> cited(
            c,
            talk,
        ) is Err,
{
    if 0 <= k < sources@.len() && sources@[k].0 == n && forall|j: int|
        0 <= j < k ==> (#[trigger] sources@[j]).0 != n {
        a_source_is_found(sources@, n, 0, k);
    }
    if forall|j: int| 0 <= j < sources@.len() ==> (#[trigger] sources@[j]).0 != n {
        no_source_is_found(sources@, n, 0);
    }
}

proof fn a_source_is_found(sources: Seq<(u64, String)>, n: u64, i: int, k: int)
    requires
        0 <= i <= k < sources.len(),
        sources[k].0 == n,
        forall|j: int| 0 <= j < k ==> (#[trigger] sources[j]).0 != n,
    ensures
        crate::modes::source_at(sources, n, i) == Some(k),
    decreases k - i,
{
    if i < k {
        assert(sources[i].0 != n);
        a_source_is_found(sources, n, i + 1, k);
    }
}

proof fn no_source_is_found(sources: Seq<(u64, String)>, n: u64, i: int)
    requires
        0 <= i,
        forall|j: int| 0 <= j < sources.len() ==> (#[trigger] sources[j]).0 != n,
    ensures
        crate::modes::source_at(sources, n, i) is None,
    decreases sources.len() - i,
{
    if i < sources.len() {
        assert(sources[i].0 != n);
        no_source_is_found(sources, n, i + 1);
    }
}

/// A flag that was stored is told with the source; one that was not is told
/// with the reason.
pub proof fn a_flag_is_told(
    talk: Conversation,
    before: Screen,
    after: Screen,
    effects: Seq<EffectView>,
    c: Citation,
    flag: Option<Seq<char>>,
    stored: Result<(), String>,
    n: u64,
    url: Seq<char>,
)
    requires
        flagged(talk, before, after, effects, c, flag, stored),
        cited(c, talk) == Ok::<(u64, Seq<char>), Seq<char>>((n, url)),
    ensures
        stored is Ok ==> url.is_suffix_of(after.status@) && effects.len() == 1,
        stored is Ok && flag == Some("discarded"@) ==> "discarded"@.is_prefix_of(after.status@),
        stored is Ok && flag == Some("pinned"@) ==> "pinned"@.is_prefix_of(after.status@),
        stored is Ok && flag is None ==> "cleared"@.is_prefix_of(after.status@),
        stored matches Err(e) ==> e@.is_suffix_of(after.status@) && effects.len() == 0,
{
    let word = crate::modes::flag_word(flag);
    let s = word + " ["@ + decimal(n as nat) + "]: "@ + url;
    assert(s.skip(s.len() - url.len()) =~= url);
    assert(s.take(word.len() as int) =~= word);
    reveal_strlit("discarded");
    reveal_strlit("pinned");
    assert("discarded"@[0] == 'd' && "pinned"@[0] == 'p');
    if let Err(e) = stored {
        let t = "flag failed: "@ + e@;
        assert(t.skip(t.len() - e@.len()) =~= e@);
    }
}

/// A session that is renamed has the new title in the list, and no other
/// changes; so has the one that is viewed, where it is that one.
pub proof fn a_renamed_session_has_its_title(
    before: Seq<Session>,
    id: Seq<char>,
    title: Seq<char>,
    after: Seq<Session>,
    k: int,
)
    requires
        is_retitled(before, id, title, after),
        0 <= k < before.len(),
        before[k].id@ == id,
        forall|j: int| 0 <= j < before.len() && j != k ==> (#[trigger] before[j]).id@ != id,
    ensures
        after.len() == before.len(),
        after[k].title@ == title && after[k].id == before[k].id,
        forall|j: int| 0 <= j < before.len() && j != k ==> #[trigger] after[j] == before[j],
{
    a_session_is_found(before, id, 0, k);
}

proof fn a_session_is_found(list: Seq<Session>, id: Seq<char>, i: int, k: int)
    requires
        0 <= i <= k < list.len(),
        list[k].id@ == id,
        forall|j: int| 0 <= j < list.len() && j != k ==> (#[trigger] list[j]).id@ != id,
    ensures
        session_at(list, id, i) == Some(k),
        crate::sessions::session_at(list, id, i) == Some(k),
    decreases k - i,
{
    if i < k {
        assert(list[i].id@ != id);
        a_session_is_found(list, id, i + 1, k);
    }
}

/// The session that is viewed has a new title exactly where it is the one that
/// was renamed.
pub proof fn a_viewed_session_has_its_title(
    before: Option<Session>,
    id: Seq<char>,
    title: Seq<char>,
    after: Option<Session>,
)
    requires
        is_retitled_view(before, id, title, after),
    ensures
        before matches Some(s) && s.id@ == id ==> (after matches Some(t) && t.title@ == title
            && t.id == before->0.id),
        before matches Some(s) && s.id@ != id ==> after == before,
        before is None ==> after is None,
{
}

/// A space that is renamed has the new name in the list, and no other changes.
pub proof fn a_renamed_space_has_its_name(
    before: Seq<Space>,
    id: Seq<char>,
    name: Seq<char>,
    after: Seq<Space>,
    k: int,
)
    requires
        is_renamed(before, id, name, after),
        0 <= k < before.len(),
        before[k].id@ == id,
        forall|j: int| 0 <= j < before.len() && j != k ==> (#[trigger] before[j]).id@ != id,
    ensures
        after.len() == before.len(),
        after[k].name@ == name && after[k].id == before[k].id,
        forall|j: int| 0 <= j < before.len() && j != k ==> #[trigger] after[j] == before[j],
{
    a_space_is_found(before, id, 0, k);
}

proof fn a_space_is_found(list: Seq<Space>, id: Seq<char>, i: int, k: int)
    requires
        0 <= i <= k < list.len(),
        list[k].id@ == id,
        forall|j: int| 0 <= j < list.len() && j != k ==> (#[trigger] list[j]).id@ != id,
    ensures
        space_at(list, id, i) == Some(k),
    decreases k - i,
{
    if i < k {
        assert(list[i].id@ != id);
        a_space_is_found(list, id, i + 1, k);
    }
}

/// A space is made under the name that was typed, unless that is blank or
/// another space has it.
pub proof fn a_new_space_has_a_name_of_its_own(p: SpacePicker)
    ensures
        p.new_name() matches Some(n) ==> n == trim(p.edit@) && !blank(n) && forall|i: int|
            0 <= i < p.cache@.len() ==> (#[trigger] p.cache@[i]).name@ != n,
        p.new_name() is None ==> blank(p.edit@) || exists|i: int|
            0 <= i < p.cache@.len() && (#[trigger] p.cache@[i]).name@ == trim(p.edit@),
{
    trimming_cuts_whitespace(p.edit@);
    let n = trim(p.edit@);
    if n.len() > 0 && blank(n) {
        crate::text_laws::trimmed_text_stays(n);
    }
    if !name_taken(p.cache@, n) {
        assert forall|i: int| 0 <= i < p.cache@.len() implies (#[trigger] p.cache@[i]).name@
            != n by {}
    }
}

/// A model that is fetched for the transcriber becomes the one that is set,
/// one at a time.
pub proof fn a_fetch_sets_the_transcriber(
    config: Config,
    after: Config,
    jobs: (Jobs, Jobs),
    screen: (Screen, Screen),
    effects: Seq<EffectView>,
    arg: Seq<char>,
)
    requires
        installing(config, after, jobs, screen, effects, arg),
    ensures
        jobs.0.ocr_pull ==> after == config && effects.len() == 0,
        !jobs.0.ocr_pull ==> jobs.1.ocr_pull && effects.len() == 2,
        !jobs.0.ocr_pull && arg.len() > 0 ==> after.local_ocr_model@ == arg && effects[1] == (
        EffectView::PullOcrModel { model: arg }),
{
}

/// A persona that was edited is kept as it was written, in its place; with the
/// others that have a name.
pub proof fn an_edited_persona_is_kept(
    before: (SwarmState, Screen),
    after: (SwarmState, Screen),
    text: Seq<char>,
    p: PersonaView,
)
    requires
        edit_step(before, after, text, true),
        persona_in(text) == Ok::<PersonaView, Seq<char>>(p),
        (before.0.selected as int) < before.0.cache@.len(),
    ensures
        views(after.0.cache@) == named_only(
            views(before.0.cache@).update(before.0.selected as int, p),
        ),
        after.1.status@ == "persona saved"@,
{
}

/// An edit that cannot be read tells why, and leaves a named persona alone.
pub proof fn an_unreadable_edit_is_ignored(
    before: (SwarmState, Screen),
    after: (SwarmState, Screen),
    text: Seq<char>,
    worked: bool,
    e: Seq<char>,
)
    requires
        edit_step(before, after, text, worked),
        persona_in(text) == Err::<PersonaView, Seq<char>>(e),
        (before.0.selected as int) < before.0.cache@.len(),
        !blank(views(before.0.cache@)[before.0.selected as int].name),
    ensures
        after.0 == before.0,
        e.is_suffix_of(after.1.status@),
{
    let roster = views(before.0.cache@);
    trimming_cuts_whitespace(roster[before.0.selected as int].name);
    let s = "persona edit ignored: "@ + e;
    assert(s.skip(s.len() - e.len()) =~= e);
}

/// A new persona stands behind the others, with the model of the conversation,
/// and is the one that is edited.
pub proof fn a_new_persona_is_edited(
    before: (SwarmState, Screen),
    after: (SwarmState, Screen),
    model: Seq<char>,
    path: String,
)
    requires
        editor_step(before, after, true, model, Some(path)),
    ensures
        ({
            let roster = views(after.0.cache@);
            &&& roster.len() == before.0.cache@.len() + 1
            &&& roster.drop_last() == views(before.0.cache@)
            &&& roster.last().model == model
            &&& roster.last().name.len() == 0
            &&& after.0.selected == before.0.cache@.len()
            &&& after.1.pending_editor == Some(PendingEditor::Persona(path))
        }),
{
    assert(views(after.0.cache@).drop_last() =~= views(before.0.cache@));
}

/// A persona that is removed leaves, and no other.
pub proof fn a_removed_persona_leaves(roster: Seq<PersonaView>, selected: int, i: int)
    requires
        0 <= selected < roster.len(),
        0 <= i < roster.len() - 1,
    ensures
        roster_without(roster, selected).len() == roster.len() - 1,
        roster_without(roster, selected)[i] == (if i < selected {
            roster[i]
        } else {
            roster[i + 1]
        }),
{
}

/// A preference that was stored is there after a start: favorites, when a
/// model was last used, and how much it is to think.
pub proof fn stored_preferences_come_back(
    prefs: Seq<ModelPrefView>,
    p: ModelPrefView,
    set: Set<Seq<char>>,
    map: Map<Seq<char>, Seq<char>>,
    other: Seq<char>,
)
    ensures
        p.favorite ==> with_favorites(set, prefs.push(p)).contains(p.id),
        other != p.id || !p.favorite ==> (with_favorites(set, prefs.push(p)).contains(other)
            <==> with_favorites(set, prefs).contains(other)),
        with_favorites(set, Seq::empty()) == set,
        p.last_used matches Some(t) ==> with_last_used(map, prefs.push(p)).contains_key(p.id)
            && with_last_used(map, prefs.push(p))[p.id] == t,
        p.last_used is None ==> with_last_used(map, prefs.push(p)) == with_last_used(map, prefs),
        with_last_used(map, Seq::empty()) == map,
        p.reasoning matches Some(t) ==> with_reasoning(map, prefs.push(p)).contains_key(p.id)
            && with_reasoning(map, prefs.push(p))[p.id] == t,
        p.reasoning is None ==> with_reasoning(map, prefs.push(p)) == with_reasoning(map, prefs),
        with_reasoning(map, Seq::empty()) == map,
{
    assert(prefs.push(p).drop_last() =~= prefs);
}

/// The effort of a model goes from none over low and medium to high, and back
/// to none.
pub proof fn the_effort_goes_round(c: Catalog, id: Seq<char>)
    ensures
        !c.reasoning@.contains_key(id) ==> c.effort_after(id) == Some("low"@),
        c.reasoning@.contains_key(id) && c.reasoning@[id] == "low"@ ==> c.effort_after(id) == Some(
            "medium"@,
        ),
        c.reasoning@.contains_key(id) && c.reasoning@[id] == "medium"@ ==> c.effort_after(id)
            == Some("high"@),
        c.reasoning@.contains_key(id) && c.reasoning@[id] == "high"@ ==> c.effort_after(id) is None,
{
    reveal_strlit("low");
    reveal_strlit("medium");
    reveal_strlit("high");
    assert("low"@.len() == 3 && "medium"@.len() == 6 && "high"@.len() == 4);
}

/// An effort that a model refused is cleared for that model; one that it took
/// is not.
pub proof fn a_refused_effort_is_cleared(b: Backends, c: Catalog, accepted: bool, id: Seq<char>)
    ensures
        accepted ==> effort_to_clear(b, c, accepted) is None,
        effort_to_clear(b, c, accepted) == Some(id) ==> (c.current matches Some(m) && m@ == id),
{
}

/// A topic is not derived while one is, or while a job runs, nor without a
/// model that can be reached, nor where nothing was said.
pub proof fn a_topic_is_refused_for_a_reason(
    jobs: Jobs,
    b: Backends,
    current: Option<String>,
    rows: Seq<MessageView>,
)
    ensures
        scoping_refusal(jobs, b, current, rows) is None <==> (!jobs.research_topic
            && !jobs.research && (current matches Some(m) && b.route(m@) is Some) && !blank(
            recent_talk(rows),
        )),
{
    trimming_cuts_whitespace(recent_talk(rows));
}

/// The name of a session is asked for once, for that session, of a model that
/// is told what was said.
pub proof fn a_session_is_named_after_what_was_said(
    before: App,
    after: App,
    n: int,
    q: JobRequest,
    i: int,
)
    requires
        title_asked(before, after, n, Some(q)),
        0 <= i < n <= before.talk.messages@.len(),
        before.talk.messages@[i].role@ != "tool_call"@,
    ensures
        before.talk.session matches Some(s) && s.slug is None && q.about@ == s.id@,
        within(
            before.talk.messages@[i].role@ + ": "@ + first_chars(
                before.talk.messages@[i].content@,
                500,
            ),
            q.prompt@,
        ),
        after.jobs.title,
        after.talk == before.talk,
        (before.catalog.current matches Some(m) && before.backends.route(m@) is Some) ==> Some(
            (q.backend, q.model@),
        ) == before.backends.route(before.catalog.current->0@),
{
    let rows = views(before.talk.messages@).take(n);
    assert(rows[i] == before.talk.messages@[i]@);
    let k = a_row_has_its_line(rows, i);
    let ls = crate::followup::title_lines(rows);
    joined_parts_stand(ls, "\n"@, k);
    let t = join(ls, "\n"@);
    stands_last(crate::followup::TITLE_PROMPT@, t);
    within_carries(ls[k], t, q.prompt@);
}

proof fn a_row_has_its_line(rows: Seq<MessageView>, i: int) -> (k: int)
    requires
        0 <= i < rows.len(),
        rows[i].role != "tool_call"@,
    ensures
        0 <= k < crate::followup::title_lines(rows).len(),
        crate::followup::title_lines(rows)[k] == rows[i].role + ": "@ + first_chars(
            rows[i].content,
            500,
        ),
    decreases rows.len(),
{
    if i == rows.len() - 1 {
        crate::followup::title_lines(rows).len() - 1
    } else {
        assert(rows.drop_last()[i] == rows[i]);
        a_row_has_its_line(rows.drop_last(), i)
    }
}

/// A session that has its name is not named again.
pub proof fn a_named_session_stays_named(before: App, after: App, n: int, r: Option<JobRequest>)
    requires
        title_asked(before, after, n, r),
        before.talk.session is None || before.talk.session->0.slug is Some,
    ensures
        r is None,
        after == before,
{
}

/// A name that came back is stored for its session, and shows in the list and
/// where the session is viewed.
pub proof fn a_name_is_given_to_its_session(
    before: (Conversation, SessionPicker),
    after: (Conversation, SessionPicker),
    effects: Seq<EffectView>,
    id: String,
    topic: String,
    slug: String,
    k: int,
)
    requires
        0 <= k < before.1.cache@.len(),
        before.1.cache@[k].id@ == id@,
        forall|j: int|
            0 <= j < before.1.cache@.len() && j != k ==> (#[trigger] before.1.cache@[j]).id@
                != id@,
        titled(before, after, effects, Some((id, topic, slug))),
    ensures
        effects == seq![
            EffectView::SetSessionTitle { session_id: id@, title: topic@, slug: Some(slug@) },
        ],
        before.0.is_of(id@) ==> (after.0.session matches Some(s) && s.title == topic && s.slug
            == Some(slug) && s.id == before.0.session->0.id),
        !before.0.is_of(id@) ==> after.0 == before.0,
        after.0.messages == before.0.messages,
        after.1.cache@.len() == before.1.cache@.len(),
        after.1.cache@[k].title == topic && after.1.cache@[k].slug == Some(slug)
            && after.1.cache@[k].id == before.1.cache@[k].id,
        forall|j: int|
            0 <= j < before.1.cache@.len() && j != k ==> #[trigger] after.1.cache@[j]
                == before.1.cache@[j],
{
    a_session_is_found(before.1.cache@, id@, 0, k);
}

/// Facts are extracted from the last exchange, for the space that is active,
/// with what is known already.
pub proof fn facts_are_taken_from_the_exchange(
    before: App,
    after: App,
    n: int,
    memory: Seq<char>,
    q: JobRequest,
)
    requires
        memory_asked(before, after, n, memory, Some(q)),
        n <= before.talk.messages@.len(),
    ensures
        n >= 2,
        before.talk.messages@[n - 2].role@ == "user"@,
        before.talk.messages@[n - 1].role@ == "assistant"@,
        within(
            "user: "@ + first_chars(before.talk.messages@[n - 2].content@, 2000),
            q.prompt@,
        ),
        within(
            "assistant: "@ + first_chars(before.talk.messages@[n - 1].content@, 2000),
            q.prompt@,
        ),
        within(first_chars(memory, crate::memory::MAX_MEMORY_CHARS as int), q.prompt@),
        q.about@ == before.active_space.name@,
        q.model@ == before.config.memory_model@,
        Some(q.backend) == before.backends.first(),
        after.jobs.memory,
{
    let rows = views(before.talk.messages@);
    assert(rows[n - 2] == before.talk.messages@[n - 2]@);
    assert(rows[n - 1] == before.talk.messages@[n - 1]@);
    the_memory_model_knows_the_exchange(
        first_chars(memory, crate::memory::MAX_MEMORY_CHARS as int),
        rows[n - 2].content,
        rows[n - 1].content,
    );
}

/// A fact that was learned stands in the memory that is written.
pub proof fn a_learned_fact_is_written(
    active: Seq<char>,
    space: String,
    ops: Vec<MemoryOp>,
    memory: Seq<char>,
    i: int,
    fact: String,
)
    requires
        space@ == active,
        0 <= i < ops@.len(),
        ops@[i] == MemoryOp::Add(fact),
    ensures
        ({
            let w = memory_writes(active, Some((space, ops)), memory);
            w.len() == 1 && (w[0] matches EffectView::WriteMemory { text } && within(
                ". "@ + fact@ + "\n"@,
                text,
            ))
        }),
{
    let facts = facts_of(
        lines(first_chars(memory, crate::memory::MAX_MEMORY_CHARS as int)),
    );
    assert(views(ops@)[i] == ops@[i]@);
    every_added_fact_is_there(facts, views(ops@), i, fact@);
    let all = changed_facts(facts, views(ops@));
    let k = choose|k: int| 0 <= k < all.len() && all[k] == fact@;
    a_fact_has_its_line(all, k);
    let line = decimal((k + 1) as nat) + ". "@ + fact@ + "\n"@;
    let part = ". "@ + fact@ + "\n"@;
    assert(line =~= decimal((k + 1) as nat) + part);
    stands_last(decimal((k + 1) as nat), part);
    within_carries(part, line, memory_file(all));
}

/// Every fact has its line in the memory file, under its number.
pub proof fn a_fact_has_its_line(facts: Seq<Seq<char>>, k: int)
    requires
        0 <= k < facts.len(),
    ensures
        within(decimal((k + 1) as nat) + ". "@ + facts[k] + "\n"@, memory_file(facts)),
    decreases facts.len(),
{
    let before = memory_file(facts.drop_last());
    let last = decimal(facts.len()) + ". "@ + facts.last() + "\n"@;
    assert(memory_file(facts) =~= before + last);
    if k == facts.len() - 1 {
        stands_last(before, last);
    } else {
        a_fact_has_its_line(facts.drop_last(), k);
        assert(facts.drop_last()[k] == facts[k]);
        crate::text_laws::stands_first(before, last);
        within_carries(
            decimal((k + 1) as nat) + ". "@ + facts[k] + "\n"@,
            before,
            memory_file(facts),
        );
    }
}

/// What was learned in another space, or nothing, is not written.
pub proof fn other_spaces_are_not_written(
    active: Seq<char>,
    space: String,
    ops: Vec<MemoryOp>,
    memory: Seq<char>,
)
    ensures
        space@ != active || ops@.len() == 0 ==> memory_writes(
            active,
            Some((space, ops)),
            memory,
        ).len() == 0,
        memory_writes(active, None, memory).len() == 0,
{
}

/// A conversation is compacted once it takes the share of the context that is
/// set, and not before.
pub proof fn a_full_context_is_compacted(
    before: App,
    after: App,
    n: nat,
    prompt: Seq<char>,
    skill: Seq<char>,
    r: Option<CompactRequest>,
)
    requires
        compaction_due(before, after, n, prompt, skill, r),
    ensures
        r is Some ==> {
            &&& before.config.settings.compact_threshold > 0
            &&& !before.jobs.compact
            &&& before.catalog.limit() matches Some(l) && l > 0 && before.tokens_within(
                n,
                prompt,
                skill,
            ) * 100 >= before.config.settings.compact_threshold * l
        },
        r is None ==> after.jobs == before.jobs,
        after.talk == before.talk && after.config == before.config,
{
    if r is Some {
        let l = before.catalog.limit()->0 as nat;
        let used = before.tokens_within(n, prompt, skill);
        let t = before.config.settings.compact_threshold as nat;
        let p = percent(used, l);
        assert(p >= t && t > 0);
        assert(l > 0);
        assert(used * 100 >= t * l) by (nonlinear_arith)
            requires
                l > 0,
                t <= (used * 100) / l,
        ;
    }
}

} // verus!
