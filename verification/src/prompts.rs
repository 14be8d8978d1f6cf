//! The system prompt and its sections.

use crate::chat::{
    human_size, shown_size, verbosity_clause, verbosity_words, web_mode_clause, web_mode_words,
};
use crate::digest::{base64_of, base64_text, encodable};
use crate::memory::{capped_memory, MAX_MEMORY_CHARS};
use crate::pipeline::concat;
use crate::provider::{ChatMessage, ChatMessageView};
use crate::state::Config;
use crate::store::{FileRow, ScriptRow, Skill};
use crate::text::{
    count, first_chars, join, joined, lower, lowered, opt_text, replace_all, replaced, rest_of,
    rfind_char, rfound_char, same, texts, texts_push, trim, trim_end, trimmed, trimmed_end, views,
};
use vstd::prelude::*;
use vstd::string::*;

verus! {

/// How the section on skills begins.
pub const SKILLS_HEAD: &'static str = "## Skills\nYou have skills available. To use one, call the `skill` tool with its name; the full instructions will be returned.\n";

/// How the section on scripts begins.
pub const SCRIPTS_HEAD: &'static str = "## Scripts\nThe user has reusable scripts in this space. Call `script_files(action=read, path=...)` to see one, `script_files(action=edit, path=..., edits=...)` to modify, or `run_script(space=true, path=...)` to execute. The `path` parameter is relative to the scripts dir — do NOT prefix `scripts/`.\n";

/// How the section on files begins.
pub const FILES_HEAD: &'static str = "## Files\nThe user has imported these files into this space. Do not guess their contents: call `files(action=search, query=...)` to find relevant passages, or `files(action=read, name=...)` to read one (200 lines per call, use offset to page).\n";

/// How the section on apps begins.
pub const APPS_HEAD: &'static str = "## Apps\nYou can build apps served locally. ALWAYS use the KV store for persistence (not LocalStorage), the upload endpoint for file uploads, and app_assets to bring user data into the app.\n\n**CRITICAL: URLs are UUID-based.** The UUID comes from `app_modify(action=write)`'s result (\"live at http://...\"). Copy it from there — never invent or guess a UUID. If you don't have the result, call `app_inspect(action=read)` or `app_inspect(action=search)` on the app to rediscover it.\n\n### Tools\n- `app_modify(action=write, app, path, content)` — create/replace a file. App can be a name or UUID; a new app gets a UUID.\n- `app_inspect(action=read, app, path)` / `app_modify(action=patch, app, path, edits)` — read and edit by hashline.\n- `app_modify(action=diff, app, path, content)` — preview a complete-file change without writing it.\n- `app_inspect(action=search, app, pattern)` — search non-ignored app files; respects `.gitignore`.\n- `install_packages(app=..., packages=[...])` — npm-install into an app.\n- `app_assets(action=list)` — list pasted conversation images.\n- `app_assets(action=copy_images, image_ids, app)` — copy images into `_images/` for `<img src=\"...\">`.\n- `app_assets(action=copy_file, file_name, app)` — copy a space file's text into the app's KV store.\n\n### KV Store (persistent key-value per app)\nEach app has a SQLite-backed KV store. Call these from frontend JS:\n- `PUT <app_url>/_api/kv/<key>` — upsert a value (body = raw text)\n- `GET <app_url>/_api/kv/<key>` — read a value\n- `DELETE <app_url>/_api/kv/<key>` — delete a value\n- `GET <app_url>/_api/kv` — list all keys (returns JSON array)\n\n### File Upload\n- `POST <app_url>/_api/upload` with `multipart/form-data` — upload a file. Returns `{\"name\", \"url\"}`. Files persist and are served via GET.\n\n### Using User Images\n1. `app_assets(action=list)` to see conversation images.\n2. `app_assets(action=copy_images, image_ids, app)` to copy them into `_images/`.\n3. Use returned URLs in `<img src=\"...\">` tags.\n\n### Using Space Files\n- `app_assets(action=copy_file, file_name, app)` copies file text into KV under `_file:<name>`. Read it via `GET <app_url>/_api/kv/_file:<name>`.\n\n";

/// What a research session tells the model.
pub const RESEARCH_CLAUSE: &'static str = "This session came from /research — prefer research_lookup with scope=session_sources over search with mode=web for follow-ups; only use web search on a miss.";

/// The base prompt with the answer length and the time filled in.
pub open spec fn base_prompt(raw: Seq<char>, verbosity: Seq<char>, now: Seq<char>) -> Seq<char> {
    replace_all(
        replace_all(raw, "{{verbosity}}"@, verbosity_words(verbosity)),
        "{{datetime}}"@,
        now,
    )
}

/// The base prompt with the answer length and the time filled in.
pub fn resolved_base_system_prompt(config: &Config, now: &str) -> (r: String)
    ensures
        r@ == base_prompt(config.base_system_prompt@, config.verbosity@, now@),
{
    proof {
        reveal_strlit("{{verbosity}}");
        reveal_strlit("{{datetime}}");
    }
    let s = replaced(
        config.base_system_prompt.as_str(),
        "{{verbosity}}",
        verbosity_clause(config.verbosity.as_str()),
    );
    replaced(s.as_str(), "{{datetime}}", now)
}

/// The lines on skills.
pub open spec fn skill_lines(list: Seq<Skill>) -> Seq<char>
    decreases list.len(),
{
    if list.len() == 0 {
        Seq::empty()
    } else {
        let s = list.last();
        skill_lines(list.drop_last()) + "- "@ + s.name@ + ": "@ + s.description@ + "\n"@
    }
}

/// The section on skills, where there are any.
pub open spec fn skills_words(list: Seq<Skill>) -> Option<Seq<char>> {
    if list.len() == 0 { None } else { Some(trim_end(SKILLS_HEAD@ + skill_lines(list))) }
}

/// Whether an optional section is this one.
pub open spec fn section_is(r: Option<String>, s: Option<Seq<char>>) -> bool {
    opt_text(r) == s
}

/// The names and descriptions of the installed skills, and how to use one.
pub fn skills_section(list: &Vec<Skill>) -> (r: Option<String>)
    ensures
        section_is(r, skills_words(list@)),
{
    if list.len() == 0 {
        return None;
    }
    let mut lines = String::new();
    let mut i: usize = 0;
    assert(list@.take(0) =~= Seq::<Skill>::empty());
    while i < list.len()
        invariant
            i <= list@.len(),
            lines@ == skill_lines(list@.take(i as int)),
        decreases list@.len() - i,
    {
        proof {
            let t = list@.take(i + 1);
            assert(t.drop_last() =~= list@.take(i as int));
            assert(t.last() == list@[i as int]);
        }
        lines.append("- ");
        lines.append(list[i].name.as_str());
        lines.append(": ");
        lines.append(list[i].description.as_str());
        lines.append("\n");
        i += 1;
    }
    assert(list@.take(i as int) =~= list@);
    let s = concat(SKILLS_HEAD, lines.as_str());
    Some(trimmed_end(s.as_str()).to_owned())
}

/// The lines on scripts.
pub open spec fn script_lines(list: Seq<ScriptRow>) -> Seq<char>
    decreases list.len(),
{
    if list.len() == 0 {
        Seq::empty()
    } else {
        let s = list.last();
        script_lines(list.drop_last()) + "- "@ + s.name@ + " ("@ + shown_size(s.size as nat)
            + ")\n"@
    }
}

/// The section on scripts, where there are any.
pub open spec fn scripts_words(list: Seq<ScriptRow>) -> Option<Seq<char>> {
    if list.len() == 0 { None } else { Some(trim_end(SCRIPTS_HEAD@ + script_lines(list))) }
}

/// The names and sizes of the scripts of the space, and how to use one.
pub fn scripts_section(list: &Vec<ScriptRow>) -> (r: Option<String>)
    ensures
        section_is(r, scripts_words(list@)),
{
    if list.len() == 0 {
        return None;
    }
    let mut lines = String::new();
    let mut i: usize = 0;
    assert(list@.take(0) =~= Seq::<ScriptRow>::empty());
    while i < list.len()
        invariant
            i <= list@.len(),
            lines@ == script_lines(list@.take(i as int)),
        decreases list@.len() - i,
    {
        proof {
            let t = list@.take(i + 1);
            assert(t.drop_last() =~= list@.take(i as int));
            assert(t.last() == list@[i as int]);
        }
        lines.append("- ");
        lines.append(list[i].name.as_str());
        lines.append(" (");
        lines.append(human_size(list[i].size).as_str());
        lines.append(")\n");
        i += 1;
    }
    assert(list@.take(i as int) =~= list@);
    let s = concat(SCRIPTS_HEAD, lines.as_str());
    Some(trimmed_end(s.as_str()).to_owned())
}

/// The extension of the name of a file in a directory: what follows the last
/// dot, unless that dot comes first.
pub open spec fn extension(name: Seq<char>) -> Option<Seq<char>> {
    match rfind_char(name, '.') {
        Some(i) if i > 0 && name != ".."@ => Some(name.skip(i + 1)),
        _ => None,
    }
}

/// The extension of the name of a file in a directory.
pub fn extension_of(name: &str) -> (r: Option<&str>)
    ensures
        match r {
            Some(e) => extension(name@) == Some(e@),
            None => extension(name@) is None,
        },
{
    let n: usize = count(name);
    match rfound_char(name, '.') {
        Some(i) => {
            assert(i < n);
            if i > 0 && !same(name, "..") {
                Some(rest_of(name, i + 1))
            } else {
                None
            }
        },
        None => None,
    }
}

/// The kind of a file, by its extension.
pub open spec fn file_kind(name: Seq<char>) -> Seq<char> {
    lower(
        match extension(name) {
            Some(e) => e,
            None => "file"@,
        },
    )
}

/// The size of a file without its sign.
pub open spec fn magnitude(n: i64) -> nat {
    if n < 0 { (-n) as nat } else { n as nat }
}

fn magnitude_of(n: i64) -> (r: u64)
    ensures
        r == magnitude(n),
{
    if n >= 0 {
        n as u64
    } else {
        (-(n + 1)) as u64 + 1
    }
}

/// The lines on files.
pub open spec fn file_lines(list: Seq<FileRow>) -> Seq<char>
    decreases list.len(),
{
    if list.len() == 0 {
        Seq::empty()
    } else {
        let f = list.last();
        file_lines(list.drop_last()) + "- "@ + f.name@ + " ("@ + file_kind(f.name@) + ", "@
            + shown_size(magnitude(f.size)) + ", "@ + f.status@ + ")\n"@
    }
}

/// The section on files, where there are any.
pub open spec fn files_words(list: Seq<FileRow>) -> Option<Seq<char>> {
    if list.len() == 0 { None } else { Some(trim_end(FILES_HEAD@ + file_lines(list))) }
}

/// The names, kinds, sizes and statuses of the files of the space, and how to
/// read one.
pub fn files_section(list: &Vec<FileRow>) -> (r: Option<String>)
    ensures
        section_is(r, files_words(list@)),
{
    if list.len() == 0 {
        return None;
    }
    let mut lines = String::new();
    let mut i: usize = 0;
    assert(list@.take(0) =~= Seq::<FileRow>::empty());
    while i < list.len()
        invariant
            i <= list@.len(),
            lines@ == file_lines(list@.take(i as int)),
        decreases list@.len() - i,
    {
        proof {
            let t = list@.take(i + 1);
            assert(t.drop_last() =~= list@.take(i as int));
            assert(t.last() == list@[i as int]);
        }
        let f = &list[i];
        let kind = match extension_of(f.name.as_str()) {
            Some(e) => lowered(e),
            None => lowered("file"),
        };
        lines.append("- ");
        lines.append(f.name.as_str());
        lines.append(" (");
        lines.append(kind.as_str());
        lines.append(", ");
        lines.append(human_size(magnitude_of(f.size)).as_str());
        lines.append(", ");
        lines.append(f.status.as_str());
        lines.append(")\n");
        i += 1;
    }
    assert(list@.take(i as int) =~= list@);
    let s = concat(FILES_HEAD, lines.as_str());
    Some(trimmed_end(s.as_str()).to_owned())
}

/// The lines on apps: the name of each and, where the server knows it, its id.
pub open spec fn app_lines(apps: Seq<(String, Option<String>)>) -> Seq<char>
    decreases apps.len(),
{
    if apps.len() == 0 {
        Seq::empty()
    } else {
        let before = app_lines(apps.drop_last());
        match apps.last().1 {
            Some(id) => before + "- "@ + apps.last().0@ + " (uuid "@ + id@ + ")\n"@,
            None => before + "- "@ + apps.last().0@ + "\n"@,
        }
    }
}

/// The section on apps, where the server of apps runs and the client is not
/// incognito.
pub open spec fn apps_words(
    incognito: bool,
    server: bool,
    apps: Seq<(String, Option<String>)>,
) -> Option<Seq<char>> {
    if incognito || !server {
        None
    } else if apps.len() == 0 {
        Some(trim_end(APPS_HEAD@ + "No apps exist in this space yet."@))
    } else {
        Some(trim_end(APPS_HEAD@ + "Existing apps:\n"@ + app_lines(apps)))
    }
}

/// How to build apps that the client serves, and which there are.
pub fn apps_section(incognito: bool, server: bool, apps: &Vec<(String, Option<String>)>) -> (r:
    Option<String>)
    ensures
        section_is(r, apps_words(incognito, server, apps@)),
{
    if incognito || !server {
        return None;
    }
    let mut s = APPS_HEAD.to_owned();
    if apps.len() == 0 {
        s.append("No apps exist in this space yet.");
        return Some(trimmed_end(s.as_str()).to_owned());
    }
    let mut lines = String::new();
    let mut i: usize = 0;
    assert(apps@.take(0) =~= Seq::<(String, Option<String>)>::empty());
    while i < apps.len()
        invariant
            i <= apps@.len(),
            lines@ == app_lines(apps@.take(i as int)),
        decreases apps@.len() - i,
    {
        proof {
            let t = apps@.take(i + 1);
            assert(t.drop_last() =~= apps@.take(i as int));
            assert(t.last() == apps@[i as int]);
        }
        lines.append("- ");
        lines.append(apps[i].0.as_str());
        match &apps[i].1 {
            Some(id) => {
                lines.append(" (uuid ");
                lines.append(id.as_str());
                lines.append(")\n");
            },
            None => {
                lines.append("\n");
            },
        }
        i += 1;
    }
    assert(apps@.take(i as int) =~= apps@);
    s.append("Existing apps:\n");
    s.append(lines.as_str());
    Some(trimmed_end(s.as_str()).to_owned())
}

/// What the system prompt takes from outside: the time and the day, the
/// instructions and the memory of the space where they can be read, the apps
/// with their ids, and whether the session came from a research job.
pub struct PromptInputs {
    pub now: String,
    pub today: String,
    pub instructions: Option<String>,
    pub memory: String,
    pub apps: Vec<(String, Option<String>)>,
    pub research: bool,
}

/// A part of the prompt, where there is one.
pub open spec fn part(s: Option<Seq<char>>) -> Seq<Seq<char>> {
    match s {
        Some(t) => seq![t],
        None => Seq::empty(),
    }
}

/// The instructions of the space, unless they are blank.
pub open spec fn instructions_words(s: Option<Seq<char>>) -> Option<Seq<char>> {
    match s {
        Some(t) if trim(t).len() > 0 => Some(trim(t)),
        _ => None,
    }
}

/// The section on the memory of the space, unless it is blank.
pub open spec fn memory_words(text: Seq<char>) -> Option<Seq<char>> {
    let memory = first_chars(text, MAX_MEMORY_CHARS as int);
    if trim(memory).len() > 0 { Some("## Memory\n"@ + memory) } else { None }
}

/// The parts of the prompt that speak of the space; none in incognito mode.
pub open spec fn space_parts(
    incognito: bool,
    server: bool,
    files: Seq<FileRow>,
    scripts: Seq<ScriptRow>,
    i: PromptInputs,
) -> Seq<Seq<char>> {
    if incognito {
        Seq::empty()
    } else {
        part(instructions_words(opt_text(i.instructions))) + part(files_words(files))
            + part(apps_words(incognito, server, i.apps@)) + part(scripts_words(scripts)) + part(
            memory_words(i.memory@),
        )
    }
}

/// The parts of the system prompt, in their order.
pub open spec fn prompt_parts(
    config: Config,
    incognito: bool,
    server: bool,
    web_mode: bool,
    files: Seq<FileRow>,
    scripts: Seq<ScriptRow>,
    skills: Seq<Skill>,
    i: PromptInputs,
) -> Seq<Seq<char>> {
    seq![base_prompt(config.base_system_prompt@, config.verbosity@, i.now@)] + space_parts(
        incognito,
        server,
        files,
        scripts,
        i,
    ) + part(skills_words(skills)) + part(
        if web_mode {
            Some(web_mode_words(i.today@))
        } else {
            None
        },
    ) + part(
        if i.research {
            Some(RESEARCH_CLAUSE@)
        } else {
            None
        },
    )
}

fn add_part(parts: &mut Vec<String>, s: Option<String>)
    ensures
        texts(final(parts)@) == texts(old(parts)@) + part(opt_text(s)),
{
    match s {
        Some(t) => {
            proof {
                texts_push(parts@, t);
            }
            parts.push(t);
            assert(texts(old(parts)@).push(t@) =~= texts(old(parts)@) + seq![t@]);
        },
        None => {
            assert(texts(parts@) =~= texts(parts@) + Seq::<Seq<char>>::empty());
        },
    }
}

fn instructions_part(s: &Option<String>) -> (r: Option<String>)
    ensures
        section_is(r, instructions_words(opt_text(*s))),
{
    match s {
        Some(t) => {
            let own = trimmed(t.as_str());
            if own.is_empty() {
                None
            } else {
                Some(own.to_owned())
            }
        },
        None => None,
    }
}

fn memory_part(text: &str) -> (r: Option<String>)
    ensures
        section_is(r, memory_words(text@)),
{
    let memory = capped_memory(text);
    if trimmed(memory.as_str()).is_empty() {
        None
    } else {
        Some(concat("## Memory\n", memory.as_str()))
    }
}

fn parts_of_space(
    server: bool,
    files: &Vec<FileRow>,
    scripts: &Vec<ScriptRow>,
    i: &PromptInputs,
    parts: &mut Vec<String>,
)
    ensures
        texts(final(parts)@) == texts(old(parts)@) + space_parts(
            false,
            server,
            files@,
            scripts@,
            *i,
        ),
{
    add_part(parts, instructions_part(&i.instructions));
    add_part(parts, files_section(files));
    add_part(parts, apps_section(false, server, &i.apps));
    add_part(parts, scripts_section(scripts));
    add_part(parts, memory_part(i.memory.as_str()));
    assert(texts(parts@) =~= texts(old(parts)@) + space_parts(false, server, files@, scripts@, *i));
}

/// The system prompt: the base prompt, then what there is of instructions,
/// files, apps, scripts and memory unless the client is incognito, then the
/// skills and what the session asks for.
pub fn system_prompt(
    config: &Config,
    incognito: bool,
    server: bool,
    web_mode: bool,
    files: &Vec<FileRow>,
    scripts: &Vec<ScriptRow>,
    skills: &Vec<Skill>,
    i: &PromptInputs,
) -> (r: String)
    ensures
        r@ == join(
            prompt_parts(*config, incognito, server, web_mode, files@, scripts@, skills@, *i),
            "\n\n"@,
        ),
{
    let mut parts: Vec<String> = Vec::new();
    parts.push(resolved_base_system_prompt(config, i.now.as_str()));
    let ghost base = base_prompt(config.base_system_prompt@, config.verbosity@, i.now@);
    assert(texts(parts@) =~= seq![base]);
    if !incognito {
        parts_of_space(server, files, scripts, i, &mut parts);
    } else {
        assert(texts(parts@) =~= seq![base] + Seq::<Seq<char>>::empty());
    }
    add_part(&mut parts, skills_section(skills));
    add_part(
        &mut parts,
        if web_mode {
            Some(web_mode_clause(i.today.as_str()))
        } else {
            None
        },
    );
    add_part(
        &mut parts,
        if i.research {
            Some(RESEARCH_CLAUSE.to_owned())
        } else {
            None
        },
    );
    joined(&parts, "\n\n")
}

/// In incognito mode nothing of the space reaches the model: the prompt does
/// not depend on its instructions, files, apps, scripts or memory.
pub proof fn incognito_prompt_knows_no_space(
    config: Config,
    server: bool,
    web_mode: bool,
    skills: Seq<Skill>,
    files: Seq<FileRow>,
    scripts: Seq<ScriptRow>,
    i: PromptInputs,
    other_files: Seq<FileRow>,
    other_scripts: Seq<ScriptRow>,
    j: PromptInputs,
)
    requires
        i.now == j.now,
        i.today == j.today,
        i.research == j.research,
    ensures
        prompt_parts(config, true, server, web_mode, files, scripts, skills, i) == prompt_parts(
            config,
            true,
            server,
            web_mode,
            other_files,
            other_scripts,
            skills,
            j,
        ),
{
}

/// The media type of an image, by the extension of its file.
pub open spec fn image_type(ext: Seq<char>) -> Seq<char> {
    if ext == "jpg"@ || ext == "jpeg"@ {
        "image/jpeg"@
    } else if ext == "gif"@ {
        "image/gif"@
    } else if ext == "webp"@ {
        "image/webp"@
    } else if ext == "bmp"@ {
        "image/bmp"@
    } else {
        "image/png"@
    }
}

fn image_type_of(ext: &str) -> (r: &'static str)
    ensures
        r@ == image_type(ext@),
{
    if same(ext, "jpg") || same(ext, "jpeg") {
        "image/jpeg"
    } else if same(ext, "gif") {
        "image/gif"
    } else if same(ext, "webp") {
        "image/webp"
    } else if same(ext, "bmp") {
        "image/bmp"
    } else {
        "image/png"
    }
}

/// An image file of the space: its name and its bytes, where it can be read.
pub struct SpaceImage {
    pub name: String,
    pub bytes: Option<Vec<u8>>,
}

/// The extension of a file that may have none.
pub open spec fn plain_extension(name: Seq<char>) -> Seq<char> {
    match extension(name) {
        Some(e) => e,
        None => Seq::empty(),
    }
}

/// An image as a URL that holds it.
pub open spec fn image_url(name: Seq<char>, bytes: Seq<u8>) -> Seq<char> {
    "data:"@ + image_type(plain_extension(name)) + ";base64,"@ + base64_text(bytes)
}

/// The URLs of the images that can be read.
pub open spec fn image_urls(images: Seq<SpaceImage>) -> Seq<Seq<char>>
    decreases images.len(),
{
    if images.len() == 0 {
        Seq::empty()
    } else {
        let before = image_urls(images.drop_last());
        match images.last().bytes {
            Some(b) => before.push(image_url(images.last().name@, b@)),
            None => before,
        }
    }
}

/// The names of images.
pub open spec fn image_names(images: Seq<SpaceImage>) -> Seq<Seq<char>> {
    images.map_values(|i: SpaceImage| i.name@)
}

/// What shows the images of the space to a model, where any can be read.
pub open spec fn images_message(images: Seq<SpaceImage>) -> Option<ChatMessageView> {
    if image_urls(images).len() == 0 {
        None
    } else {
        Some(
            ChatMessageView {
                role: "system"@,
                content: "The user has these image files in this space which you can see below: "@
                    + join(image_names(images), ", "@),
                tool_calls: None,
                tool_call_id: None,
                images: image_urls(images),
            },
        )
    }
}

fn url_of(name: &str, bytes: &Vec<u8>) -> (r: String)
    requires
        encodable(bytes@),
    ensures
        r@ == image_url(name@, bytes@),
{
    let kind = match extension_of(name) {
        Some(e) => image_type_of(e),
        None => image_type_of(""),
    };
    proof {
        reveal_strlit("");
        assert(""@ =~= Seq::empty());
    }
    let mut s = "data:".to_owned();
    s.append(kind);
    s.append(";base64,");
    s.append(base64_of(bytes).as_str());
    s
}

/// A message that shows the image files of the space to a model.
pub fn space_images_message(images: &Vec<SpaceImage>) -> (r: Option<ChatMessage>)
    requires
        forall|i: int|
            0 <= i < images@.len() ==> ((#[trigger] images@[i]).bytes matches Some(b) ==> encodable(
                b@,
            )),
    ensures
        match r {
            Some(m) => images_message(images@) == Some(m@),
            None => images_message(images@) is None,
        },
{
    let mut urls: Vec<String> = Vec::new();
    let mut names: Vec<String> = Vec::new();
    let mut i: usize = 0;
    assert(images@.take(0) =~= Seq::<SpaceImage>::empty());
    assert(texts(urls@) =~= Seq::empty());
    assert(texts(names@) =~= image_names(images@).take(0));
    while i < images.len()
        invariant
            i <= images@.len(),
            forall|k: int|
                0 <= k < images@.len() ==> ((#[trigger] images@[k]).bytes matches Some(b)
                    ==> encodable(b@)),
            texts(urls@) == image_urls(images@.take(i as int)),
            texts(names@) == image_names(images@).take(i as int),
        decreases images@.len() - i,
    {
        proof {
            let t = images@.take(i + 1);
            assert(t.drop_last() =~= images@.take(i as int));
            assert(t.last() == images@[i as int]);
        }
        if let Some(b) = &images[i].bytes {
            let url = url_of(images[i].name.as_str(), b);
            proof {
                texts_push(urls@, url);
            }
            urls.push(url);
        }
        let name = images[i].name.clone();
        proof {
            texts_push(names@, name);
            assert(image_names(images@).take(i as int).push(name@) =~= image_names(images@).take(
                i + 1,
            ));
        }
        names.push(name);
        i += 1;
    }
    assert(images@.take(i as int) =~= images@);
    assert(image_names(images@).take(i as int) =~= image_names(images@));
    assert(texts(urls@).len() == urls@.len());
    if urls.len() == 0 {
        return None;
    }
    let mut m = ChatMessage::text(
        "system",
        concat(
            "The user has these image files in this space which you can see below: ",
            joined(&names, ", ").as_str(),
        ),
    );
    m.images = urls;
    assert(views(urls@) =~= texts(urls@));
    Some(m)
}

} // verus!
