//! What the system prompt tells a model, and what the agents of a research job
//! make of what streams in.

use crate::chat::{verbosity_words, web_mode_words};
use crate::prompts::{
    app_lines, apps_words, base_prompt, extension, file_lines, files_words, image_names, image_type,
    image_url, image_urls, images_message, instructions_words, memory_words, part, prompt_parts,
    script_lines, scripts_words, skill_lines, skills_words, space_parts, PromptInputs, SpaceImage,
    RESEARCH_CLAUSE,
};
use crate::provider::StreamEventView;
use crate::searcher::{excerpt, finding_of, grown, searcher_step, verifier_step, AgentStepView};
use crate::stages::{is_stage, last_stage, last_stage_row, with_stage, with_stage_row};
use crate::state::Config;
use crate::store::{FileRow, MessageView, ScriptRow, Skill};
use crate::text::{
    find, find_found, first_chars, is_space, join, occurs_at, opt_text, replace_all,
    rfind_char_found, trim,
};
use crate::text_laws::{
    blank, joined_parts_stand, stands_between, stands_first, stands_last, trimming_cuts_whitespace,
    trimming_the_end_cuts_whitespace, within, within_carries,
};
use vstd::prelude::*;

verus! {

/// Replacing takes the place of the first occurrence and goes on behind it;
/// text without an occurrence stays.
pub proof fn replacing_takes_the_place(a: Seq<char>, from: Seq<char>, b: Seq<char>, to: Seq<char>)
    requires
        from.len() > 0,
        forall|i: int| 0 <= i < a.len() ==> #[trigger] a[i] != from[0],
    ensures
        replace_all(a + from + b, from, to) == a + to + replace_all(b, from, to),
        replace_all(a, from, to) == a,
{
    let s = a + from + b;
    let i = a.len() as int;
    find_found(s, from);
    assert(s.subrange(i, i + from.len()) =~= from);
    assert(occurs_at(s, from, i));
    assert forall|j: int| 0 <= j < i implies !occurs_at(s, from, j) by {
        assert(s[j] == a[j]);
        if occurs_at(s, from, j) {
            assert(s.subrange(j, j + from.len())[0] == s[j]);
        }
    }
    assert(find(s, from) == Some(i));
    assert(s.take(i) =~= a);
    assert(s.skip(i + from.len()) =~= b);
    find_found(a, from);
    if let Some(k) = find(a, from) {
        assert(a.subrange(k, k + from.len())[0] == a[k]);
    }
}

/// The base prompt has the words for the verbosity and the time in the places
/// of their marks.
pub proof fn the_base_prompt_is_filled_in(
    a: Seq<char>,
    b: Seq<char>,
    c: Seq<char>,
    verbosity: Seq<char>,
    now: Seq<char>,
)
    requires
        forall|i: int| 0 <= i < a.len() ==> #[trigger] a[i] != '{',
        forall|i: int| 0 <= i < b.len() ==> #[trigger] b[i] != '{',
        forall|i: int| 0 <= i < c.len() ==> #[trigger] c[i] != '{',
        forall|i: int|
            0 <= i < verbosity_words(verbosity).len() ==> #[trigger] verbosity_words(verbosity)[i]
                != '{',
        forall|i: int| 0 <= i < now.len() ==> #[trigger] now[i] != '{',
    ensures
        base_prompt(a + "{{verbosity}}"@ + b, verbosity, now) == a + verbosity_words(verbosity) + b,
        base_prompt(a + "{{datetime}}"@ + c, verbosity, now) == a + now + c,
{
    reveal_strlit("{{verbosity}}");
    reveal_strlit("{{datetime}}");
    let v = verbosity_words(verbosity);
    replacing_takes_the_place(a, "{{verbosity}}"@, b, v);
    replacing_takes_the_place(b, "{{verbosity}}"@, b, v);
    replacing_takes_the_place(a + v + b, "{{datetime}}"@, b, now);
    let s = a + "{{datetime}}"@ + c;
    no_verbosity_mark(a, c);
    find_found(s, "{{verbosity}}"@);
    assert(replace_all(s, "{{verbosity}}"@, v) == s);
    replacing_takes_the_place(a, "{{datetime}}"@, c, now);
    replacing_takes_the_place(c, "{{datetime}}"@, c, now);
}

proof fn no_verbosity_mark(a: Seq<char>, c: Seq<char>)
    requires
        forall|i: int| 0 <= i < a.len() ==> #[trigger] a[i] != '{',
        forall|i: int| 0 <= i < c.len() ==> #[trigger] c[i] != '{',
    ensures
        find(a + "{{datetime}}"@ + c, "{{verbosity}}"@) is None,
{
    reveal_strlit("{{verbosity}}");
    reveal_strlit("{{datetime}}");
    let s = a + "{{datetime}}"@ + c;
    find_found(s, "{{verbosity}}"@);
    if let Some(k) = find(s, "{{verbosity}}"@) {
        let part = s.subrange(k, k + 13);
        assert(part[0] == s[k] && part[1] == s[k + 1] && part[2] == s[k + 2]);
        assert(part[0] == '{' && part[1] == '{' && part[2] == 'v');
        if k < a.len() {
            assert(s[k] == a[k]);
        } else if k == a.len() {
            assert(s[k + 2] == 'd');
        } else if k == a.len() + 1 {
            assert(s[k + 1] == 'd');
        } else if k < a.len() + 12 {
            assert(s[k] == "{{datetime}}"@[k - a.len()]);
        } else {
            assert(s[k] == c[k - a.len() - 12]);
        }
    }
}

/// Each level of verbosity has words of its own, and any other level is read
/// as the concise one.
pub proof fn every_verbosity_has_its_words(level: Seq<char>)
    ensures
        level == "normal"@ ==> verbosity_words(level) == crate::chat::VERBOSITY_NORMAL@,
        level == "caveman"@ ==> verbosity_words(level) == crate::chat::VERBOSITY_CAVEMAN@,
        level != "normal"@ && level != "caveman"@ ==> verbosity_words(level)
            == crate::chat::VERBOSITY_CONCISE@,
{
    reveal_strlit("normal");
    reveal_strlit("caveman");
    assert("normal"@.len() == 6 && "caveman"@.len() == 7);
}

/// The prompt begins with the base prompt, and every part of it stands in the
/// whole.
pub proof fn every_part_stands_in_the_prompt(
    config: Config,
    incognito: bool,
    server: bool,
    web_mode: bool,
    files: Seq<FileRow>,
    scripts: Seq<ScriptRow>,
    skills: Seq<Skill>,
    i: PromptInputs,
)
    ensures
        ({
            let parts = prompt_parts(
                config,
                incognito,
                server,
                web_mode,
                files,
                scripts,
                skills,
                i,
            );
            let prompt = join(parts, "\n\n"@);
            &&& parts[0] == base_prompt(config.base_system_prompt@, config.verbosity@, i.now@)
            &&& within(parts[0], prompt)
            &&& skills_words(skills) matches Some(t) ==> within(t, prompt)
            &&& web_mode ==> within(web_mode_words(i.today@), prompt)
            &&& i.research ==> within(RESEARCH_CLAUSE@, prompt)
            &&& !incognito ==> {
                &&& instructions_words(opt_text(i.instructions)) matches Some(t) ==> within(
                    t,
                    prompt,
                )
                &&& files_words(files) matches Some(t) ==> within(t, prompt)
                &&& apps_words(incognito, server, i.apps@) matches Some(t) ==> within(t, prompt)
                &&& scripts_words(scripts) matches Some(t) ==> within(t, prompt)
                &&& memory_words(i.memory@) matches Some(t) ==> within(t, prompt)
            }
        }),
{
    let base = seq![base_prompt(config.base_system_prompt@, config.verbosity@, i.now@)];
    let space = space_parts(incognito, server, files, scripts, i);
    let p1 = part(instructions_words(opt_text(i.instructions)));
    let p2 = part(files_words(files));
    let p3 = part(apps_words(incognito, server, i.apps@));
    let p4 = part(scripts_words(scripts));
    let p5 = part(memory_words(i.memory@));
    let p6 = part(skills_words(skills));
    let p7 = part(if web_mode { Some(web_mode_words(i.today@)) } else { None });
    let p8 = part(if i.research { Some(RESEARCH_CLAUSE@) } else { None });
    let parts = prompt_parts(config, incognito, server, web_mode, files, scripts, skills, i);
    joined_parts_stand(parts, "\n\n"@, 0);
    let (a, b, c) = (base + space, base + space + p6, base + space + p6 + p7);
    assert(parts == c + p8);
    assert forall|t: Seq<char>| #[trigger] parts.contains(t) implies within(
        t,
        join(parts, "\n\n"@),
    ) by {
        let k = choose|k: int| 0 <= k < parts.len() && parts[k] == t;
        joined_parts_stand(parts, "\n\n"@, k);
    }
    sum_holds(c, p8);
    sum_holds(b, p7);
    sum_holds(a, p6);
    sum_holds(base, space);
    assert(parts[0] == base[0]);
    part_holds(skills_words(skills));
    part_holds(if web_mode { Some(web_mode_words(i.today@)) } else { None });
    part_holds(if i.research { Some(RESEARCH_CLAUSE@) } else { None });
    if !incognito {
        let (d, e, f) = (p1 + p2, p1 + p2 + p3, p1 + p2 + p3 + p4);
        assert(space == f + p5);
        sum_holds(f, p5);
        sum_holds(e, p4);
        sum_holds(d, p3);
        sum_holds(p1, p2);
        part_holds(instructions_words(opt_text(i.instructions)));
        part_holds(files_words(files));
        part_holds(apps_words(incognito, server, i.apps@));
        part_holds(scripts_words(scripts));
        part_holds(memory_words(i.memory@));
    }
}

proof fn part_holds(o: Option<Seq<char>>)
    ensures
        o matches Some(t) ==> part(o).contains(t),
{
    if let Some(t) = o {
        assert(part(o)[0] == t);
    }
}

proof fn sum_holds(a: Seq<Seq<char>>, b: Seq<Seq<char>>)
    ensures
        forall|t: Seq<char>|
            (#[trigger] a.contains(t) ==> (a + b).contains(t)),
        forall|t: Seq<char>|
            (#[trigger] b.contains(t) ==> (a + b).contains(t)),
{
    assert forall|t: Seq<char>| #[trigger] a.contains(t) implies (a + b).contains(t) by {
        let k = choose|k: int| 0 <= k < a.len() && a[k] == t;
        assert((a + b)[k] == t);
    }
    assert forall|t: Seq<char>| #[trigger] b.contains(t) implies (a + b).contains(t) by {
        let k = choose|k: int| 0 <= k < b.len() && b[k] == t;
        assert((a + b)[a.len() + k] == t);
    }
}

/// What the parts hold: the instructions of the space as they are, and its
/// memory up to what is read of it.
pub proof fn instructions_and_memory_are_told(s: Seq<char>)
    ensures
        blank(s) ==> instructions_words(Some(s)) is None && memory_words(s) is None,
        !blank(s) ==> instructions_words(Some(s)) == Some(trim(s)),
        instructions_words(None) is None,
        !blank(s) && s.len() <= 120000 ==> (memory_words(s) matches Some(t) && within(s, t)),
{
    trimming_cuts_whitespace(s);
    let m = first_chars(s, 120000);
    trimming_cuts_whitespace(m);
    if blank(s) {
        assert forall|i: int| 0 <= i < m.len() implies is_space(#[trigger] m[i]) by {
            assert(m[i] == s[i]);
        }
    }
    stands_last("## Memory\n"@, s);
}

/// Whether `t` is the head and the lines, up to whitespace at the end.
pub open spec fn is_listed(t: Option<Seq<char>>, head: Seq<char>, ls: Seq<char>) -> bool {
    t matches Some(t) && t.is_prefix_of(head + ls) && blank((head + ls).skip(t.len() as int))
}

/// A section holds its head and all of its lines.
pub proof fn sections_hold_their_lines(
    skills: Seq<Skill>,
    files: Seq<FileRow>,
    scripts: Seq<ScriptRow>,
    apps: Seq<(String, Option<String>)>,
)
    ensures
        skills.len() > 0 ==> is_listed(
            skills_words(skills),
            crate::prompts::SKILLS_HEAD@,
            skill_lines(skills),
        ),
        files.len() > 0 ==> is_listed(
            files_words(files),
            crate::prompts::FILES_HEAD@,
            file_lines(files),
        ),
        scripts.len() > 0 ==> is_listed(
            scripts_words(scripts),
            crate::prompts::SCRIPTS_HEAD@,
            script_lines(scripts),
        ),
        apps.len() > 0 ==> is_listed(
            apps_words(false, true, apps),
            crate::prompts::APPS_HEAD@ + "Existing apps:\n"@,
            app_lines(apps),
        ),
{
    trimming_the_end_cuts_whitespace(crate::prompts::SKILLS_HEAD@ + skill_lines(skills));
    trimming_the_end_cuts_whitespace(crate::prompts::FILES_HEAD@ + file_lines(files));
    trimming_the_end_cuts_whitespace(crate::prompts::SCRIPTS_HEAD@ + script_lines(scripts));
    trimming_the_end_cuts_whitespace(
        crate::prompts::APPS_HEAD@ + "Existing apps:\n"@ + app_lines(apps),
    );
}

/// Every installed skill is told of, by its name and what it is for.
pub proof fn every_skill_has_its_line(list: Seq<Skill>, i: int)
    requires
        0 <= i < list.len(),
    ensures
        within("- "@ + list[i].name@ + ": "@ + list[i].description@ + "\n"@, skill_lines(list)),
        skills_words(list) is Some,
    decreases list.len(),
{
    let before = skill_lines(list.drop_last());
    let last = "- "@ + list.last().name@ + ": "@ + list.last().description@ + "\n"@;
    assert(skill_lines(list) =~= before + last);
    if i == list.len() - 1 {
        stands_last(before, last);
    } else {
        every_skill_has_its_line(list.drop_last(), i);
        stands_first(before, last);
        within_carries(
            "- "@ + list[i].name@ + ": "@ + list[i].description@ + "\n"@,
            before,
            skill_lines(list),
        );
    }
}

/// Every file of the space is told of, by its name, its kind, its size and how
/// it stands in the index.
pub proof fn every_file_has_its_line(list: Seq<FileRow>, i: int)
    requires
        0 <= i < list.len(),
    ensures
        within("- "@ + list[i].name@ + " ("@, file_lines(list)),
        within(", "@ + list[i].status@ + ")\n"@, file_lines(list)),
        files_words(list) is Some,
    decreases list.len(),
{
    let before = file_lines(list.drop_last());
    let f = list.last();
    let kind = crate::prompts::file_kind(f.name@);
    let size = crate::chat::shown_size(crate::prompts::magnitude(f.size));
    let head = "- "@ + f.name@ + " ("@;
    let tail = ", "@ + f.status@ + ")\n"@;
    let all = file_lines(list);
    assert(all =~= before + head + (kind + ", "@ + size + tail));
    assert(all =~= (before + head + kind + ", "@ + size) + tail);
    if i == list.len() - 1 {
        stands_between(before, head, kind + ", "@ + size + tail);
        stands_last(before + head + kind + ", "@ + size, tail);
    } else {
        every_file_has_its_line(list.drop_last(), i);
        let rest = head + (kind + ", "@ + size + tail);
        assert(all =~= before + rest);
        stands_first(before, rest);
        within_carries("- "@ + list[i].name@ + " ("@, before, all);
        within_carries(", "@ + list[i].status@ + ")\n"@, before, all);
    }
}

/// Every script of the space is told of, by its name.
pub proof fn every_script_has_its_line(list: Seq<ScriptRow>, i: int)
    requires
        0 <= i < list.len(),
    ensures
        within("- "@ + list[i].name@ + " ("@, script_lines(list)),
        scripts_words(list) is Some,
    decreases list.len(),
{
    let before = script_lines(list.drop_last());
    let s = list.last();
    let head = "- "@ + s.name@ + " ("@;
    let rest = crate::chat::shown_size(s.size as nat) + ")\n"@;
    let all = script_lines(list);
    assert(all =~= before + head + rest);
    if i == list.len() - 1 {
        stands_between(before, head, rest);
    } else {
        every_script_has_its_line(list.drop_last(), i);
        assert(all =~= before + (head + rest));
        stands_first(before, head + rest);
        within_carries("- "@ + list[i].name@ + " ("@, before, all);
    }
}

/// Every app is told of, by its name and its id; apps are told of only where
/// they are served, and never incognito.
pub proof fn every_app_has_its_line(apps: Seq<(String, Option<String>)>, i: int)
    requires
        0 <= i < apps.len(),
    ensures
        within("- "@ + apps[i].0@, app_lines(apps)),
        apps[i].1 matches Some(id) ==> within(
            "- "@ + apps[i].0@ + " (uuid "@ + id@ + ")\n"@,
            app_lines(apps),
        ),
        apps_words(true, true, apps) is None,
        apps_words(false, false, apps) is None,
        apps_words(false, true, apps) is Some,
    decreases apps.len(),
{
    let before = app_lines(apps.drop_last());
    let a = apps.last();
    let rest = match a.1 {
        Some(id) => " (uuid "@ + id@ + ")\n"@,
        None => "\n"@,
    };
    let all = app_lines(apps);
    let head = "- "@ + a.0@;
    assert(all =~= before + head + rest);
    assert(all =~= before + (head + rest));
    if i == apps.len() - 1 {
        stands_between(before, head, rest);
        stands_last(before, head + rest);
        if let Some(id) = a.1 {
            assert(head + rest =~= "- "@ + a.0@ + " (uuid "@ + id@ + ")\n"@);
        }
    } else {
        every_app_has_its_line(apps.drop_last(), i);
        stands_first(before, head + rest);
        within_carries("- "@ + apps[i].0@, before, all);
        if let Some(id) = apps[i].1 {
            within_carries("- "@ + apps[i].0@ + " (uuid "@ + id@ + ")\n"@, before, all);
        }
    }
}

/// The extension of a name is what follows its last dot, where that is not its
/// first character.
pub proof fn an_extension_follows_the_last_dot(stem: Seq<char>, ext: Seq<char>)
    requires
        stem.len() > 0,
        !ext.contains('.'),
        stem + seq!['.'] + ext != ".."@,
    ensures
        extension(stem + seq!['.'] + ext) == Some(ext),
{
    let name = stem + seq!['.'] + ext;
    rfind_char_found(name, '.');
    let k = stem.len() as int;
    assert(name[k] == '.');
    assert forall|j: int| k < j < name.len() implies name[j] != '.' by {
        assert(name[j] == ext[j - k - 1]);
        assert(ext.contains(ext[j - k - 1]));
    }
    assert(name.skip(k + 1) =~= ext);
}

/// An image is sent as a data URL of its type and its bytes; an image that
/// cannot be read is left out, and all of them are named.
pub proof fn images_are_sent_as_data(images: Seq<SpaceImage>, image: SpaceImage)
    ensures
        image_urls(Seq::empty()).len() == 0,
        image.bytes is None ==> image_urls(images.push(image)) == image_urls(images),
        image.bytes matches Some(b) ==> image_urls(images.push(image)) == image_urls(images).push(
            image_url(image.name@, b@),
        ),
        image.bytes matches Some(b) ==> "data:image/"@.is_prefix_of(image_url(image.name@, b@))
            && crate::digest::base64_text(b@).is_suffix_of(image_url(image.name@, b@)),
        images_message(images) matches Some(m) ==> m.role == "system"@ && m.images == image_urls(
            images,
        ) && forall|i: int|
            0 <= i < images.len() ==> within((#[trigger] images[i]).name@, m.content),
        images_message(images) is None <==> image_urls(images).len() == 0,
{
    assert(images.push(image).drop_last() =~= images);
    if let Some(b) = image.bytes {
        let t = image_type(crate::prompts::plain_extension(image.name@));
        let data = crate::digest::base64_text(b@);
        let url = image_url(image.name@, b@);
        assert(url.skip(url.len() - data.len()) =~= data);
        reveal_strlit("data:");
        reveal_strlit("data:image/");
        reveal_strlit("image/jpeg");
        reveal_strlit("image/gif");
        reveal_strlit("image/webp");
        reveal_strlit("image/bmp");
        reveal_strlit("image/png");
        assert(url.take(11) =~= "data:image/"@);
    }
    if let Some(m) = images_message(images) {
        let head = "The user has these image files in this space which you can see below: "@;
        let list = join(image_names(images), ", "@);
        stands_last(head, list);
        assert forall|i: int| 0 <= i < images.len() implies within(
            (#[trigger] images[i]).name@,
            m.content,
        ) by {
            joined_parts_stand(image_names(images), ", "@, i);
            assert(image_names(images)[i] == images[i].name@);
            within_carries(images[i].name@, list, m.content);
        }
    }
}

/// A searcher gathers the tokens of its stream, and its finding is all of
/// them, without whitespace around; where it fails or finds nothing, the
/// finding says so and names the question.
pub proof fn a_searcher_gives_what_it_found(
    label: Seq<char>,
    display: Seq<char>,
    buf: Seq<char>,
    t: Seq<char>,
)
    ensures
        grown(buf, Some(StreamEventView::Token(t))) == buf + t,
        searcher_step(label, display, buf, Some(StreamEventView::Token(t))) is Continue,
        !blank(buf) ==> (searcher_step(label, display, buf, Some(StreamEventView::Done)) matches
            AgentStepView::End { text, .. } && text == trim(buf)),
        !blank(buf) ==> (searcher_step(label, display, buf, None) matches AgentStepView::End {
            text,
            ..
        } && text == trim(buf)),
        blank(buf) ==> (searcher_step(label, display, buf, Some(StreamEventView::Done)) matches
            AgentStepView::End { text, .. } && within(display, text) && text[0] == '['),
        searcher_step(label, display, buf, Some(StreamEventView::Error(t))) matches
            AgentStepView::End { text, .. } && within(display, text) && within(t, text) && text[0]
            == '[',
{
    trimming_cuts_whitespace(buf);
    reveal_strlit("[no findings for \"");
    reveal_strlit("[search agent error on \"");
    stands_between("[no findings for \""@, display, "\"]"@);
    let (a, b, c) = ("[search agent error on \""@, "\": "@, "]"@);
    stands_between(a + display + b, t, c);
    assert(a + display + b + t + c =~= a + display + (b + t + c));
    stands_between(a, display, b + t + c);
}

/// The verifier gives what streamed in as it is, also where it fails.
pub proof fn a_verifier_gives_what_streamed_in(buf: Seq<char>, t: Seq<char>)
    ensures
        verifier_step(buf, Some(StreamEventView::Token(t))) is Continue,
        verifier_step(buf, Some(StreamEventView::Done)) matches AgentStepView::End { text, .. }
            && text == buf,
        verifier_step(buf, None) matches AgentStepView::End { text, .. } && text == buf,
        verifier_step(buf, Some(StreamEventView::Error(t))) matches AgentStepView::End {
            text,
            ..
        } && text == buf,
{
}

/// A searcher that is gone leaves a finding that says so; any other leaves its
/// text.
pub proof fn a_finding_is_the_searchers_text(text: Seq<char>)
    ensures
        finding_of(Ok(text)) == text,
        within(text, finding_of(Err(text))),
{
    stands_between("[search agent panicked: "@, text, "]"@);
}

/// A local excerpt holds where it is from and what it says.
pub proof fn an_excerpt_names_its_source(hit: (Seq<char>, Seq<char>, Seq<char>))
    ensures
        within(hit.0, excerpt(hit)),
        within(hit.1, excerpt(hit)),
        hit.2.is_suffix_of(excerpt(hit)),
{
    let t = excerpt(hit);
    assert(t =~= hit.0 + (" ("@ + hit.1 + "): "@ + hit.2));
    stands_first(hit.0, " ("@ + hit.1 + "): "@ + hit.2);
    assert(t =~= (hit.0 + " ("@) + hit.1 + ("): "@ + hit.2));
    stands_between(hit.0 + " ("@, hit.1, "): "@ + hit.2);
    assert(t.skip(t.len() - hit.2.len()) =~= hit.2);
}

proof fn last_stage_found(rows: Seq<Seq<char>>, label: Seq<char>)
    ensures
        match last_stage(rows, label) {
            Some(i) => 0 <= i < rows.len() && is_stage(rows[i], label) && forall|j: int|
                i < j < rows.len() ==> !is_stage(#[trigger] rows[j], label),
            None => forall|j: int| 0 <= j < rows.len() ==> !is_stage(#[trigger] rows[j], label),
        },
    decreases rows.len(),
{
    if rows.len() > 0 && !is_stage(rows.last(), label) {
        last_stage_found(rows.drop_last(), label);
        assert forall|j: int| 0 <= j < rows.len() - 1 implies rows[j] == rows.drop_last()[j] by {}
    }
}

/// A stage has one row, which tells its last detail: a new stage is added
/// behind the others, and one that is there changes in its place. No other row
/// changes.
pub proof fn a_stage_shows_its_last_detail(
    rows: Seq<Seq<char>>,
    label: Seq<char>,
    detail: Seq<char>,
) -> (i: int)
    ensures
        ({
            let now = with_stage(rows, label, detail);
            &&& 0 <= i < now.len()
            &&& now[i] == (if detail.len() == 0 { label } else { label + ": "@ + detail })
            &&& forall|k: int| 0 <= k < rows.len() && k != i ==> #[trigger] now[k] == rows[k]
            &&& now.len() == rows.len() ==> (rows[i] == label || (label + ":"@).is_prefix_of(
                rows[i],
            ))
            &&& now.len() == rows.len() || (now.len() == rows.len() + 1 && i == rows.len()
                && forall|k: int|
                0 <= k < rows.len() ==> #[trigger] rows[k] != label && !(label
                    + ":"@).is_prefix_of(rows[k]))
        }),
{
    last_stage_found(rows, label);
    match last_stage(rows, label) {
        Some(i) => i,
        None => {
            assert forall|k: int| 0 <= k < rows.len() implies #[trigger] rows[k] != label && !(label
                + ":"@).is_prefix_of(rows[k]) by {
                assert(!is_stage(rows[k], label));
            }
            rows.len() as int
        },
    }
}

proof fn last_stage_row_found(rows: Seq<MessageView>, label: Seq<char>)
    ensures
        match last_stage_row(rows, label) {
            Some(i) => 0 <= i < rows.len() && rows[i].role == "research_stage"@ && is_stage(
                rows[i].content,
                label,
            ),
            None => forall|j: int|
                0 <= j < rows.len() ==> (#[trigger] rows[j]).role != "research_stage"@
                    || !is_stage(rows[j].content, label),
        },
    decreases rows.len(),
{
    if rows.len() > 0 {
        last_stage_row_found(rows.drop_last(), label);
        assert forall|j: int| 0 <= j < rows.len() - 1 implies rows[j] == rows.drop_last()[j] by {}
    }
}

/// The same holds of the rows of a conversation: what was said stays as it is.
pub proof fn a_stage_row_leaves_the_others(
    rows: Seq<MessageView>,
    label: Seq<char>,
    detail: Seq<char>,
) -> (i: int)
    ensures
        ({
            let now = with_stage_row(rows, label, detail);
            &&& 0 <= i < now.len()
            &&& now.len() == rows.len() || (now.len() == rows.len() + 1 && i == rows.len())
            &&& now[i].role == "research_stage"@
            &&& now[i].content == (if detail.len() == 0 {
                label
            } else {
                label + ": "@ + detail
            })
            &&& forall|k: int| 0 <= k < rows.len() && k != i ==> #[trigger] now[k] == rows[k]
            &&& i < rows.len() ==> rows[i].role == "research_stage"@
        }),
{
    last_stage_row_found(rows, label);
    match last_stage_row(rows, label) {
        Some(i) => i,
        None => rows.len() as int,
    }
}

} // verus!
