//! How a tool call is summed up, stored and read back.

use crate::json::{
    as_list, as_text, field, get_list, get_text, held, held_fields, holds, json_text, object_of,
    object_value, parse, parsed, text_field, text_value, value_text, Json,
};
use crate::provider::{ToolCall, ToolCallView};
use crate::text::{
    clipped, contains, count, decimal, decimal_of, first_chars, has, has_prefix, join, joined,
    lines, lines_of, same, texts, texts_push, trim_end_char, trimmed_end_char,
};
use vstd::prelude::*;
use vstd::string::*;
use vstd::utf8::encode_utf8;

verus! {

/// The first line of a tool's result without colons at its end.
pub open spec fn head_line(result: Seq<char>) -> Seq<char> {
    if lines(result).len() == 0 {
        Seq::empty()
    } else {
        trim_end_char(lines(result)[0], ':')
    }
}

/// The first line of a tool's result without colons at its end.
pub fn first_line(result: &str) -> (r: String)
    ensures
        r@ == head_line(result@),
{
    let ls = lines_of(result);
    assert(texts(ls@).len() == ls@.len());
    if ls.len() == 0 {
        let none = String::new();
        none
    } else {
        assert(texts(ls@)[0] == ls@[0]@);
        trimmed_end_char(ls[0].as_str(), ':').to_owned()
    }
}

/// A text argument of a call, empty where there is none.
pub open spec fn text_arg(args: Json, key: Seq<char>) -> Seq<char> {
    match get_text(args, key) {
        Some(s) => s,
        None => Seq::empty(),
    }
}

/// The texts among the items of a list.
pub open spec fn item_texts(items: Seq<Json>) -> Seq<Seq<char>>
    decreases items.len(),
{
    if items.len() == 0 {
        Seq::empty()
    } else {
        match items.last() {
            Json::Text(s) => item_texts(items.drop_last()).push(s),
            _ => item_texts(items.drop_last()),
        }
    }
}

/// How many hits a result lists, in words.
pub open spec fn hits(failed: bool, result: Seq<char>) -> Seq<char> {
    if failed {
        "no hits"@
    } else {
        decimal(lines(result).len()) + " hits"@
    }
}

/// The arguments of a call, where text that is no JSON counts as null.
pub open spec fn call_args(args: Seq<char>) -> Json {
    match parsed(args) {
        Some(j) => j,
        None => Json::Null,
    }
}

/// A tool call in one line: the tool's name and the argument, and what of the
/// result, a reader cares about.
pub open spec fn call_summary(name: Seq<char>, args: Seq<char>, result: Seq<char>) -> Seq<char> {
    let v = call_args(args);
    if name == "skill"@ {
        "skill "@ + text_arg(v, "name"@)
    } else if name == "install_skill"@ {
        "install_skill "@ + text_arg(v, "source"@) + " → "@ + head_line(result)
    } else if name == "run_script"@ {
        "run_script "@ + text_arg(v, "skill"@) + "/"@ + text_arg(v, "script"@)
    } else if name == "run_python"@ {
        let n = lines(text_arg(v, "code"@)).len();
        "run_python ("@ + decimal(if n == 0 { 1 } else { n }) + " lines)"@
    } else if name == "grep_app"@ {
        "grep_app "@ + text_arg(v, "app"@) + " \""@ + text_arg(v, "pattern"@) + "\" → "@ + hits(
            "no matches"@.is_prefix_of(result),
            result,
        )
    } else if name == "install_packages"@ {
        let packages = match get_list(v, "packages"@) {
            Some(items) => join(item_texts(items), " "@),
            None => Seq::empty(),
        };
        let skill = text_arg(v, "skill"@);
        let target = if skill.len() > 0 { skill } else { text_arg(v, "app"@) };
        "install_packages "@ + packages + " → "@ + target
    } else if name == "web_search"@ || name == "search_files"@ {
        name + " \""@ + text_arg(v, "query"@) + "\" → "@ + hits(
            "no results"@.is_prefix_of(result) || "no matches"@.is_prefix_of(result) || contains(
                result,
                "failed"@,
            ),
            result,
        )
    } else if name == "read_file"@ {
        "read_file "@ + text_arg(v, "name"@) + " → "@ + head_line(result)
    } else if name == "read_app_file"@ {
        "read_app_file "@ + text_arg(v, "app"@) + "/"@ + text_arg(v, "path"@)
    } else if name == "write_file"@ {
        "write_file "@ + text_arg(v, "app"@) + "/"@ + text_arg(v, "path"@) + " ("@ + decimal(
            (encode_utf8(text_arg(v, "content"@)).len() as usize) as nat,
        ) + " bytes)"@
    } else if name == "edit_file"@ {
        "edit_file "@ + text_arg(v, "app"@) + "/"@ + text_arg(v, "path"@)
    } else if args.len() > 60 {
        name + " "@ + (first_chars(args, 60) + "…"@)
    } else {
        name + " "@ + args
    }
}

fn arg(v: &Option<serde_json::Value>, key: &str) -> (r: String)
    ensures
        r@ == (match *v {
            Some(x) => text_arg(holds(x), key@),
            None => Seq::empty(),
        }),
{
    if let Some(x) = v {
        if let Some(s) = text_field(x, key) {
            return s.to_owned();
        }
    }
    String::new()
}

fn texts_among(items: &Vec<serde_json::Value>) -> (r: Vec<String>)
    ensures
        texts(r@) == item_texts(held(items@)),
{
    let mut out: Vec<String> = Vec::new();
    let mut i: usize = 0;
    assert(held(items@).take(0) =~= Seq::<Json>::empty());
    assert(texts(out@) =~= Seq::empty());
    while i < items.len()
        invariant
            i <= items@.len(),
            texts(out@) == item_texts(held(items@).take(i as int)),
        decreases items@.len() - i,
    {
        proof {
            let t = held(items@).take(i + 1);
            assert(t.drop_last() =~= held(items@).take(i as int));
            assert(t.last() == holds(items@[i as int]));
        }
        if let Some(s) = as_text(&items[i]) {
            let s = s.to_owned();
            proof {
                texts_push(out@, s);
            }
            out.push(s);
        }
        i += 1;
    }
    assert(held(items@).take(i as int) =~= held(items@));
    out
}

fn hits_of(failed: bool, result: &str) -> (r: String)
    ensures
        r@ == hits(failed, result@),
{
    if failed {
        "no hits".to_owned()
    } else {
        let ls = lines_of(result);
        assert(texts(ls@).len() == ls@.len());
        let mut s = decimal_of(ls.len() as u64);
        s.append(" hits");
        s
    }
}

/// A tool call in one line.
pub fn tool_call_summary(name: &str, args: &str, result: &str) -> (r: String)
    ensures
        r@ == call_summary(name@, args@, result@),
{
    let v = parse(args);
    assert(forall|key: Seq<char>| #[trigger]
        text_arg(call_args(args@), key) == (match v {
            Some(x) => text_arg(holds(x), key),
            None => Seq::empty(),
        }));
    if same(name, "skill") {
        let mut s = "skill ".to_owned();
        s.append(arg(&v, "name").as_str());
        s
    } else if same(name, "install_skill") {
        let mut s = "install_skill ".to_owned();
        s.append(arg(&v, "source").as_str());
        s.append(" → ");
        s.append(first_line(result).as_str());
        s
    } else if same(name, "run_script") {
        let mut s = "run_script ".to_owned();
        s.append(arg(&v, "skill").as_str());
        s.append("/");
        s.append(arg(&v, "script").as_str());
        s
    } else if same(name, "run_python") {
        let code = arg(&v, "code");
        let ls = lines_of(code.as_str());
        assert(texts(ls@).len() == ls@.len());
        let n: usize = if ls.len() == 0 { 1 } else { ls.len() };
        let mut s = "run_python (".to_owned();
        s.append(decimal_of(n as u64).as_str());
        s.append(" lines)");
        s
    } else if same(name, "grep_app") {
        let mut s = "grep_app ".to_owned();
        s.append(arg(&v, "app").as_str());
        s.append(" \"");
        s.append(arg(&v, "pattern").as_str());
        s.append("\" → ");
        s.append(hits_of(has_prefix(result, "no matches"), result).as_str());
        s
    } else if same(name, "install_packages") {
        let mut packages = String::new();
        if let Some(x) = &v {
            if let Some(list) = field(x, "packages") {
                if let Some(items) = as_list(list) {
                    packages = joined(&texts_among(items), " ");
                }
            }
        }
        let skill = arg(&v, "skill");
        let target = if skill.as_str().is_empty() { arg(&v, "app") } else { skill };
        let mut s = "install_packages ".to_owned();
        s.append(packages.as_str());
        s.append(" → ");
        s.append(target.as_str());
        s
    } else if same(name, "web_search") || same(name, "search_files") {
        let failed = has_prefix(result, "no results") || has_prefix(result, "no matches") || has(
            result,
            "failed",
        );
        let mut s = name.to_owned();
        s.append(" \"");
        s.append(arg(&v, "query").as_str());
        s.append("\" → ");
        s.append(hits_of(failed, result).as_str());
        s
    } else if same(name, "read_file") {
        let mut s = "read_file ".to_owned();
        s.append(arg(&v, "name").as_str());
        s.append(" → ");
        s.append(first_line(result).as_str());
        s
    } else if same(name, "read_app_file") {
        let mut s = "read_app_file ".to_owned();
        s.append(arg(&v, "app").as_str());
        s.append("/");
        s.append(arg(&v, "path").as_str());
        s
    } else if same(name, "write_file") {
        let content = arg(&v, "content");
        let n: usize = content.as_str().len();
        let mut s = "write_file ".to_owned();
        s.append(arg(&v, "app").as_str());
        s.append("/");
        s.append(arg(&v, "path").as_str());
        s.append(" (");
        s.append(decimal_of(n as u64).as_str());
        s.append(" bytes)");
        s
    } else if same(name, "edit_file") {
        let mut s = "edit_file ".to_owned();
        s.append(arg(&v, "app").as_str());
        s.append("/");
        s.append(arg(&v, "path").as_str());
        s
    } else {
        let mut shown = clipped(args, 60).to_owned();
        if count(args) > 60 {
            shown.append("…");
        }
        let mut s = name.to_owned();
        s.append(" ");
        s.append(shown.as_str());
        s
    }
}

/// What a stored tool call holds.
pub open spec fn call_object(name: Seq<char>, arguments: Seq<char>, result: Seq<char>) -> Json {
    Json::Object(
        Map::<Seq<char>, Json>::empty().insert("name"@, Json::Text(name)).insert(
            "arguments"@,
            Json::Text(arguments),
        ).insert("result"@, Json::Text(result)),
    )
}

/// The text under which a tool call is stored.
pub fn tool_call_row(name: &str, arguments: &str, result: &str) -> (r: String)
    ensures
        r@ == json_text(call_object(name@, arguments@, result@)),
        parsed(r@) == Some(call_object(name@, arguments@, result@)),
        row_call(r@) == Some(
            (ToolCallView { id: "call_0"@, name: name@, arguments: arguments@ }, result@),
        ),
{
    let mut fields: Vec<(String, serde_json::Value)> = Vec::new();
    fields.push(("name".to_owned(), text_value(name)));
    fields.push(("arguments".to_owned(), text_value(arguments)));
    fields.push(("result".to_owned(), text_value(result)));
    proof {
        let f = held_fields(fields@);
        assert(f.drop_last().drop_last().drop_last() =~= Seq::empty());
        assert(object_of(Seq::empty()) == Map::<Seq<char>, Json>::empty());
        assert(f.drop_last().drop_last().last() == ("name"@, Json::Text(name@)));
        assert(f.drop_last().last() == ("arguments"@, Json::Text(arguments@)));
        assert(f.last() == ("result"@, Json::Text(result@)));
        reveal_with_fuel(object_of, 4);
        reveal_strlit("name");
        reveal_strlit("arguments");
        reveal_strlit("result");
        assert("result"@[0] != "name"@[0] && "arguments"@[0] != "name"@[0] && "result"@[0]
            != "arguments"@[0]);
        assert(Json::Object(object_of(f)) == call_object(name@, arguments@, result@));
    }
    let r = value_text(&object_value(fields));
    proof {
        stored_call_reads_back(r@, name@, arguments@, result@);
    }
    r
}

/// The call and the result that a stored row holds.
pub open spec fn row_call(content: Seq<char>) -> Option<(ToolCallView, Seq<char>)> {
    match parsed(content) {
        None => None,
        Some(v) => match (get_text(v, "name"@), get_text(v, "arguments"@), get_text(v, "result"@)) {
            (Some(name), Some(arguments), Some(result)) => Some(
                (ToolCallView { id: "call_0"@, name, arguments }, result),
            ),
            _ => None,
        },
    }
}

/// The call and the result that a stored row holds. The id only has to be the
/// same in the two messages that are built from them.
pub fn parse_tool_call_row(content: &str) -> (r: Option<(ToolCall, String)>)
    ensures
        match r {
            Some(p) => row_call(content@) == Some((p.0@, p.1@)),
            None => row_call(content@) is None,
        },
{
    let v = match parse(content) {
        Some(v) => v,
        None => {
            return None;
        },
    };
    match (text_field(&v, "name"), text_field(&v, "arguments"), text_field(&v, "result")) {
        (Some(name), Some(arguments), Some(result)) => {
            let call = ToolCall {
                id: "call_0".to_owned(),
                name: name.to_owned(),
                arguments: arguments.to_owned(),
            };
            Some((call, result.to_owned()))
        },
        _ => None,
    }
}

/// What is stored of a tool call is what is read back.
pub proof fn stored_call_reads_back(
    content: Seq<char>,
    name: Seq<char>,
    arguments: Seq<char>,
    result: Seq<char>,
)
    requires
        parsed(content) == Some(call_object(name, arguments, result)),
    ensures
        row_call(content) == Some((ToolCallView { id: "call_0"@, name, arguments }, result)),
{
    reveal_strlit("name");
    reveal_strlit("arguments");
    reveal_strlit("result");
    assert("name"@.len() != "arguments"@.len());
    assert("result"@.len() != "arguments"@.len());
    assert("name"@.len() != "result"@.len());
}

} // verus!
