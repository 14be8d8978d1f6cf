//! The texts of a conversation: code blocks, inline reasoning, titles, sizes,
//! and the clauses of the system prompt.

use crate::store::SpinnerColor;
use crate::text::{
    clipped, count, decimal, decimal_of, find, find_found, first_chars, found, has_prefix, lines,
    lines_of, rest_of, same, start_of, texts, trim, trim_start, trim_start_char, trimmed,
    trimmed_start, trimmed_start_char,
};
use vstd::prelude::*;
use vstd::string::*;

verus! {

/// A code block: its language, where one is named, and its code.
pub type Block = (Option<Seq<char>>, Seq<char>);

/// Where the reading of a text for code blocks stands after some of its lines.
#[verifier::ext_equal]
pub struct Blocks {
    pub done: Seq<Block>,
    pub inside: bool,
    pub lang: Option<Seq<char>>,
    pub code: Seq<char>,
}

/// The language that a fence line names.
pub open spec fn fence_lang(line: Seq<char>) -> Option<Seq<char>> {
    let l = trim(trim_start_char(trim_start(line), '`'));
    if l.len() == 0 { None } else { Some(l) }
}

/// Whether a line is a fence.
pub open spec fn is_fence(line: Seq<char>) -> bool {
    "```"@.is_prefix_of(trim_start(line))
}

/// One more line is read.
pub open spec fn blocks_step(b: Blocks, line: Seq<char>) -> Blocks {
    if is_fence(line) {
        if b.inside {
            Blocks {
                done: b.done.push((b.lang, b.code)),
                inside: false,
                lang: None,
                code: Seq::empty(),
            }
        } else {
            Blocks { inside: true, lang: fence_lang(line), ..b }
        }
    } else if b.inside {
        Blocks { code: b.code + line + "\n"@, ..b }
    } else {
        b
    }
}

/// Where the reading stands after the lines.
pub open spec fn blocks_of(ls: Seq<Seq<char>>) -> Blocks
    decreases ls.len(),
{
    if ls.len() == 0 {
        Blocks { done: Seq::empty(), inside: false, lang: None, code: Seq::empty() }
    } else {
        blocks_step(blocks_of(ls.drop_last()), ls.last())
    }
}

/// The fenced code blocks of a text. A last block that is not closed counts
/// where it holds code.
pub open spec fn fenced_blocks(md: Seq<char>) -> Seq<Block> {
    let b = blocks_of(lines(md));
    if b.inside && b.code.len() > 0 {
        b.done.push((b.lang, b.code))
    } else {
        b.done
    }
}

/// What a list of blocks stands for.
pub open spec fn block_views(v: Seq<(Option<String>, String)>) -> Seq<Block> {
    v.map_values(|p: (Option<String>, String)| (crate::text::opt_text(p.0), p.1@))
}

/// The fenced code blocks of a text, each with its language and its code.
pub fn code_blocks(md: &str) -> (r: Vec<(Option<String>, String)>)
    ensures
        block_views(r@) == fenced_blocks(md@),
{
    let ls = lines_of(md);
    let mut out: Vec<(Option<String>, String)> = Vec::new();
    let mut inside: bool = false;
    let mut lang: Option<String> = None;
    let mut buf = String::new();
    let mut i: usize = 0;
    assert(texts(ls@).take(0) =~= Seq::<Seq<char>>::empty());
    assert(block_views(out@) =~= Seq::empty());
    while i < ls.len()
        invariant
            i <= ls@.len(),
            blocks_of(texts(ls@).take(i as int)) == (Blocks {
                done: block_views(out@),
                inside,
                lang: crate::text::opt_text(lang),
                code: buf@,
            }),
        decreases ls@.len() - i,
    {
        let line = ls[i].as_str();
        proof {
            let t = texts(ls@).take(i + 1);
            assert(t.drop_last() =~= texts(ls@).take(i as int));
            assert(t.last() == line@);
        }
        let start = trimmed_start(line);
        if has_prefix(start, "```") {
            if inside {
                let ghost before = out@;
                let ghost block = (crate::text::opt_text(lang), buf@);
                out.push((lang, buf));
                assert(block_views(out@) =~= block_views(before).push(block));
                lang = None;
                buf = String::new();
                inside = false;
            } else {
                let l = trimmed(trimmed_start_char(start, '`'));
                lang = if l.is_empty() { None } else { Some(l.to_owned()) };
                inside = true;
            }
        } else if inside {
            buf.append(line);
            buf.append("\n");
        }
        i += 1;
    }
    assert(texts(ls@).take(i as int) =~= texts(ls@));
    if inside && !buf.as_str().is_empty() {
        let ghost before = out@;
        let ghost block = (crate::text::opt_text(lang), buf@);
        out.push((lang, buf));
        assert(block_views(out@) =~= block_views(before).push(block));
    }
    out
}

/// What stands behind the first opening tag: the block, and the text after
/// its closing tag. Without one the block reaches to the end.
pub open spec fn think_block(after: Seq<char>) -> (Seq<char>, Seq<char>) {
    match find(after, "</think>"@) {
        Some(k) => (after.take(k), after.skip(k + "</think>"@.len())),
        None => (after, Seq::empty()),
    }
}

/// The text outside of `<think>` blocks.
pub open spec fn answer_part(text: Seq<char>) -> Seq<char>
    decreases text.len(),
    via answer_part_decreases
{
    match find(text, "<think>"@) {
        None => text,
        Some(k) => text.take(k) + answer_part(think_block(text.skip(k + "<think>"@.len())).1),
    }
}

#[via_fn]
proof fn answer_part_decreases(text: Seq<char>) {
    find_found(text, "<think>"@);
    reveal_strlit("<think>");
    if let Some(k) = find(text, "<think>"@) {
        find_found(text.skip(k + "<think>"@.len()), "</think>"@);
    }
}

/// The `<think>` blocks without surrounding whitespace.
pub open spec fn think_blocks(text: Seq<char>) -> Seq<Seq<char>>
    decreases text.len(),
    via think_blocks_decreases
{
    match find(text, "<think>"@) {
        None => Seq::empty(),
        Some(k) => {
            let b = think_block(text.skip(k + "<think>"@.len()));
            seq![trim(b.0)] + think_blocks(b.1)
        },
    }
}

#[via_fn]
proof fn think_blocks_decreases(text: Seq<char>) {
    find_found(text, "<think>"@);
    reveal_strlit("<think>");
    if let Some(k) = find(text, "<think>"@) {
        find_found(text.skip(k + "<think>"@.len()), "</think>"@);
    }
}

/// Blocks gathered into one text: a block starts a line where there is text
/// before it.
pub open spec fn gathered_thoughts(blocks: Seq<Seq<char>>) -> Seq<char>
    decreases blocks.len(),
{
    if blocks.len() == 0 {
        Seq::empty()
    } else {
        let before = gathered_thoughts(blocks.drop_last());
        if before.len() == 0 {
            blocks.last()
        } else {
            before + "\n"@ + blocks.last()
        }
    }
}

/// A text taken apart: the answer without surrounding whitespace, and the
/// reasoning that stood in `<think>` blocks, where there is any.
pub open spec fn inline_split(text: Seq<char>) -> (Seq<char>, Option<Seq<char>>) {
    let thoughts = gathered_thoughts(think_blocks(text));
    (trim(answer_part(text)), if thoughts.len() == 0 { None } else { Some(thoughts) })
}

/// Takes `<think>` blocks out of a text.
pub fn split_inline_reasoning(text: &str) -> (r: (String, Option<String>))
    ensures
        (r.0@, crate::text::opt_text(r.1)) == inline_split(text@),
{
    let mut content = String::new();
    let mut reasoning = String::new();
    let mut rest: &str = text;
    let ghost mut blocks: Seq<Seq<char>> = Seq::empty();
    assert(content@ + answer_part(rest@) =~= answer_part(text@));
    assert(blocks + think_blocks(rest@) =~= think_blocks(text@));
    loop
        invariant_except_break
            content@ + answer_part(rest@) == answer_part(text@),
            blocks + think_blocks(rest@) == think_blocks(text@),
            reasoning@ == gathered_thoughts(blocks),
        ensures
            content@ == answer_part(text@),
            reasoning@ == gathered_thoughts(think_blocks(text@)),
        decreases rest@.len(),
    {
        match found(rest, "<think>") {
            None => {
                content.append(rest);
                assert(blocks + Seq::empty() =~= blocks);
                break;
            },
            Some(k) => {
                let head = start_of(rest, k);
                let after = rest_of(rest, k + count("<think>"));
                let ghost before = content@;
                content.append(head);
                let (block, remainder) = match found(after, "</think>") {
                    Some(end) => (
                        start_of(after, end),
                        rest_of(after, end + count("</think>")),
                    ),
                    None => (after, ""),
                };
                proof {
                    reveal_strlit("<think>");
                    reveal_strlit("");
                    if find(after@, "</think>"@) is None {
                        assert(remainder@ =~= Seq::empty());
                    }
                    assert((block@, remainder@) == think_block(after@));
                    assert(before + (head@ + answer_part(remainder@)) =~= content@ + answer_part(
                        remainder@,
                    ));
                    assert(blocks + (seq![trim(block@)] + think_blocks(remainder@)) =~= blocks.push(
                        trim(block@),
                    ) + think_blocks(remainder@));
                    assert(blocks.push(trim(block@)).drop_last() =~= blocks);
                    blocks = blocks.push(trim(block@));
                }
                let thought = trimmed(block);
                if !reasoning.as_str().is_empty() {
                    reasoning.append("\n");
                    reasoning.append(thought);
                } else {
                    reasoning = thought.to_owned();
                }
                rest = remainder;
            },
        }
    }
    let answer = trimmed(content.as_str()).to_owned();
    if reasoning.as_str().is_empty() {
        (answer, None)
    } else {
        (answer, Some(reasoning))
    }
}

/// A text without an opening tag is all answer.
pub proof fn untagged_text_is_answer(text: Seq<char>)
    requires
        !crate::text::contains(text, "<think>"@),
    ensures
        inline_split(text) == (trim(text), None::<Seq<char>>),
{
    find_found(text, "<think>"@);
}

/// The title of a session from its first message.
pub open spec fn session_title(text: Seq<char>) -> Seq<char> {
    if trim(first_chars(text, 40)).len() == 0 {
        "new chat"@
    } else {
        first_chars(text, 40)
    }
}

/// The title of a session from its first message: its first 40 characters.
pub fn title_from(text: &str) -> (r: String)
    ensures
        r@ == session_title(text@),
{
    let t = clipped(text, 40);
    if trimmed(t).is_empty() {
        "new chat".to_owned()
    } else {
        t.to_owned()
    }
}

/// `n / d` rounded to the nearest whole number, a tie to the even one.
pub open spec fn nearest(n: nat, d: nat) -> nat {
    let q = n / d;
    let rest = n % d;
    if 2 * rest > d || (2 * rest == d && q % 2 == 1) { q + 1 } else { q }
}

/// The distance between neighbouring double-precision numbers around `b`, for
/// whole numbers: 1 below 2^53, and twice as much for each doubling of `b`.
pub open spec fn double_step(b: nat) -> nat
    decreases b,
{
    if b < 0x20_0000_0000_0000 { 1 } else { 2 * double_step(b / 2) }
}

/// The double-precision number nearest to a whole number.
pub open spec fn as_double(b: nat) -> nat {
    nearest(b, double_step(b)) * double_step(b)
}

/// `n / d` with one decimal.
pub open spec fn one_decimal(n: nat, d: nat) -> Seq<char> {
    let tenths = nearest(10 * n, d);
    decimal(tenths / 10) + "."@ + decimal(tenths % 10)
}

/// A byte count as it is shown: 940 B, 1.2 KB, 3.4 MB.
pub open spec fn shown_size(bytes: nat) -> Seq<char> {
    if bytes < 1024 {
        decimal(bytes) + " B"@
    } else if bytes < 1024 * 1024 {
        one_decimal(bytes, 1024) + " KB"@
    } else {
        one_decimal(as_double(bytes), 1024 * 1024) + " MB"@
    }
}

fn nearest_of(n: u128, d: u128) -> (r: u128)
    requires
        0 < d <= 0x1_0000_0000_0000_0000,
        n <= 0x100_0000_0000_0000_0000,
    ensures
        r == nearest(n as nat, d as nat),
        r <= (n as int) / (d as int) + 1,
{
    let q: u128 = n / d;
    let rest: u128 = n % d;
    if 2 * rest > d || (2 * rest == d && q % 2 == 1) {
        q + 1
    } else {
        q
    }
}

fn one_decimal_of(n: u128, d: u128) -> (r: String)
    requires
        1024 <= d <= 1024 * 1024,
        n <= 0x2_0000_0000_0000_0000,
    ensures
        r@ == one_decimal(n as nat, d as nat),
{
    let tenths: u128 = nearest_of(10 * n, d);
    assert(tenths <= 0x500_0000_0000_0001) by (nonlinear_arith)
        requires
            tenths <= (10 * n) / (d as int) + 1,
            n <= 0x2_0000_0000_0000_0000,
            d >= 1024,
    {}
    let mut s = decimal_of((tenths / 10) as u64);
    s.append(".");
    s.append(decimal_of((tenths % 10) as u64).as_str());
    s
}

fn step_of(b: u64) -> (r: u128)
    ensures
        r == double_step(b as nat),
        1 <= r <= 2048,
        b >= 0x20_0000_0000_0000 ==> r * 0x10_0000_0000_0000 <= b,
    decreases b,
{
    if b < 0x20_0000_0000_0000 {
        1
    } else {
        let half: u64 = b / 2;
        let s = step_of(half);
        assert(s <= 1024) by {
            if half >= 0x20_0000_0000_0000 {
                assert(s * 0x10_0000_0000_0000 <= half);
                assert(half <= 0x7fff_ffff_ffff_ffff);
                assert(s < 2048) by (nonlinear_arith)
                    requires
                        s * 0x10_0000_0000_0000 <= half,
                        half <= 0x7fff_ffff_ffff_ffff,
                {}
                step_is_power(half as nat);
            }
        }
        2 * s
    }
}

/// The step is 1 or an even number, and a power of two below 2048 is at most
/// 1024.
proof fn step_is_power(b: nat)
    ensures
        double_step(b) < 2048 ==> double_step(b) <= 1024,
        double_step(b) < 1024 ==> double_step(b) <= 512,
        double_step(b) < 512 ==> double_step(b) <= 256,
        double_step(b) < 256 ==> double_step(b) <= 128,
        double_step(b) < 128 ==> double_step(b) <= 64,
        double_step(b) < 64 ==> double_step(b) <= 32,
        double_step(b) < 32 ==> double_step(b) <= 16,
        double_step(b) < 16 ==> double_step(b) <= 8,
        double_step(b) < 8 ==> double_step(b) <= 4,
        double_step(b) < 4 ==> double_step(b) <= 2,
        double_step(b) < 2 ==> double_step(b) <= 1,
        double_step(b) >= 1,
    decreases b,
{
    if b >= 0x20_0000_0000_0000 {
        step_is_power(b / 2);
    }
}

/// A byte count as it is shown.
pub fn human_size(bytes: u64) -> (r: String)
    ensures
        r@ == shown_size(bytes as nat),
{
    if bytes < 1024 {
        let mut s = decimal_of(bytes);
        s.append(" B");
        s
    } else if bytes < 1024 * 1024 {
        let mut s = one_decimal_of(bytes as u128, 1024);
        s.append(" KB");
        s
    } else {
        let step: u128 = step_of(bytes);
        let n: u128 = nearest_of(bytes as u128, step);
        assert(n * step <= 0x2_0000_0000_0000_0000) by (nonlinear_arith)
            requires
                n <= (bytes as int) / (step as int) + 1,
                1 <= step <= 2048,
                bytes <= u64::MAX,
        {}
        let value: u128 = n * step;
        let mut s = one_decimal_of(value, 1024 * 1024);
        s.append(" MB");
        s
    }
}

/// What the answer length `level` tells the model.
pub open spec fn verbosity_words(level: Seq<char>) -> Seq<char> {
    if level == "normal"@ {
        VERBOSITY_NORMAL@
    } else if level == "caveman"@ {
        VERBOSITY_CAVEMAN@
    } else {
        VERBOSITY_CONCISE@
    }
}

/// The clause of the answer length normal.
pub const VERBOSITY_NORMAL: &'static str = "Answer at whatever length the question deserves — don't optimize for brevity over completeness.";

/// The clause of the answer length caveman.
pub const VERBOSITY_CAVEMAN: &'static str = "Talk caveman-terse. Drop articles (a/an/the) and filler words. Short fragments over full sentences. No politeness, no hedging, no restating the question. Symbols over words where clear (→, =, vs). Full explanations ONLY when explicitly asked — otherwise state the fact/answer and stop. Preserve numbers, code, names, and technical terms exactly.";

/// The clause of the answer length concise.
pub const VERBOSITY_CONCISE: &'static str = "Answer style: default to short. Say the answer, then stop — don't restate the question, don't add a summary, don't hedge (\"it's worth noting...\", \"generally speaking...\"). No preamble (\"Great question!\", \"I'd be happy to help with that\"), no postamble (\"Let me know if you have questions!\"). One clear sentence beats three vague ones.\nThis is a floor, not a ceiling: if the user asks to explain, teach, or go deep, or the topic genuinely needs multiple steps to be correct (debugging, multi-part instructions, tradeoffs), give it the room it needs. Brevity for its own sake that omits a needed step is wrong, not concise.\nKeep full grammar — this isn't telegraphic shorthand. Drop filler, not clarity.";

/// What the answer length `level` tells the model; a level that is not known
/// counts as concise.
pub fn verbosity_clause(level: &str) -> (r: &'static str)
    ensures
        r@ == verbosity_words(level@),
{
    if same(level, "normal") {
        VERBOSITY_NORMAL
    } else if same(level, "caveman") {
        VERBOSITY_CAVEMAN
    } else {
        VERBOSITY_CONCISE
    }
}

/// What web mode tells the model.
pub open spec fn web_mode_words(today: Seq<char>) -> Seq<char> {
    "Web answer mode is ON for this session. Today's date is "@ + today + WEB_MODE_RULES@
}

/// What web mode asks of an answer.
pub const WEB_MODE_RULES: &'static str = ". Before answering, you MUST call search with mode=web and a focused query (and fetch_url on the most promising results) — never answer from memory alone. You may search more than once with refined queries if the first results are insufficient. Each search result is numbered [1], [2], ... with title, URL, and snippet. Cite every claim inline immediately as [n]; do not bunch citations at the end of a paragraph. End your reply with a line starting exactly with 'Sources:' followed by every citation you used, one per line, as [n] title — url. Do not fabricate sources; if a claim is not backed by a search/fetched source, do not cite it.";

/// What web mode tells the model: to search first and to cite.
pub fn web_mode_clause(today: &str) -> (r: String)
    ensures
        r@ == web_mode_words(today@),
{
    let mut s = "Web answer mode is ON for this session. Today's date is ".to_owned();
    s.append(today);
    s.append(WEB_MODE_RULES);
    s
}

/// The greetings of the start screen.
pub open spec fn greeting(n: int) -> Seq<char> {
    if n == 0 { "What are we building today?"@ }
    else if n == 1 { "Ask me anything."@ }
    else if n == 2 { "Fresh session, fresh ideas."@ }
    else if n == 3 { "The terminal is your canvas."@ }
    else if n == 4 { "Ready when you are."@ }
    else if n == 5 { "Type / to see commands."@ }
    else if n == 6 { "Let's get to work."@ }
    else { "How can I help?"@ }
}

/// The greeting that a number picks.
pub fn pick_greeting(n: usize) -> (r: &'static str)
    ensures
        r@ == greeting(n as int % 8),
{
    let k: usize = n % 8;
    if k == 0 { "What are we building today?" }
    else if k == 1 { "Ask me anything." }
    else if k == 2 { "Fresh session, fresh ideas." }
    else if k == 3 { "The terminal is your canvas." }
    else if k == 4 { "Ready when you are." }
    else if k == 5 { "Type / to see commands." }
    else if k == 6 { "Let's get to work." }
    else { "How can I help?" }
}

/// How many thinking phrases there are.
pub const THINKING_PHRASES: usize = 16;

/// The thinking phrases while a response streams.
pub open spec fn present_phrase(n: int) -> Seq<char> {
    if n == 0 {
        "Thinking"@
    } else if n == 1 {
        "Pondering"@
    } else if n == 2 {
        "Noodling"@
    } else if n == 3 {
        "Ruminating"@
    } else if n == 4 {
        "Cogitating"@
    } else if n == 5 {
        "Marinating"@
    } else if n == 6 {
        "Percolating"@
    } else if n == 7 {
        "Mulling"@
    } else if n == 8 {
        "Conjuring"@
    } else if n == 9 {
        "Vibing"@
    } else if n == 10 {
        "Scheming"@
    } else if n == 11 {
        "Wrangling tokens"@
    } else if n == 12 {
        "Brewing"@
    } else if n == 13 {
        "Musing"@
    } else if n == 14 {
        "Galaxy-braining"@
    } else {
        "Doing the thing"@
    }
}

/// The thinking phrases once a response is complete.
pub open spec fn past_phrase(n: int) -> Seq<char> {
    if n == 0 {
        "Thought"@
    } else if n == 1 {
        "Pondered"@
    } else if n == 2 {
        "Noodled"@
    } else if n == 3 {
        "Ruminated"@
    } else if n == 4 {
        "Cogitated"@
    } else if n == 5 {
        "Marinated"@
    } else if n == 6 {
        "Percolated"@
    } else if n == 7 {
        "Mulled"@
    } else if n == 8 {
        "Conjured"@
    } else if n == 9 {
        "Vibed"@
    } else if n == 10 {
        "Schemed"@
    } else if n == 11 {
        "Wrangled tokens"@
    } else if n == 12 {
        "Brewed"@
    } else if n == 13 {
        "Mused"@
    } else if n == 14 {
        "Galaxy-brained"@
    } else {
        "Did the thing"@
    }
}

/// The phrase while a response streams.
pub fn thinking_now(n: usize) -> (r: &'static str)
    ensures
        r@ == present_phrase(n as int),
{
    if n == 0 {
        "Thinking"
    } else if n == 1 {
        "Pondering"
    } else if n == 2 {
        "Noodling"
    } else if n == 3 {
        "Ruminating"
    } else if n == 4 {
        "Cogitating"
    } else if n == 5 {
        "Marinating"
    } else if n == 6 {
        "Percolating"
    } else if n == 7 {
        "Mulling"
    } else if n == 8 {
        "Conjuring"
    } else if n == 9 {
        "Vibing"
    } else if n == 10 {
        "Scheming"
    } else if n == 11 {
        "Wrangling tokens"
    } else if n == 12 {
        "Brewing"
    } else if n == 13 {
        "Musing"
    } else if n == 14 {
        "Galaxy-braining"
    } else {
        "Doing the thing"
    }
}

/// The phrase once a response is complete.
pub fn thinking_then(n: usize) -> (r: &'static str)
    ensures
        r@ == past_phrase(n as int),
{
    if n == 0 {
        "Thought"
    } else if n == 1 {
        "Pondered"
    } else if n == 2 {
        "Noodled"
    } else if n == 3 {
        "Ruminated"
    } else if n == 4 {
        "Cogitated"
    } else if n == 5 {
        "Marinated"
    } else if n == 6 {
        "Percolated"
    } else if n == 7 {
        "Mulled"
    } else if n == 8 {
        "Conjured"
    } else if n == 9 {
        "Vibed"
    } else if n == 10 {
        "Schemed"
    } else if n == 11 {
        "Wrangled tokens"
    } else if n == 12 {
        "Brewed"
    } else if n == 13 {
        "Mused"
    } else if n == 14 {
        "Galaxy-brained"
    } else {
        "Did the thing"
    }
}

/// The colours of the spinner.
pub open spec fn palette(n: int) -> SpinnerColor {
    if n == 0 { SpinnerColor::Green }
    else if n == 1 { SpinnerColor::Cyan }
    else if n == 2 { SpinnerColor::Magenta }
    else if n == 3 { SpinnerColor::Yellow }
    else if n == 4 { SpinnerColor::Blue }
    else { SpinnerColor::LightRed }
}

/// The thinking phrase and the colour that a number picks.
pub fn pick_flavor(n: usize) -> (r: (usize, SpinnerColor))
    ensures
        r.0 == n as int % 16,
        r.0 < THINKING_PHRASES,
        r.1 == palette(n as int % 6),
{
    let k: usize = n % 6;
    let color = if k == 0 { SpinnerColor::Green }
        else if k == 1 { SpinnerColor::Cyan }
        else if k == 2 { SpinnerColor::Magenta }
        else if k == 3 { SpinnerColor::Yellow }
        else if k == 4 { SpinnerColor::Blue }
        else { SpinnerColor::LightRed };
    (n % 16, color)
}

/// The frames of the spinner.
pub open spec fn spinner_frame(n: int) -> Seq<char> {
    if n == 0 { "⠋"@ } else if n == 1 { "⠙"@ } else if n == 2 { "⠹"@ } else if n == 3 { "⠸"@ }
    else if n == 4 { "⠼"@ } else if n == 5 { "⠴"@ } else if n == 6 { "⠦"@ } else if n == 7 { "⠧"@ }
    else if n == 8 { "⠇"@ } else { "⠏"@ }
}

/// The frame of the spinner at a tick.
pub fn spinner_glyph(n: usize) -> (r: &'static str)
    ensures
        r@ == spinner_frame(n as int % 10),
{
    let k: usize = n % 10;
    if k == 0 { "⠋" } else if k == 1 { "⠙" } else if k == 2 { "⠹" } else if k == 3 { "⠸" }
    else if k == 4 { "⠼" } else if k == 5 { "⠴" } else if k == 6 { "⠦" } else if k == 7 { "⠧" }
    else if k == 8 { "⠇" } else { "⠏" }
}

} // verus!
