//! Copying text to the clipboard.

use crate::chat::{block_views, code_blocks, fenced_blocks, Block};
use crate::ordering::{clamp_cursor, moved};
use crate::state::{says, Conversation, CopyMenu, Screen};
use crate::store::{CopyOption, CopyOptionView, Message, MessageView};
use crate::text::{count, decimal, decimal_of, opt_text, same, views, views_push};
use crate::ui::Popup;
use vstd::prelude::*;
use vstd::string::*;

verus! {

/// What the screen says once a text was handed to the clipboard. `ok` says
/// whether it was taken. An empty text is not copied.
pub open spec fn copied_step(before: Screen, after: Screen, text: Seq<char>, ok: bool) -> bool {
    if text.len() == 0 {
        after == before
    } else if ok {
        says(before, after, "copied "@ + decimal(text.len()) + " chars"@)
    } else {
        says(before, after, "clipboard unavailable"@)
    }
}

/// Says that a text was copied, or could not be.
pub fn copy_text(screen: &mut Screen, text: &str, ok: bool)
    ensures
        copied_step(*old(screen), *final(screen), text@, ok),
{
    if text.is_empty() {
        return;
    }
    if ok {
        let mut s = "copied ".to_owned();
        let n: usize = count(text);
        s.append(decimal_of(n as u64).as_str());
        s.append(" chars");
        screen.status = s;
    } else {
        screen.status = "clipboard unavailable".to_owned();
    }
}

/// What of a row is copied: a reply without its markup, any other row as it
/// is; and, past the last row, what has streamed in so far.
pub open spec fn copy_source(
    rows: Seq<MessageView>,
    streaming: Option<Seq<char>>,
    idx: int,
    plain: Seq<char>,
) -> Option<Seq<char>> {
    if 0 <= idx < rows.len() {
        Some(
            if rows[idx].role == "assistant"@ {
                plain
            } else {
                rows[idx].content
            },
        )
    } else if idx == rows.len() {
        streaming
    } else {
        None
    }
}

/// The text that copying a row puts on the clipboard. `plain` is the text of
/// the row without its markup.
pub fn copy_message(talk: &Conversation, streaming: Option<&str>, idx: usize, plain: &str) -> (r:
    Option<String>)
    ensures
        opt_text(r) == copy_source(
            views(talk.messages@),
            match streaming {
                Some(s) => Some(s@),
                None => None,
            },
            idx as int,
            plain@,
        ),
{
    if idx < talk.messages.len() {
        let m = &talk.messages[idx];
        assert(views(talk.messages@)[idx as int] == m@);
        if same(m.role.as_str(), "assistant") {
            Some(plain.to_owned())
        } else {
            Some(m.content.clone())
        }
    } else if idx == talk.messages.len() {
        match streaming {
            Some(s) => Some(s.to_owned()),
            None => None,
        }
    } else {
        None
    }
}

/// The last reply.
pub open spec fn last_reply(rows: Seq<MessageView>) -> Option<int>
    decreases rows.len(),
{
    if rows.len() == 0 {
        None
    } else if rows.last().role == "assistant"@ {
        Some(rows.len() - 1)
    } else {
        last_reply(rows.drop_last())
    }
}

/// Where the last reply stands.
pub fn last_reply_of(messages: &Vec<Message>) -> (r: Option<usize>)
    ensures
        match r {
            Some(i) => last_reply(views(messages@)) == Some(i as int) && i < messages@.len(),
            None => last_reply(views(messages@)) is None,
        },
{
    let ghost all = views(messages@);
    let mut i: usize = messages.len();
    assert(all.take(i as int) =~= all);
    while i > 0
        invariant
            i <= messages@.len(),
            all == views(messages@),
            last_reply(all) == last_reply(all.take(i as int)),
        decreases i,
    {
        proof {
            let t = all.take(i as int);
            assert(t.drop_last() =~= all.take(i - 1));
            assert(t.last() == messages@[i - 1]@);
        }
        if same(messages[i - 1].role.as_str(), "assistant") {
            return Some(i - 1);
        }
        i -= 1;
    }
    None
}

/// The label of a code block in the copy menu.
pub open spec fn block_label(n: nat, lang: Option<Seq<char>>) -> Seq<char> {
    match lang {
        Some(l) => "Code block "@ + decimal(n) + " ("@ + l + ")"@,
        None => "Code block "@ + decimal(n),
    }
}

/// The options for the first `n` code blocks.
pub open spec fn block_options(blocks: Seq<Block>) -> Seq<CopyOptionView>
    decreases blocks.len(),
{
    if blocks.len() == 0 {
        Seq::empty()
    } else {
        block_options(blocks.drop_last()).push(
            CopyOptionView {
                label: block_label(blocks.len(), blocks.last().0),
                text: blocks.last().1,
            },
        )
    }
}

/// The options of the copy menu for a reply: the whole of it, and each of its
/// code blocks. `plain` is the reply without its markup.
pub open spec fn copy_options(content: Seq<char>, plain: Seq<char>) -> Seq<CopyOptionView> {
    seq![CopyOptionView { label: "Entire response"@, text: plain }] + block_options(
        fenced_blocks(content),
    )
}

fn label_of(n: usize, lang: &Option<String>) -> (r: String)
    ensures
        r@ == block_label(n as nat, opt_text(*lang)),
{
    let mut s = "Code block ".to_owned();
    s.append(decimal_of(n as u64).as_str());
    if let Some(l) = lang {
        s.append(" (");
        s.append(l.as_str());
        s.append(")");
    }
    s
}

fn options_of(content: &str, plain: &str) -> (r: Vec<CopyOption>)
    ensures
        views(r@) == copy_options(content@, plain@),
{
    let blocks = code_blocks(content);
    let ghost all = fenced_blocks(content@);
    let mut out: Vec<CopyOption> = Vec::new();
    out.push(CopyOption { label: "Entire response".to_owned(), text: plain.to_owned() });
    let ghost head = seq![CopyOptionView { label: "Entire response"@, text: plain@ }];
    let mut i: usize = 0;
    assert(all.take(0) =~= Seq::empty());
    assert(views(out@) =~= head + Seq::<CopyOptionView>::empty());
    while i < blocks.len()
        invariant
            i <= blocks@.len(),
            all == block_views(blocks@),
            views(out@) == head + block_options(all.take(i as int)),
        decreases blocks@.len() - i,
    {
        let option = CopyOption {
            label: label_of(i + 1, &blocks[i].0),
            text: blocks[i].1.clone(),
        };
        proof {
            let t = all.take(i + 1);
            assert(t.drop_last() =~= all.take(i as int));
            assert(t.last() == (opt_text(blocks@[i as int].0), blocks@[i as int].1@));
            views_push(out@, option);
            assert((head + block_options(all.take(i as int))).push(option@) =~= head
                + block_options(t));
        }
        out.push(option);
        i += 1;
    }
    assert(all.take(i as int) =~= all);
    out
}

impl CopyMenu {
    /// Opens the copy menu for the last reply. `plain` is that reply without
    /// its markup.
    pub fn open_copy_menu(&mut self, talk: &Conversation, screen: &mut Screen, plain: &str)
        ensures
            match last_reply(views(talk.messages@)) {
                None => *final(self) == *old(self) && says(
                    *old(screen),
                    *final(screen),
                    "no response to copy"@,
                ),
                Some(i) => {
                    &&& final(self).selected == 0
                    &&& views(final(self).options@) == copy_options(
                        views(talk.messages@)[i].content,
                        plain@,
                    )
                    &&& *final(screen) == (Screen { popup: Popup::Copy, ..*old(screen) })
                },
            },
    {
        match last_reply_of(&talk.messages) {
            None => {
                screen.status = "no response to copy".to_owned();
            },
            Some(i) => {
                assert(views(talk.messages@)[i as int] == talk.messages@[i as int]@);
                self.options = options_of(talk.messages[i].content.as_str(), plain);
                self.selected = 0;
                screen.popup = Popup::Copy;
            },
        }
    }

    /// Closes the copy menu. Gives the text that the selected option puts on
    /// the clipboard.
    pub fn confirm_copy(&self, screen: &mut Screen) -> (r: Option<String>)
        ensures
            *final(screen) == (Screen { popup: Popup::Closed, ..*old(screen) }),
            r == (if self.selected < self.options@.len() {
                Some(self.options@[self.selected as int].text)
            } else {
                None
            }),
    {
        screen.popup = Popup::Closed;
        if self.selected < self.options.len() {
            Some(self.options[self.selected].text.clone())
        } else {
            None
        }
    }

    /// Moves the cursor of the copy menu.
    pub fn move_copy_selection(&mut self, delta: i32)
        ensures
            *final(self) == (if old(self).options@.len() == 0 {
                *old(self)
            } else {
                CopyMenu {
                    selected: moved(
                        old(self).selected as int,
                        old(self).options@.len() as int,
                        delta as int,
                    ) as usize,
                    ..*old(self)
                }
            }),
    {
        if self.options.len() > 0 {
            self.selected = clamp_cursor(self.selected, self.options.len(), delta);
        }
    }
}

} // verus!
