//! What a client does with its lists: sessions and spaces that are opened and
//! renamed, favorites, keys, and the cursor that goes through them.

use crate::app::App;
use crate::backends::{BackendTag, Backends};
use crate::digest::{hex, hex_digit};
use crate::effects::EffectView;
use crate::modes::video_stem;
use crate::images::{image_keys, image_rows};
use crate::ordering::{
    all_rows, kept_in, key_order_is_sorted, moved, ordered, row_at, scores_without, without,
    Identified,
};
use crate::picks::{favorite_toggled, key_confirmed, target_label, target_name, target_tag};
use crate::prompts::{image_type, magnitude};
use crate::sessions::{session_confirmed, session_renamed};
use crate::settings::{grouped_rows, is_toggled, typed_settings};
use crate::spaces::{space_confirmed, space_renamed};
use crate::state::{Config, Settings};
use crate::store::{FloatBits, ImageFile, Message};
use crate::text::{parse_number, text_le, trim};
use crate::text_laws::{blank, trimming_cuts_whitespace};
use crate::ui::{KeyTarget, Popup, SettingsField, SettingsRow};
use vstd::prelude::*;

verus! {

/// What is taken out of a list by its id leaves it, and everything else stays.
pub proof fn only_the_named_leaves<T: Identified>(items: Seq<T>, id: Seq<char>, i: int)
    ensures
        forall|k: int| 0 <= k < without(items, id).len() ==> (#[trigger] without(items, id)[k]).key() != id,
        0 <= i < items.len() && items[i].key() != id ==> without(items, id).contains(items[i]),
        forall|k: int|
            0 <= k < without(items, id).len() ==> items.contains(#[trigger] without(items, id)[k]),
    decreases items.len(),
{
    if items.len() > 0 {
        let rest = items.drop_last();
        only_the_named_leaves(rest, id, i);
        let before = without(rest, id);
        let all = without(items, id);
        assert forall|k: int| 0 <= k < all.len() implies (#[trigger] all[k]).key() != id by {
            if k < before.len() {
                assert(all[k] == before[k]);
            }
        }
        assert forall|k: int| 0 <= k < all.len() implies items.contains(#[trigger] all[k]) by {
            if k < before.len() {
                assert(all[k] == before[k]);
                assert(rest.contains(before[k]));
                let j = choose|j: int| 0 <= j < rest.len() && rest[j] == before[k];
                assert(items[j] == all[k]);
            } else {
                assert(items[items.len() - 1] == all[k]);
            }
        }
        if 0 <= i < items.len() && items[i].key() != id {
            if i < items.len() - 1 {
                assert(rest[i] == items[i]);
                let k = choose|k: int| 0 <= k < before.len() && before[k] == items[i];
                assert(all[k] == items[i]);
            } else {
                assert(all.last() == items[i]);
            }
        }
    }
}

/// A list keeps as many scores as items when one leaves it.
pub proof fn scores_leave_with_their_items<T: Identified>(
    items: Seq<T>,
    scores: Seq<Option<i32>>,
    id: Seq<char>,
    i: int,
)
    requires
        items.len() == scores.len(),
    ensures
        scores_without(items, scores, id).len() == without(items, id).len(),
        0 <= i < items.len() && items[i].key() != id ==> exists|k: int|
            0 <= k < without(items, id).len() && #[trigger] without(items, id)[k] == items[i]
                && scores_without(items, scores, id)[k] == scores[i],
    decreases items.len(),
{
    if items.len() > 0 {
        let (rest, left) = (items.drop_last(), scores.drop_last());
        scores_leave_with_their_items(rest, left, id, i);
        let before = without(rest, id);
        let all = without(items, id);
        if 0 <= i < items.len() && items[i].key() != id {
            if i < items.len() - 1 {
                assert(rest[i] == items[i]);
                let k = choose|k: int|
                    0 <= k < before.len() && #[trigger] before[k] == rest[i] && scores_without(
                        rest,
                        left,
                        id,
                    )[k] == left[i];
                assert(all[k] == before[k]);
            } else {
                assert(all[all.len() - 1] == items[i]);
            }
        }
    }
}

/// A cursor stays within its list, and where it was as far as that goes.
pub proof fn a_cursor_stays_in_the_list(current: int, len: int, delta: int)
    requires
        0 <= current,
        0 <= len,
    ensures
        len > 0 ==> 0 <= kept_in(current, len) < len,
        current < len ==> kept_in(current, len) == current,
        current >= len > 0 ==> kept_in(current, len) == len - 1,
        len == 0 ==> kept_in(current, len) == 0 && moved(current, len, delta) == 0,
        len > 0 ==> 0 <= moved(current, len, delta) < len,
        0 <= current + delta < len ==> moved(current, len, delta) == current + delta,
{
}

/// Without a filter the cursor is at the row of its number.
pub proof fn an_unfiltered_list_shows_all(
    filter: Seq<char>,
    n: nat,
    scores: Seq<Option<i32>>,
    i: int,
)
    requires
        blank(filter),
    ensures
        0 <= i < n ==> row_at(filter, n, scores, i) == Some(i),
        i < 0 || i >= n ==> row_at(filter, n, scores, i) is None,
        all_rows(n).len() == n,
{
    trimming_cuts_whitespace(filter);
}

/// A session that is opened is the one under the cursor, with its rows and its
/// model.
pub proof fn an_opened_session_is_shown(
    before: App,
    after: App,
    effects: Seq<EffectView>,
    scores: Seq<Option<i32>>,
    messages: Vec<Message>,
    row: int,
)
    requires
        session_confirmed(before, after, effects, scores, Some(messages)),
        before.sessions.row(scores) == Some(row),
    ensures
        after.talk.session == Some(before.sessions.cache@[row]),
        after.talk.messages == messages,
        after.talk.context_total is None,
        after.catalog.current == Some(before.sessions.cache@[row].model),
        after.screen.popup == Popup::Closed,
        after.sessions == before.sessions,
{
}

/// A session whose rows could not be read is not opened.
pub proof fn an_unread_session_is_not_shown(
    before: App,
    after: App,
    effects: Seq<EffectView>,
    scores: Seq<Option<i32>>,
)
    requires
        session_confirmed(before, after, effects, scores, None),
    ensures
        after.talk == before.talk,
        after.catalog == before.catalog,
        effects.len() == 0,
{
}

/// A session is renamed to what was typed, in the list and where it is viewed.
pub proof fn a_session_is_renamed(
    before: App,
    after: App,
    scores: Seq<Option<i32>>,
    row: int,
)
    requires
        session_renamed(before, after, scores, true),
        before.sessions.row(scores) == Some(row),
        0 <= row < before.sessions.cache@.len(),
        forall|j: int|
            0 <= j < before.sessions.cache@.len() && j != row ==> (
            #[trigger] before.sessions.cache@[j]).id@ != before.sessions.cache@[row].id@,
        !blank(before.sessions.edit@),
    ensures
        after.sessions.cache@.len() == before.sessions.cache@.len(),
        after.sessions.cache@[row].title@ == trim(before.sessions.edit@),
        before.talk.is_of(before.sessions.cache@[row].id@) ==> (after.talk.session matches Some(s)
            && s.title@ == trim(before.sessions.edit@)),
        after.talk.messages == before.talk.messages,
{
    trimming_cuts_whitespace(before.sessions.edit@);
    crate::client_laws::a_renamed_session_has_its_title(
        before.sessions.cache@,
        before.sessions.cache@[row].id@,
        trim(before.sessions.edit@),
        after.sessions.cache@,
        row,
    );
}

/// A blank title, or one that the store did not take, renames nothing.
pub proof fn a_refused_title_renames_nothing(
    before: App,
    after: App,
    scores: Seq<Option<i32>>,
    stored: bool,
)
    requires
        session_renamed(before, after, scores, stored),
        !stored || blank(before.sessions.edit@),
    ensures
        after.sessions.cache == before.sessions.cache,
        after.talk == before.talk,
{
    trimming_cuts_whitespace(before.sessions.edit@);
}

/// A space that is entered is the active one, with a blank conversation.
pub proof fn an_entered_space_is_active(
    before: App,
    after: App,
    effects: Seq<EffectView>,
    scores: Seq<Option<i32>>,
    row: int,
)
    requires
        space_confirmed(before, after, effects, scores),
        before.spaces.row(scores) == Some(row),
    ensures
        after.active_space == before.spaces.cache@[row],
        after.talk.session is None && after.talk.messages@.len() == 0,
        after.screen.popup == Popup::Closed,
        effects.contains(EffectView::RescanFiles),
        effects.contains(EffectView::RefreshToolbox),
        effects.contains(EffectView::DropImages),
{
    assert(effects[0] == EffectView::DropImages);
    assert(effects[1] == EffectView::RescanFiles);
    assert(effects[2] == EffectView::RefreshToolbox);
}

/// A space is renamed to what was typed, in the list and where it is active;
/// its apps move along.
pub proof fn a_space_is_renamed(
    before: App,
    after: App,
    effects: Seq<EffectView>,
    scores: Seq<Option<i32>>,
    row: int,
)
    requires
        space_renamed(before, after, effects, scores, true),
        before.spaces.row(scores) == Some(row),
        0 <= row < before.spaces.cache@.len(),
        forall|j: int|
            0 <= j < before.spaces.cache@.len() && j != row ==> (
            #[trigger] before.spaces.cache@[j]).id@ != before.spaces.cache@[row].id@,
        !blank(before.spaces.edit@),
    ensures
        after.spaces.cache@.len() == before.spaces.cache@.len(),
        after.spaces.cache@[row].name@ == trim(before.spaces.edit@),
        before.active_space.id@ == before.spaces.cache@[row].id@ ==> after.active_space.name@
            == trim(before.spaces.edit@) && after.active_space.id == before.active_space.id,
        before.active_space.id@ != before.spaces.cache@[row].id@ ==> after.active_space
            == before.active_space,
        before.app_server ==> effects.contains(
            EffectView::RenameApps {
                from: before.spaces.cache@[row].name@,
                to: trim(before.spaces.edit@),
            },
        ),
{
    trimming_cuts_whitespace(before.spaces.edit@);
    crate::client_laws::a_renamed_space_has_its_name(
        before.spaces.cache@,
        before.spaces.cache@[row].id@,
        trim(before.spaces.edit@),
        after.spaces.cache@,
        row,
    );
    if before.app_server {
        assert(effects[0] is RenameApps);
    }
}

/// A model becomes a favorite or stops being one, and no other does.
pub proof fn a_favorite_is_kept(before: App, after: App, id: Seq<char>, fav: bool, other: Seq<char>)
    requires
        favorite_toggled(before, after, Some(fav)),
        before.catalog.focused() == Some(id),
    ensures
        after.catalog.favorites@.contains(id) <==> fav,
        other != id ==> (after.catalog.favorites@.contains(other)
            <==> before.catalog.favorites@.contains(other)),
        after.catalog.models == before.catalog.models,
        after.catalog.current == before.catalog.current,
        id.is_suffix_of(after.screen.status@),
{
    let (a, b) = ("★ favorited "@ + id, "unfavorited "@ + id);
    assert(a.skip(a.len() - id.len()) =~= id);
    assert(b.skip(b.len() - id.len()) =~= id);
}

/// A key that was pasted is the key of the backend that it was asked for; a
/// blank one changes no key.
pub proof fn a_pasted_key_is_kept(
    before: App,
    after: App,
    effects: Seq<EffectView>,
    utility_model: String,
    research_model: String,
)
    requires
        key_confirmed(before, after, effects, utility_model, research_model),
    ensures
        after.login.key_input@.len() == 0,
        blank(before.login.key_input@) ==> after.saved == before.saved && after.backends
            == before.backends && effects.len() == 0,
        !blank(before.login.key_input@) ==> {
            &&& after.saved.key_of(before.login.key_target) matches Some(k) && k@ == trim(
                before.login.key_input@,
            )
            &&& after.backends.of(
                target_tag(before.login.key_target),
            ) matches Some(x) && x.key@ == trim(before.login.key_input@)
            &&& effects.len() == 2 && effects[1] == EffectView::FetchModels
        },
{
    trimming_cuts_whitespace(before.login.key_input@);
}

/// A setting that is a switch is switched, and no other is.
pub proof fn a_switch_is_switched(before: Config, after: Config, f: SettingsField)
    requires
        is_toggled(before, after, f),
    ensures
        f == SettingsField::ShowStats ==> after.settings.show_stats != before.settings.show_stats,
        f != SettingsField::ShowStats ==> after.settings.show_stats == before.settings.show_stats,
        f == SettingsField::ShowReasoning ==> after.settings.show_reasoning
            != before.settings.show_reasoning,
        f != SettingsField::ShowReasoning ==> after.settings.show_reasoning
            == before.settings.show_reasoning,
        f == SettingsField::HideHints ==> after.settings.hide_hints != before.settings.hide_hints,
        f != SettingsField::HideHints ==> after.settings.hide_hints == before.settings.hide_hints,
        f == SettingsField::Verbosity ==> after.verbosity@ != before.verbosity@,
        f != SettingsField::Verbosity ==> after.verbosity == before.verbosity,
        f == SettingsField::SearchProvider ==> after.search_provider@ != before.search_provider@,
        f != SettingsField::SearchProvider ==> after.search_provider == before.search_provider,
        after.memory_model == before.memory_model && after.research_model == before.research_model,
{
    reveal_strlit("normal");
    reveal_strlit("concise");
    reveal_strlit("caveman");
    reveal_strlit("langsearch");
    reveal_strlit("searxng");
    reveal_strlit("duckduckgo");
    reveal_strlit("auto");
    assert("normal"@.len() == 6 && "concise"@.len() == 7 && "caveman"@.len() == 7);
    assert("langsearch"@[0] == 'l' && "searxng"@[0] == 's' && "duckduckgo"@[0] == 'd');
    assert("auto"@[0] == 'a' && "concise"@[1] == 'o' && "caveman"@[1] == 'a');
}

/// The backends that are configured are those that are there, in their order.
pub proof fn configured_backends_are_there(b: Backends, tags: Seq<BackendTag>, t: BackendTag)
    ensures
        b.of(t) is Some ==> b.configured(tags.push(t)) == b.configured(tags).push(t),
        b.of(t) is None ==> b.configured(tags.push(t)) == b.configured(tags),
        b.configured(Seq::empty()).len() == 0,
{
    assert(tags.push(t).drop_last() =~= tags);
}

/// A byte is written as its two digits to the base of sixteen, the higher one
/// first.
pub proof fn a_byte_is_two_digits(bytes: Seq<u8>, b: u8)
    ensures
        hex(Seq::empty()).len() == 0,
        hex(bytes.push(b)) == hex(bytes) + seq![
            hex_digit(b as int / 16),
            hex_digit(b as int % 16),
        ],
        forall|d: int| 0 <= d < 10 ==> #[trigger] hex_digit(d) as int == '0' as int + d,
        forall|d: int| 10 <= d < 16 ==> #[trigger] hex_digit(d) as int == 'a' as int + d - 10,
{
    assert(bytes.push(b).drop_last() =~= bytes);
    assert(hex(bytes.push(b)) =~= hex(bytes) + seq![
        hex_digit(b as int / 16),
        hex_digit(b as int % 16),
    ]);
}

/// An image is sent under the type of its ending; a photo ending has one type,
/// and any ending that is not known is taken as the plainest.
pub proof fn an_image_has_its_type(ext: Seq<char>)
    ensures
        ext == "gif"@ || ext == "webp"@ || ext == "bmp"@ || ext == "png"@ || ext == "jpeg"@
            ==> image_type(ext) == "image/"@ + ext,
        ext == "jpg"@ ==> image_type(ext) == "image/jpeg"@,
        ext != "gif"@ && ext != "webp"@ && ext != "bmp"@ && ext != "jpeg"@ && ext != "jpg"@
            ==> image_type(ext) == "image/png"@,
{
    reveal_strlit("gif");
    reveal_strlit("webp");
    reveal_strlit("bmp");
    reveal_strlit("png");
    reveal_strlit("jpeg");
    reveal_strlit("jpg");
    reveal_strlit("image/");
    reveal_strlit("image/gif");
    reveal_strlit("image/webp");
    reveal_strlit("image/bmp");
    reveal_strlit("image/png");
    reveal_strlit("image/jpeg");
    assert("gif"@[0] == 'g' && "webp"@[0] == 'w' && "bmp"@[0] == 'b' && "png"@[0] == 'p');
    assert("jpeg"@[0] == 'j' && "jpg"@[0] == 'j' && "jpeg"@.len() == 4 && "jpg"@.len() == 3);
    assert("image/"@ + "gif"@ =~= "image/gif"@);
    assert("image/"@ + "webp"@ =~= "image/webp"@);
    assert("image/"@ + "bmp"@ =~= "image/bmp"@);
    assert("image/"@ + "png"@ =~= "image/png"@);
    assert("image/"@ + "jpeg"@ =~= "image/jpeg"@);
}

/// A key is asked for, saved and used under the backend that it is for.
pub proof fn a_key_has_one_backend(a: KeyTarget, b: KeyTarget)
    ensures
        target_label(KeyTarget::OpenRouter) == "OpenRouter"@,
        target_label(KeyTarget::OpenAi) == "OpenAI"@,
        target_label(KeyTarget::OpencodeGo) == "OpenCode Go"@,
        target_tag(KeyTarget::OpenRouter) == BackendTag::OpenRouter,
        target_tag(KeyTarget::OpenAi) == BackendTag::OpenAi,
        target_tag(KeyTarget::OpencodeGo) == BackendTag::OpencodeGo,
        target_name(a) == target_name(b) ==> a == b,
        target_tag(a) == target_tag(b) ==> a == b,
{
    reveal_strlit("openrouter");
    reveal_strlit("openai");
    reveal_strlit("opencode");
    assert("openrouter"@.len() == 10 && "openai"@.len() == 6 && "opencode"@.len() == 8);
}

/// A size is shown without its sign.
pub proof fn a_size_has_no_sign(n: i64)
    ensures
        n >= 0 ==> magnitude(n) == n,
        n < 0 ==> magnitude(n) + n == 0,
{
}

/// The frames of a video are known by their names.
pub proof fn a_frame_belongs_to_its_video(stem: Seq<char>)
    ensures
        video_stem(stem + "_first"@) == Some(stem),
        video_stem(stem + "_last"@) == Some(stem),
{
    reveal_strlit("_first");
    reveal_strlit("_last");
    let (a, b) = (stem + "_first"@, stem + "_last"@);
    assert(a.skip(a.len() - "_first"@.len()) =~= "_first"@);
    assert(a.take(a.len() - "_first"@.len()) =~= stem);
    assert(b.skip(b.len() - "_last"@.len()) =~= "_last"@);
    assert(b.take(b.len() - "_last"@.len()) =~= stem);
    assert(b[b.len() - 2] == 's' && b[b.len() - 3] == 'a');
    if "_first"@.is_suffix_of(b) {
        assert(b.skip(b.len() - 6)[3] == 'r');
        assert(b[b.len() - 3] == 'r');
    }
}

/// Every image that is there is listed once, with its name and its size, in
/// the order of the names.
pub proof fn every_image_is_listed(list: Seq<ImageFile>, i: int)
    ensures
        image_rows(list).len() == list.len(),
        0 <= i < list.len() ==> exists|k: int|
            0 <= k < image_rows(list).len() && (#[trigger] image_rows(list)[k]).name
                == list[i].name@ && image_rows(list)[k].size == list[i].size,
        forall|a: int, b: int|
            0 <= a < b < image_rows(list).len() ==> text_le(
                #[trigger] image_rows(list)[a].name,
                #[trigger] image_rows(list)[b].name,
            ),
{
    let keys = image_keys(list);
    key_order_is_sorted(keys);
    let o = ordered(keys);
    let all = image_rows(list);
    assert(all.len() == list.len());
    if 0 <= i < list.len() {
        assert(o.contains(i));
        let k = choose|k: int| 0 <= k < o.len() && o[k] == i;
        assert(all[k].name == list[i].name@);
    }
    assert forall|a: int, b: int| 0 <= a < b < all.len() implies text_le(
        #[trigger] all[a].name,
        #[trigger] all[b].name,
    ) by {
        assert(o.contains(o[a]) && o.contains(o[b]));
        assert(all[a].name == keys[o[a]].1 && all[b].name == keys[o[b]].1);
        assert(keys[o[a]].0 == keys[o[b]].0);
    }
}

/// What is typed for the threshold is taken as a share of a hundred at most,
/// and none where it is no number; what is typed for the tokens is taken as it
/// is.
pub proof fn a_typed_threshold_is_a_share(
    s: Settings,
    inputs: Seq<Seq<char>>,
    temperature: Option<FloatBits>,
    top_p: Option<FloatBits>,
)
    ensures
        ({
            let t = typed_settings(s, inputs, temperature, top_p);
            &&& t.compact_threshold <= 100
            &&& parse_number(trim(inputs[3]), u8::MAX as nat) matches Some(n) ==> (n <= 100
                ==> t.compact_threshold == n)
            &&& parse_number(trim(inputs[3]), u8::MAX as nat) is None ==> t.compact_threshold == 0
            &&& parse_number(trim(inputs[2]), u32::MAX as nat) is None ==> t.max_tokens is None
            &&& t.temperature == temperature && t.top_p == top_p
            &&& t.show_stats == s.show_stats && t.show_reasoning == s.show_reasoning
        }),
{
}

/// Every group of settings has its header, and every setting of a group that
/// is not folded its row.
pub proof fn every_setting_has_its_row(
    groups: Seq<Vec<SettingsField>>,
    collapsed: Set<usize>,
    n: nat,
    g: int,
    f: int,
)
    requires
        0 <= g < n <= groups.len() <= usize::MAX,
    ensures
        grouped_rows(groups, collapsed, n).contains(SettingsRow::Group(g as usize)),
        !collapsed.contains(g as usize) && 0 <= f < groups[g]@.len() ==> grouped_rows(
            groups,
            collapsed,
            n,
        ).contains(SettingsRow::Field(groups[g]@[f])),
    decreases n,
{
    let before = grouped_rows(groups, collapsed, (n - 1) as nat);
    let all = grouped_rows(groups, collapsed, n);
    let header = SettingsRow::Group(g as usize);
    if g < n - 1 {
        every_setting_has_its_row(groups, collapsed, (n - 1) as nat, g, f);
        let k = choose|k: int| 0 <= k < before.len() && before[k] == header;
        assert(all[k] == header);
        if !collapsed.contains(g as usize) && 0 <= f < groups[g]@.len() {
            let row = SettingsRow::Field(groups[g]@[f]);
            let j = choose|j: int| 0 <= j < before.len() && before[j] == row;
            assert(all[j] == row);
        }
    } else {
        assert(all[before.len() as int] == header);
        if !collapsed.contains(g as usize) && 0 <= f < groups[g]@.len() {
            assert(all[before.len() + 1 + f] == SettingsRow::Field(groups[g]@[f]));
        }
    }
}

} // verus!
