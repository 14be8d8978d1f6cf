//! The settings popup.

use crate::effects::{and_effect, no_effects, one_effect, Effect, EffectView};
use crate::state::{
    says, Config, Jobs, Screen, Settings, SettingsGroups, SettingsPopup, SETTINGS_INPUTS,
};
use crate::store::FloatBits;
use crate::text::{
    decimal, decimal_of, erase_last, erased, number_in, parse_number, same, texts, trim,
    trim_end_char, trimmed, trimmed_end_char, views, views_push,
};
use crate::ui::{
    all_fields, next_ocr_engine, next_search_provider, next_verbosity, ocr_engine_after,
    search_provider_after, verbosity_after, Popup, SettingsField, SettingsRow, SETTINGS_FIELDS,
};
use std::collections::HashSet;
use vstd::arithmetic::div_mod::{
    lemma_fundamental_div_mod, lemma_fundamental_div_mod_converse,
};
use vstd::prelude::*;
use vstd::string::*;

verus! {

broadcast use vstd::std_specs::hash::group_hash_axioms;

/// Which edit buffer belongs to a row of the settings.
pub open spec fn input_of(f: SettingsField) -> Option<int> {
    match f {
        SettingsField::Temperature => Some(0int),
        SettingsField::TopP => Some(1),
        SettingsField::MaxTokens => Some(2),
        SettingsField::CompactThreshold => Some(3),
        SettingsField::SearxngUrl => Some(4),
        SettingsField::LangsearchKey => Some(5),
        _ => None,
    }
}

/// The control characters: C0, delete and C1.
pub open spec fn is_control(c: char) -> bool {
    c as u32 <= 0x1f || 0x7f <= c as u32 <= 0x9f
}

/// Whether a row takes a character: numbers take digits and a point, texts
/// take anything but control characters.
pub open spec fn takes(f: SettingsField, c: char) -> bool {
    if f == SettingsField::SearxngUrl || f == SettingsField::LangsearchKey {
        !is_control(c)
    } else {
        '0' <= c <= '9' || c == '.'
    }
}

/// The configuration with the selected row toggled or cycled.
pub open spec fn toggled(c: Config, f: SettingsField, verbosity: String, provider: String) -> Config {
    match f {
        SettingsField::ShowStats => Config {
            settings: Settings { show_stats: !c.settings.show_stats, ..c.settings },
            ..c
        },
        SettingsField::ShowReasoning => Config {
            settings: Settings { show_reasoning: !c.settings.show_reasoning, ..c.settings },
            ..c
        },
        SettingsField::HideHints => Config {
            settings: Settings { hide_hints: !c.settings.hide_hints, ..c.settings },
            ..c
        },
        SettingsField::Verbosity => Config { verbosity, ..c },
        SettingsField::SearchProvider => Config { search_provider: provider, ..c },
        _ => c,
    }
}

/// Whether `after` is the configuration with the field toggled or cycled.
pub open spec fn is_toggled(before: Config, after: Config, f: SettingsField) -> bool {
    &&& after == toggled(before, f, after.verbosity, after.search_provider)
    &&& f == SettingsField::Verbosity ==> after.verbosity@ == next_verbosity(before.verbosity@)
    &&& f == SettingsField::SearchProvider ==> after.search_provider@ == next_search_provider(
        before.search_provider@,
    )
}

/// The rows that grouped settings show: the header of each group, and its
/// fields where it is not collapsed.
pub open spec fn grouped_rows(
    groups: Seq<Vec<SettingsField>>,
    collapsed: Set<usize>,
    n: nat,
) -> Seq<SettingsRow>
    decreases n,
{
    if n == 0 {
        Seq::empty()
    } else {
        let before = grouped_rows(groups, collapsed, (n - 1) as nat).push(
            SettingsRow::Group((n - 1) as usize),
        );
        if collapsed.contains((n - 1) as usize) {
            before
        } else {
            before + groups[n - 1]@.map_values(|f: SettingsField| SettingsRow::Field(f))
        }
    }
}

/// The rows that grouped settings show.
pub fn settings_rows(groups: &Vec<Vec<SettingsField>>, collapsed: &HashSet<usize>) -> (r: Vec<
    SettingsRow,
>)
    ensures
        r@ == grouped_rows(groups@, collapsed@, groups@.len()),
{
    let mut out: Vec<SettingsRow> = Vec::new();
    let mut i: usize = 0;
    assert(out@ =~= Seq::empty());
    while i < groups.len()
        invariant
            i <= groups@.len(),
            out@ == grouped_rows(groups@, collapsed@, i as nat),
        decreases groups@.len() - i,
    {
        out.push(SettingsRow::Group(i));
        if !collapsed.contains(&i) {
            let ghost head = out@;
            let ghost all = groups@[i as int]@.map_values(|f: SettingsField| SettingsRow::Field(f));
            let mut k: usize = 0;
            assert(head + all.take(0) =~= head);
            while k < groups[i].len()
                invariant
                    i < groups@.len(),
                    k <= groups@[i as int]@.len(),
                    all == groups@[i as int]@.map_values(
                        |f: SettingsField| SettingsRow::Field(f),
                    ),
                    out@ == head + all.take(k as int),
                decreases groups@[i as int]@.len() - k,
            {
                out.push(SettingsRow::Field(groups[i][k]));
                assert(out@ =~= head + all.take(k + 1));
                k += 1;
            }
            assert(all.take(k as int) =~= all);
        }
        i += 1;
    }
    out
}

/// The row of grouped settings that a cursor is on; one behind the last counts
/// as on it.
pub open spec fn row_shown(rows: Seq<SettingsRow>, selected: int) -> SettingsRow {
    if rows.len() == 0 {
        SettingsRow::Group(0)
    } else if selected < rows.len() {
        rows[selected]
    } else {
        rows.last()
    }
}

/// The row of grouped settings that a cursor is on; one behind the last counts
/// as on it.
pub fn settings_row(
    groups: &Vec<Vec<SettingsField>>,
    collapsed: &HashSet<usize>,
    selected: usize,
) -> (r: SettingsRow)
    ensures
        r == row_shown(grouped_rows(groups@, collapsed@, groups@.len()), selected as int),
{
    let rows = settings_rows(groups, collapsed);
    if rows.len() == 0 {
        SettingsRow::Group(0)
    } else if selected < rows.len() {
        rows[selected]
    } else {
        rows[rows.len() - 1]
    }
}

/// The collapsed groups once one is folded: it collapses where it was open,
/// and opens where it was collapsed.
pub open spec fn folded(collapsed: Set<usize>, group: usize) -> Set<usize> {
    if collapsed.contains(group) { collapsed.remove(group) } else { collapsed.insert(group) }
}

/// Folding a group twice shows what was shown before.
pub proof fn folding_twice_undoes(collapsed: Set<usize>, group: usize)
    ensures
        folded(folded(collapsed, group), group) == collapsed,
{
    assert(folded(folded(collapsed, group), group) =~= collapsed);
}

proof fn rows_before_stay(
    groups: Seq<Vec<SettingsField>>,
    collapsed: Set<usize>,
    group: usize,
    n: nat,
)
    requires
        n <= group,
    ensures
        grouped_rows(groups, folded(collapsed, group), n) == grouped_rows(groups, collapsed, n),
    decreases n,
{
    if n > 0 {
        rows_before_stay(groups, collapsed, group, (n - 1) as nat);
    }
}

proof fn header_stands(
    groups: Seq<Vec<SettingsField>>,
    collapsed: Set<usize>,
    group: usize,
    n: nat,
)
    requires
        group < n <= groups.len() <= usize::MAX,
    ensures
        grouped_rows(groups, collapsed, group as nat).len() < grouped_rows(groups, collapsed, n).len(),
        grouped_rows(groups, collapsed, n)[grouped_rows(groups, collapsed, group as nat).len() as int]
            == SettingsRow::Group(group),
    decreases n,
{
    if group < n - 1 {
        header_stands(groups, collapsed, group, (n - 1) as nat);
    }
}

proof fn header_is_found(
    groups: Seq<Vec<SettingsField>>,
    collapsed: Set<usize>,
    group: usize,
    n: nat,
    at: int,
)
    requires
        n <= groups.len() <= usize::MAX,
        0 <= at < grouped_rows(groups, collapsed, n).len(),
        grouped_rows(groups, collapsed, n)[at] == SettingsRow::Group(group),
    ensures
        group < n,
        at == grouped_rows(groups, collapsed, group as nat).len(),
    decreases n,
{
    let before = grouped_rows(groups, collapsed, (n - 1) as nat);
    if at < before.len() {
        header_is_found(groups, collapsed, group, (n - 1) as nat, at);
    }
}

/// Folding the group under the cursor leaves the cursor on its header.
pub proof fn the_header_stays_selected(
    groups: Seq<Vec<SettingsField>>,
    collapsed: Set<usize>,
    group: usize,
    at: int,
)
    requires
        groups.len() <= usize::MAX,
        0 <= at < grouped_rows(groups, collapsed, groups.len()).len(),
        row_shown(grouped_rows(groups, collapsed, groups.len()), at) == SettingsRow::Group(group),
    ensures
        ({
            let rows = grouped_rows(groups, folded(collapsed, group), groups.len());
            at < rows.len() && row_shown(rows, at) == SettingsRow::Group(group)
        }),
{
    header_is_found(groups, collapsed, group, groups.len(), at);
    rows_before_stay(groups, collapsed, group, group as nat);
    header_stands(groups, folded(collapsed, group), group, groups.len());
}

impl SettingsGroups {
    /// The rows that are shown.
    pub open spec fn shown(&self, groups: Seq<Vec<SettingsField>>) -> Seq<SettingsRow> {
        grouped_rows(groups, self.collapsed@, groups.len())
    }

    /// The field under the cursor; none on the header of a group.
    pub fn settings_field(&self, groups: &Vec<Vec<SettingsField>>) -> (r: Option<SettingsField>)
        ensures
            r == (match row_shown(self.shown(groups@), self.selected as int) {
                SettingsRow::Field(f) => Some(f),
                SettingsRow::Group(_) => None,
            }),
    {
        match settings_row(groups, &self.collapsed, self.selected) {
            SettingsRow::Field(f) => Some(f),
            SettingsRow::Group(_) => None,
        }
    }

    /// Moves the cursor over the rows that are shown, round the ends.
    pub fn move_settings_selection(&mut self, groups: &Vec<Vec<SettingsField>>, delta: i32)
        requires
            old(self).shown(groups@).len() <= i32::MAX,
            old(self).selected <= i32::MAX,
            i32::MIN <= old(self).selected + delta <= i32::MAX,
        ensures
            if old(self).shown(groups@).len() == 0 {
                *final(self) == *old(self)
            } else {
                *final(self) == (SettingsGroups {
                    selected: ((old(self).selected + delta) % (old(self).shown(
                        groups@,
                    ).len() as int)) as usize,
                    ..*old(self)
                })
            },
    {
        let n: i64 = settings_rows(groups, &self.collapsed).len() as i64;
        if n == 0 {
            return;
        }
        let at: i64 = self.selected as i64 + delta as i64;
        let m: i64 = if at >= 0 { at % n } else { n - 1 - (-(at + 1)) % n };
        proof {
            let k = -(at + 1);
            let q = k / (n as int);
            if at < 0 {
                lemma_fundamental_div_mod(k, n as int);
                assert(at == (-(q + 1)) * n + m) by (nonlinear_arith)
                    requires
                        k == n * q + k % (n as int),
                        k == -(at + 1),
                        m == n - 1 - k % (n as int),
                ;
                lemma_fundamental_div_mod_converse(at as int, n as int, -(q + 1), m as int);
            }
        }
        self.selected = m as usize;
    }

    /// Folds the group whose header the cursor is on, or toggles or cycles the
    /// field that it is on.
    pub fn toggle_settings_field(&mut self, groups: &Vec<Vec<SettingsField>>, config: &mut Config)
        ensures
            match row_shown(old(self).shown(groups@), old(self).selected as int) {
                SettingsRow::Group(i) => {
                    &&& *final(self) == (SettingsGroups {
                        collapsed: final(self).collapsed,
                        ..*old(self)
                    })
                    &&& final(self).collapsed@ == folded(old(self).collapsed@, i)
                    &&& *final(config) == *old(config)
                },
                SettingsRow::Field(f) => *final(self) == *old(self) && is_toggled(
                    *old(config),
                    *final(config),
                    f,
                ),
            },
    {
        match settings_row(groups, &self.collapsed, self.selected) {
            SettingsRow::Group(i) => {
                if !self.collapsed.remove(&i) {
                    self.collapsed.insert(i);
                }
                assert(self.collapsed@ =~= folded(old(self).collapsed@, i));
            },
            SettingsRow::Field(f) => {
                toggle_field(config, f);
            },
        }
    }
}

/// Toggles or cycles a field; those that are typed or picked have nothing to
/// toggle.
fn toggle_field(config: &mut Config, f: SettingsField)
    ensures
        is_toggled(*old(config), *final(config), f),
{
    match f {
        SettingsField::ShowStats => {
            config.settings.show_stats = !config.settings.show_stats;
        },
        SettingsField::ShowReasoning => {
            config.settings.show_reasoning = !config.settings.show_reasoning;
        },
        SettingsField::HideHints => {
            config.settings.hide_hints = !config.settings.hide_hints;
        },
        SettingsField::Verbosity => {
            config.verbosity = verbosity_after(config.verbosity.as_str()).to_owned();
        },
        SettingsField::SearchProvider => {
            config.search_provider = search_provider_after(
                config.search_provider.as_str(),
            ).to_owned();
        },
        _ => {},
    }
}

impl SettingsPopup {
    /// A row is selected, and each text row has an edit buffer.
    pub open spec fn wf(&self) -> bool {
        self.selected < SETTINGS_FIELDS && self.inputs@.len() == SETTINGS_INPUTS
    }

    /// The selected row.
    pub fn settings_field(&self) -> (r: SettingsField)
        requires
            self.wf(),
        ensures
            r == all_fields()[self.selected as int],
    {
        SettingsField::at(self.selected)
    }

    /// Moves the cursor, round the ends.
    pub fn move_settings_selection(&mut self, delta: i32)
        requires
            old(self).wf(),
        ensures
            *final(self) == (SettingsPopup {
                selected: ((old(self).selected + delta) % 13) as usize,
                ..*old(self)
            }),
            final(self).wf(),
    {
        let at: i64 = self.selected as i64 + delta as i64;
        let m: i64 = if at >= 0 { at % 13 } else { 12 - (-(at + 1)) % 13 };
        assert(m == (self.selected + delta) % 13) by (nonlinear_arith)
            requires
                at == self.selected + delta,
                at >= 0 ==> m == at % 13,
                at < 0 ==> m == 12 - (-(at + 1)) % 13,
        {}
        self.selected = m as usize;
    }

    /// The edit buffer of the selected row, where it has one.
    pub fn text_index(&self) -> (r: Option<usize>)
        requires
            self.wf(),
        ensures
            match r {
                Some(i) => input_of(all_fields()[self.selected as int]) == Some(i as int)
                    && i < self.inputs@.len(),
                None => input_of(all_fields()[self.selected as int]) is None,
            },
    {
        match self.settings_field() {
            SettingsField::Temperature => Some(0),
            SettingsField::TopP => Some(1),
            SettingsField::MaxTokens => Some(2),
            SettingsField::CompactThreshold => Some(3),
            SettingsField::SearxngUrl => Some(4),
            SettingsField::LangsearchKey => Some(5),
            _ => None,
        }
    }

    /// Whether `self` is `before` with another text in one edit buffer.
    pub open spec fn is_edited(&self, before: SettingsPopup, i: int, text: Seq<char>) -> bool {
        &&& *self == (SettingsPopup { inputs: self.inputs, ..before })
        &&& self.inputs@ == before.inputs@.update(i, self.inputs@[i])
        &&& self.inputs@[i]@ == text
    }

    /// Types a character into the selected row, where the row takes it.
    pub fn settings_input_char(&mut self, c: char)
        requires
            old(self).wf(),
        ensures
            final(self).wf(),
            ({
                let f = all_fields()[old(self).selected as int];
                match input_of(f) {
                    Some(i) if takes(f, c) => final(self).is_edited(
                        *old(self),
                        i,
                        old(self).inputs@[i]@.push(c),
                    ),
                    _ => *final(self) == *old(self),
                }
            }),
    {
        if let Some(i) = self.text_index() {
            let f = self.settings_field();
            let fits = if f == SettingsField::SearxngUrl || f == SettingsField::LangsearchKey {
                let n: u32 = c as u32;
                !(n <= 0x1f || (0x7f <= n && n <= 0x9f))
            } else {
                ('0' <= c && c <= '9') || c == '.'
            };
            if fits {
                let mut s = self.inputs[i].clone();
                s.push(c);
                self.inputs.set(i, s);
            }
        }
    }

    /// Erases the last character of the selected row.
    pub fn settings_input_backspace(&mut self)
        requires
            old(self).wf(),
        ensures
            final(self).wf(),
            match input_of(all_fields()[old(self).selected as int]) {
                Some(i) => final(self).is_edited(*old(self), i, erased(old(self).inputs@[i]@)),
                None => *final(self) == *old(self),
            },
    {
        if let Some(i) = self.text_index() {
            let mut s = self.inputs[i].clone();
            erase_last(&mut s);
            self.inputs.set(i, s);
        }
    }

    /// Toggles or cycles the selected row; text rows and model rows have
    /// nothing to toggle.
    pub fn toggle_settings_field(&self, config: &mut Config)
        requires
            self.wf(),
        ensures
            is_toggled(*old(config), *final(config), all_fields()[self.selected as int]),
    {
        toggle_field(config, self.settings_field());
    }

    /// Opens the settings popup with the stored values to edit. `temperature`
    /// and `top_p` are the sampling parameters in words, and `blocked` holds
    /// the blocked domains of the space.
    pub fn open_settings(
        &mut self,
        config: &Config,
        screen: &mut Screen,
        temperature: String,
        top_p: String,
        blocked: String,
    )
        ensures
            final(self).selected == 0,
            final(self).grouped == (SettingsGroups { selected: 0, ..old(self).grouped }),
            texts(final(self).inputs@) == seq![
                temperature@,
                top_p@,
                match config.settings.max_tokens {
                    Some(n) => decimal(n as nat),
                    None => Seq::empty(),
                },
                decimal(config.settings.compact_threshold as nat),
                config.searxng_url@,
                config.langsearch_key@,
                config.embedding_model@,
                blocked@,
            ],
            *final(screen) == (Screen {
                popup: Popup::Settings,
                status: final(screen).status,
                ..*old(screen)
            }),
            final(screen).status@
                == "↑/↓ field · type to edit · Space toggles · Ctrl+E system prompt · Esc saves"@,
    {
        let mut inputs: Vec<String> = Vec::new();
        let max_tokens = match config.settings.max_tokens {
            Some(n) => decimal_of(n as u64),
            None => String::new(),
        };
        inputs.push(temperature);
        inputs.push(top_p);
        inputs.push(max_tokens);
        inputs.push(decimal_of(config.settings.compact_threshold as u64));
        inputs.push(config.searxng_url.clone());
        inputs.push(config.langsearch_key.clone());
        inputs.push(config.embedding_model.clone());
        inputs.push(blocked);
        assert(texts(inputs@) =~= seq![
            temperature@,
            top_p@,
            max_tokens@,
            decimal(config.settings.compact_threshold as nat),
            config.searxng_url@,
            config.langsearch_key@,
            config.embedding_model@,
            blocked@,
        ]);
        self.selected = 0;
        self.grouped.selected = 0;
        self.inputs = inputs;
        screen.turn_to(
            Popup::Settings,
            "↑/↓ field · type to edit · Space toggles · Ctrl+E system prompt · Esc saves".to_owned(),
        );
    }
}

/// The sampling parameters and the threshold that the edit buffers hold.
/// `temperature` and `top_p` are what the first two read as numbers.
pub open spec fn typed_settings(
    s: Settings,
    inputs: Seq<Seq<char>>,
    temperature: Option<FloatBits>,
    top_p: Option<FloatBits>,
) -> Settings {
    Settings {
        temperature,
        top_p,
        max_tokens: match parse_number(trim(inputs[2]), u32::MAX as nat) {
            Some(n) => Some(n as u32),
            None => None,
        },
        compact_threshold: match parse_number(trim(inputs[3]), u8::MAX as nat) {
            Some(n) => if n > 100 { 100u8 } else { n as u8 },
            None => 0,
        },
        ..s
    }
}

/// How a switch is stored.
pub open spec fn flag(on: bool) -> Seq<char> {
    if on { "1"@ } else { "0"@ }
}

fn flag_of(on: bool) -> (r: &'static str)
    ensures
        r@ == flag(on),
{
    if on { "1" } else { "0" }
}

pub open spec fn stored(key: Seq<char>, value: Seq<char>) -> EffectView {
    EffectView::SetSetting { key, value }
}

/// The web search URL that an edit buffer holds: without slashes at its end.
pub open spec fn typed_url(input: Seq<char>) -> Seq<char> {
    trim_end_char(trim(input), '/')
}

/// The writes that saving the settings asks for, in their order. `s` holds the
/// sampling parameters that were typed.
pub open spec fn settings_writes(c: Config, s: Settings, inputs: Seq<Seq<char>>) -> Seq<EffectView> {
    seq![
        stored("show_stats"@, flag(s.show_stats)),
        stored("show_reasoning"@, flag(s.show_reasoning)),
        stored("hide_hints"@, flag(s.hide_hints)),
        stored("temperature"@, trim(inputs[0])),
        stored("top_p"@, trim(inputs[1])),
        stored("max_tokens"@, trim(inputs[2])),
        stored("compact_threshold"@, decimal(s.compact_threshold as nat)),
        stored("memory_model"@, trim(c.memory_model@)),
        stored("transcriber_model"@, trim(c.transcriber_model@)),
        stored("searxng_url"@, typed_url(inputs[4])),
        stored("verbosity"@, c.verbosity@),
        stored("langsearch_key"@, trim(inputs[5])),
        stored("search_provider"@, c.search_provider@),
        stored("ocr_model"@, trim(c.ocr_model@)),
        stored("ocr_engine"@, c.ocr_engine@),
        stored("research_model"@, trim(c.research_model@)),
        stored("escalation_model"@, trim(c.escalation_model@)),
        stored("embedding_model"@, trim(inputs[6])),
        EffectView::WriteBlockedDomains { text: trim(inputs[7]) },
        EffectView::RefreshToolbox,
    ]
}

/// How many writes to the store saving the settings asks for.
pub const SETTINGS_WRITES: usize = 18;

/// A text that is taken over once enough writes went through.
pub open spec fn taken(written: int, at: int, new: Seq<char>, old: Seq<char>) -> Seq<char> {
    if written >= at { new } else { old }
}

/// Whether `after` is the configuration once the first `written` writes went
/// through: the sampling parameters count at once, each text when its turn
/// comes.
pub open spec fn is_saved(
    before: Config,
    after: Config,
    inputs: Seq<Seq<char>>,
    temperature: Option<FloatBits>,
    top_p: Option<FloatBits>,
    written: int,
) -> bool {
    &&& after == (Config {
        settings: typed_settings(before.settings, inputs, temperature, top_p),
        memory_model: after.memory_model,
        transcriber_model: after.transcriber_model,
        searxng_url: after.searxng_url,
        langsearch_key: after.langsearch_key,
        ocr_model: after.ocr_model,
        research_model: after.research_model,
        escalation_model: after.escalation_model,
        embedding_model: after.embedding_model,
        ..before
    })
    &&& after.memory_model@ == taken(written, 7, trim(before.memory_model@), before.memory_model@)
    &&& after.transcriber_model@ == taken(
        written,
        8,
        trim(before.transcriber_model@),
        before.transcriber_model@,
    )
    &&& after.searxng_url@ == taken(written, 9, typed_url(inputs[4]), before.searxng_url@)
    &&& after.langsearch_key@ == taken(written, 11, trim(inputs[5]), before.langsearch_key@)
    &&& after.ocr_model@ == taken(written, 13, trim(before.ocr_model@), before.ocr_model@)
    &&& after.research_model@ == taken(
        written,
        15,
        trim(before.research_model@),
        before.research_model@,
    )
    &&& after.escalation_model@ == taken(
        written,
        16,
        trim(before.escalation_model@),
        before.escalation_model@,
    )
    &&& after.embedding_model@ == taken(written, 17, trim(inputs[6]), before.embedding_model@)
}

fn push_write(v: &mut Vec<Effect>, key: &str, value: &str)
    ensures
        views(final(v)@) == views(old(v)@).push(stored(key@, value@)),
{
    let e = Effect::SetSetting { key: key.to_owned(), value: value.to_owned() };
    proof {
        views_push(v@, e);
    }
    v.push(e);
}

fn retrim(s: &mut String)
    ensures
        final(s)@ == trim(old(s)@),
{
    let t = trimmed(s.as_str()).to_owned();
    *s = t;
}

fn typed_of(
    s: &Settings,
    inputs: &Vec<String>,
    temperature: Option<FloatBits>,
    top_p: Option<FloatBits>,
) -> (r: Settings)
    requires
        inputs@.len() == SETTINGS_INPUTS,
    ensures
        r == typed_settings(*s, texts(inputs@), temperature, top_p),
{
    assert(texts(inputs@)[2] == inputs@[2]@ && texts(inputs@)[3] == inputs@[3]@);
    Settings {
        show_stats: s.show_stats,
        show_reasoning: s.show_reasoning,
        hide_hints: s.hide_hints,
        temperature,
        top_p,
        max_tokens: match number_in(trimmed(inputs[2].as_str()), u32::MAX as u64) {
            Some(n) => Some(n as u32),
            None => None,
        },
        compact_threshold: match number_in(trimmed(inputs[3].as_str()), u8::MAX as u64) {
            Some(n) => if n > 100 { 100 } else { n as u8 },
            None => 0,
        },
    }
}

impl SettingsPopup {
    /// The writes that saving the settings asks for.
    pub fn settings_to_store(
        &self,
        config: &Config,
        temperature: Option<FloatBits>,
        top_p: Option<FloatBits>,
    ) -> (r: Vec<Effect>)
        requires
            self.wf(),
        ensures
            views(r@) == settings_writes(
                *config,
                typed_settings(config.settings, texts(self.inputs@), temperature, top_p),
                texts(self.inputs@),
            ),
    {
        let s = typed_of(&config.settings, &self.inputs, temperature, top_p);
        let ghost inputs = texts(self.inputs@);
        assert(forall|i: int| 0 <= i < 8 ==> inputs[i] == #[trigger] self.inputs@[i]@);
        let mut v: Vec<Effect> = Vec::new();
        assert(views(v@) =~= Seq::empty());
        push_write(&mut v, "show_stats", flag_of(s.show_stats));
        push_write(&mut v, "show_reasoning", flag_of(s.show_reasoning));
        push_write(&mut v, "hide_hints", flag_of(s.hide_hints));
        push_write(&mut v, "temperature", trimmed(self.inputs[0].as_str()));
        push_write(&mut v, "top_p", trimmed(self.inputs[1].as_str()));
        push_write(&mut v, "max_tokens", trimmed(self.inputs[2].as_str()));
        push_write(
            &mut v,
            "compact_threshold",
            decimal_of(s.compact_threshold as u64).as_str(),
        );
        push_write(&mut v, "memory_model", trimmed(config.memory_model.as_str()));
        push_write(&mut v, "transcriber_model", trimmed(config.transcriber_model.as_str()));
        push_write(
            &mut v,
            "searxng_url",
            trimmed_end_char(trimmed(self.inputs[4].as_str()), '/'),
        );
        push_write(&mut v, "verbosity", config.verbosity.as_str());
        push_write(&mut v, "langsearch_key", trimmed(self.inputs[5].as_str()));
        push_write(&mut v, "search_provider", config.search_provider.as_str());
        push_write(&mut v, "ocr_model", trimmed(config.ocr_model.as_str()));
        push_write(&mut v, "ocr_engine", config.ocr_engine.as_str());
        push_write(&mut v, "research_model", trimmed(config.research_model.as_str()));
        push_write(&mut v, "escalation_model", trimmed(config.escalation_model.as_str()));
        push_write(&mut v, "embedding_model", trimmed(self.inputs[6].as_str()));
        let v = and_effect(
            and_effect(
                v,
                Effect::WriteBlockedDomains { text: trimmed(self.inputs[7].as_str()).to_owned() },
            ),
            Effect::RefreshToolbox,
        );
        assert(views(v@) =~= settings_writes(*config, s, inputs));
        v
    }

    /// Saves what was typed. `temperature` and `top_p` are what the first two
    /// edit buffers read as numbers, and `written` says how many of the writes
    /// of `settings_to_store` went through before one failed, if one did.
    pub fn save_settings(
        &self,
        config: &mut Config,
        screen: &mut Screen,
        temperature: Option<FloatBits>,
        top_p: Option<FloatBits>,
        written: usize,
    )
        requires
            self.wf(),
        ensures
            is_saved(
                *old(config),
                *final(config),
                texts(self.inputs@),
                temperature,
                top_p,
                written as int,
            ),
            if written >= SETTINGS_WRITES {
                *final(screen) == (Screen {
                    popup: Popup::Closed,
                    status: final(screen).status,
                    ..*old(screen)
                }) && final(screen).status@ == "settings saved"@
            } else {
                *final(screen) == *old(screen)
            },
    {
        let ghost inputs = texts(self.inputs@);
        assert(forall|i: int| 0 <= i < 8 ==> inputs[i] == #[trigger] self.inputs@[i]@);
        config.settings = typed_of(&config.settings, &self.inputs, temperature, top_p);
        if written >= 7 {
            retrim(&mut config.memory_model);
        }
        if written >= 8 {
            retrim(&mut config.transcriber_model);
        }
        if written >= 9 {
            config.searxng_url = trimmed_end_char(
                trimmed(self.inputs[4].as_str()),
                '/',
            ).to_owned();
        }
        if written >= 11 {
            config.langsearch_key = trimmed(self.inputs[5].as_str()).to_owned();
        }
        if written >= 13 {
            retrim(&mut config.ocr_model);
        }
        if written >= 15 {
            retrim(&mut config.research_model);
        }
        if written >= 16 {
            retrim(&mut config.escalation_model);
        }
        if written >= 17 {
            config.embedding_model = trimmed(self.inputs[6].as_str()).to_owned();
        }
        if written >= SETTINGS_WRITES {
            screen.turn_to(Popup::Closed, "settings saved".to_owned());
        }
    }
}

/// What starting to fetch a local OCR model changes of the configuration, the
/// jobs and the screen, and what it asks for. Without a name it is glm-ocr.
pub open spec fn installing(
    config: Config,
    after: Config,
    jobs: (Jobs, Jobs),
    screen: (Screen, Screen),
    effects: Seq<EffectView>,
    arg: Seq<char>,
) -> bool {
    let model = if arg.len() == 0 { "glm-ocr"@ } else { arg };
    if jobs.0.ocr_pull {
        &&& after == config && jobs.1 == jobs.0
        &&& says(screen.0, screen.1, "an /ocr-local pull is already running"@)
        &&& effects == Seq::<EffectView>::empty()
    } else {
        &&& after == (Config { local_ocr_model: after.local_ocr_model, ..config })
        &&& after.local_ocr_model@ == model
        &&& jobs.1 == (Jobs { ocr_pull: true, ..jobs.0 })
        &&& says(
            screen.0,
            screen.1,
            "pulling "@ + model + " via ollama… (keeps running in background)"@,
        )
        &&& effects == seq![
            stored("local_ocr_model"@, model),
            EffectView::PullOcrModel { model },
        ]
    }
}

/// Starts to fetch a local OCR model, unless one is being fetched.
pub fn ocr_local_install(
    config: &mut Config,
    jobs: &mut Jobs,
    screen: &mut Screen,
    arg: &str,
) -> (r: Vec<Effect>)
    ensures
        installing(
            *old(config),
            *final(config),
            (*old(jobs), *final(jobs)),
            (*old(screen), *final(screen)),
            views(r@),
            arg@,
        ),
{
    if jobs.ocr_pull {
        screen.status = "an /ocr-local pull is already running".to_owned();
        return no_effects();
    }
    let model = if arg.is_empty() { "glm-ocr" } else { arg };
    config.local_ocr_model = model.to_owned();
    jobs.ocr_pull = true;
    screen.status = pull_status(model);
    pull_effects(model)
}

fn pull_status(model: &str) -> (r: String)
    ensures
        r@ == "pulling "@ + model@ + " via ollama… (keeps running in background)"@,
{
    let mut s = "pulling ".to_owned();
    s.append(model);
    s.append(" via ollama… (keeps running in background)");
    s
}

fn pull_effects(model: &str) -> (r: Vec<Effect>)
    ensures
        views(r@) == seq![
            stored("local_ocr_model"@, model@),
            EffectView::PullOcrModel { model: model@ },
        ],
{
    let r = and_effect(
        one_effect(
            Effect::SetSetting { key: "local_ocr_model".to_owned(), value: model.to_owned() },
        ),
        Effect::PullOcrModel { model: model.to_owned() },
    );
    assert(views(r@) =~= seq![
        stored("local_ocr_model"@, model@),
        EffectView::PullOcrModel { model: model@ },
    ]);
    r
}

/// Goes on to the next OCR engine. The local one is taken once its model was
/// fetched, so that a failed fetch leaves the engine as it was.
pub fn cycle_ocr_engine(config: &mut Config, jobs: &mut Jobs, screen: &mut Screen) -> (r: Vec<
    Effect,
>)
    ensures
        ({
            let next = next_ocr_engine(old(config).ocr_engine@);
            if next == "local"@ {
                installing(
                    *old(config),
                    *final(config),
                    (*old(jobs), *final(jobs)),
                    (*old(screen), *final(screen)),
                    views(r@),
                    ""@,
                )
            } else {
                &&& *final(config) == (Config {
                    ocr_engine: final(config).ocr_engine,
                    ..*old(config)
                })
                &&& final(config).ocr_engine@ == next
                &&& *final(jobs) == *old(jobs)
                &&& *final(screen) == *old(screen)
                &&& views(r@) == seq![stored("ocr_engine"@, next)]
            }
        }),
{
    let next = ocr_engine_after(config.ocr_engine.as_str());
    if same(next, "local") {
        return ocr_local_install(config, jobs, screen, "");
    }
    config.ocr_engine = next.to_owned();
    one_effect(Effect::SetSetting { key: "ocr_engine".to_owned(), value: next.to_owned() })
}

/// The fetch of a local OCR model ended: the engine becomes the local one, or
/// the status says why not.
pub fn on_ocr_pull(
    config: &mut Config,
    jobs: &mut Jobs,
    screen: &mut Screen,
    result: Option<Result<String, String>>,
) -> (r: Vec<Effect>)
    ensures
        *final(jobs) == (Jobs { ocr_pull: false, ..*old(jobs) }),
        match result {
            Some(Ok(model)) => {
                &&& *final(config) == (Config {
                    ocr_engine: final(config).ocr_engine,
                    ..*old(config)
                })
                &&& final(config).ocr_engine@ == "local"@
                &&& *final(screen) == (Screen { status: final(screen).status, ..*old(screen) })
                &&& final(screen).status@ == "local OCR ready: "@ + model@
                    + " via ollama — Ctrl+O a file in /files to re-run it"@
                &&& views(r@) == seq![stored("ocr_engine"@, "local"@)]
            },
            Some(Err(e)) => {
                &&& *final(config) == *old(config)
                &&& *final(screen) == (Screen { status: e, ..*old(screen) })
                &&& views(r@) == Seq::<EffectView>::empty()
            },
            None => {
                &&& *final(config) == *old(config)
                &&& *final(screen) == *old(screen)
                &&& views(r@) == Seq::<EffectView>::empty()
            },
        },
{
    jobs.ocr_pull = false;
    match result {
        Some(Ok(model)) => {
            config.ocr_engine = "local".to_owned();
            let mut s = "local OCR ready: ".to_owned();
            s.append(model.as_str());
            s.append(" via ollama — Ctrl+O a file in /files to re-run it");
            screen.status = s;
            one_effect(Effect::SetSetting { key: "ocr_engine".to_owned(), value: "local".to_owned() })
        },
        Some(Err(e)) => {
            screen.status = e;
            no_effects()
        },
        None => no_effects(),
    }
}

/// Expands or collapses stored reasoning. `stored_ok` says whether the store
/// has taken the switch; where it has not, the switch counts all the same.
pub fn toggle_reasoning_view(config: &mut Config, screen: &mut Screen, stored_ok: bool)
    ensures
        *final(config) == (Config {
            settings: Settings {
                show_reasoning: !old(config).settings.show_reasoning,
                ..old(config).settings
            },
            ..*old(config)
        }),
        *final(screen) == (Screen { status: final(screen).status, ..*old(screen) }),
        if !stored_ok {
            final(screen).status == old(screen).status
        } else if final(config).settings.show_reasoning {
            final(screen).status@ == "reasoning expanded"@
        } else {
            final(screen).status@ == "reasoning collapsed"@
        },
{
    config.settings.show_reasoning = !config.settings.show_reasoning;
    if stored_ok {
        screen.status = if config.settings.show_reasoning {
            "reasoning expanded".to_owned()
        } else {
            "reasoning collapsed".to_owned()
        };
    }
}

/// What is saved is what the edit buffers hold: once all writes went through,
/// the sampling parameters and the texts are those that were typed.
pub proof fn saved_settings_are_typed(
    before: Config,
    after: Config,
    inputs: Seq<Seq<char>>,
    temperature: Option<FloatBits>,
    top_p: Option<FloatBits>,
)
    requires
        is_saved(before, after, inputs, temperature, top_p, SETTINGS_WRITES as int),
    ensures
        after.settings == typed_settings(before.settings, inputs, temperature, top_p),
        after.searxng_url@ == typed_url(inputs[4]),
        after.langsearch_key@ == trim(inputs[5]),
        after.embedding_model@ == trim(inputs[6]),
        after.settings.compact_threshold <= 100,
{
}

} // verus!
