//! What holds between saving the settings and loading them.

use crate::effects::EffectView;
use crate::settings::{flag, is_saved, settings_writes, typed_settings, SETTINGS_WRITES};
use crate::startup::{configure, configure_all, Configured, SettingView};
use crate::state::{Config, Settings};
use crate::store::FloatBits;
use crate::text::{decimal_reads_back, parse_number};
use crate::ui::{search_providers, verbosity_levels};
use vstd::prelude::*;

verus! {

/// The settings that the writes of a save leave in the store, with what the
/// first two texts read as numbers.
pub open spec fn stored_settings(
    writes: Seq<EffectView>,
    temperature: Option<FloatBits>,
    top_p: Option<FloatBits>,
) -> Seq<SettingView> {
    Seq::new(
        SETTINGS_WRITES as nat,
        |i: int|
            SettingView {
                key: writes[i]->SetSetting_key,
                value: writes[i]->SetSetting_value,
                number: if i == 3 {
                    temperature
                } else if i == 4 {
                    top_p
                } else {
                    None
                },
            },
    )
}

proof fn key_facts()
    ensures
        "show_stats"@.len() == 10 && "show_stats"@[0] == 's',
        "show_reasoning"@.len() == 14 && "show_reasoning"@[0] == 's',
        "hide_hints"@.len() == 10 && "hide_hints"@[0] == 'h',
        "temperature"@.len() == 11 && "temperature"@[0] == 't',
        "top_p"@.len() == 5,
        "max_tokens"@.len() == 10 && "max_tokens"@[0] == 'm',
        "compact_threshold"@.len() == 17 && "compact_threshold"@[0] == 'c',
        "memory_model"@.len() == 12,
        "transcriber_model"@.len() == 17 && "transcriber_model"@[0] == 't',
        "searxng_url"@.len() == 11 && "searxng_url"@[0] == 's',
        "verbosity"@.len() == 9 && "verbosity"@[0] == 'v',
        "langsearch_key"@.len() == 14 && "langsearch_key"@[0] == 'l',
        "search_provider"@.len() == 15 && "search_provider"@[0] == 's',
{
    reveal_strlit("show_stats");
    reveal_strlit("show_reasoning");
    reveal_strlit("hide_hints");
    reveal_strlit("temperature");
    reveal_strlit("top_p");
    reveal_strlit("max_tokens");
    reveal_strlit("compact_threshold");
    reveal_strlit("memory_model");
    reveal_strlit("transcriber_model");
    reveal_strlit("searxng_url");
    reveal_strlit("verbosity");
    reveal_strlit("langsearch_key");
    reveal_strlit("search_provider");
}

proof fn other_key_facts()
    ensures
        "ocr_model"@.len() == 9 && "ocr_model"@[0] == 'o',
        "ocr_engine"@.len() == 10 && "ocr_engine"@[0] == 'o',
        "research_model"@.len() == 14 && "research_model"@[0] == 'r',
        "escalation_model"@.len() == 16,
        "embedding_model"@.len() == 15 && "embedding_model"@[0] == 'e',
{
    reveal_strlit("ocr_model");
    reveal_strlit("ocr_engine");
    reveal_strlit("research_model");
    reveal_strlit("escalation_model");
    reveal_strlit("embedding_model");
}

proof fn flags_read_back(on: bool)
    ensures
        (flag(on) == "1"@) == on,
{
    reveal_strlit("1");
    reveal_strlit("0");
    assert("0"@[0] != "1"@[0]);
}

proof fn configure_prefix(c: Configured, kv: Seq<SettingView>, n: int)
    requires
        0 <= n < kv.len(),
    ensures
        configure_all(c, kv.take(n + 1)) == configure(configure_all(c, kv.take(n)), kv[n]),
{
    let t = kv.take(n + 1);
    assert(t.drop_last() =~= kv.take(n));
    assert(t.last() == kv[n]);
}

/// What a setting that is stored loads as, one after another.
spec fn loaded_first(c: Configured, kv: Seq<SettingView>) -> Configured {
    Configured {
        settings: Settings {
            show_stats: kv[0].value == "1"@,
            show_reasoning: kv[1].value == "1"@,
            hide_hints: kv[2].value == "1"@,
            temperature: kv[3].number,
            top_p: kv[4].number,
            max_tokens: match parse_number(kv[5].value, u32::MAX as nat) {
                Some(n) => Some(n as u32),
                None => None,
            },
            ..c.settings
        },
        ..c
    }
}

proof fn first_load(c: Configured, kv: Seq<SettingView>)
    requires
        kv.len() == SETTINGS_WRITES,
        kv[0].key == "show_stats"@,
        kv[1].key == "show_reasoning"@,
        kv[2].key == "hide_hints"@,
        kv[3].key == "temperature"@,
        kv[4].key == "top_p"@,
        kv[5].key == "max_tokens"@,
    ensures
        configure_all(c, kv.take(6)) == loaded_first(c, kv),
{
    key_facts();
    assert(kv.take(0) =~= Seq::empty());
    configure_prefix(c, kv, 0);
    configure_prefix(c, kv, 1);
    configure_prefix(c, kv, 2);
    configure_prefix(c, kv, 3);
    configure_prefix(c, kv, 4);
    configure_prefix(c, kv, 5);
}

spec fn loaded_last(c: Configured, kv: Seq<SettingView>) -> Configured {
    Configured {
        settings: Settings {
            compact_threshold: parse_number(kv[6].value, u8::MAX as nat)->0 as u8,
            ..c.settings
        },
        memory_model: kv[7].value,
        transcriber_model: kv[8].value,
        searxng_url: kv[9].value,
        verbosity: kv[10].value,
        langsearch_key: kv[11].value,
        search_provider: kv[12].value,
    }
}

proof fn last_load(c: Configured, kv: Seq<SettingView>)
    requires
        kv.len() == SETTINGS_WRITES,
        kv[6].key == "compact_threshold"@,
        parse_number(kv[6].value, u8::MAX as nat) is Some,
        kv[7].key == "memory_model"@,
        kv[8].key == "transcriber_model"@,
        kv[9].key == "searxng_url"@,
        kv[10].key == "verbosity"@,
        verbosity_levels().contains(kv[10].value),
        kv[11].key == "langsearch_key"@,
        kv[12].key == "search_provider"@,
        search_providers().contains(kv[12].value),
    ensures
        configure_all(c, kv.take(13)) == loaded_last(configure_all(c, kv.take(6)), kv),
{
    key_facts();
    configure_prefix(c, kv, 6);
    configure_prefix(c, kv, 7);
    configure_prefix(c, kv, 8);
    configure_prefix(c, kv, 9);
    configure_prefix(c, kv, 10);
    configure_prefix(c, kv, 11);
    configure_prefix(c, kv, 12);
    assert(configure_all(c, kv.take(13)) =~= loaded_last(configure_all(c, kv.take(6)), kv));
}

proof fn rest_load(c: Configured, kv: Seq<SettingView>)
    requires
        kv.len() == SETTINGS_WRITES,
        kv[13].key == "ocr_model"@,
        kv[14].key == "ocr_engine"@,
        kv[15].key == "research_model"@,
        kv[16].key == "escalation_model"@,
        kv[17].key == "embedding_model"@,
    ensures
        configure_all(c, kv) == configure_all(c, kv.take(13)),
{
    key_facts();
    other_key_facts();
    configure_prefix(c, kv, 13);
    configure_prefix(c, kv, 14);
    configure_prefix(c, kv, 15);
    configure_prefix(c, kv, 16);
    configure_prefix(c, kv, 17);
    assert(kv.take(18) =~= kv);
}

/// Settings that were saved load back: a client that starts on what was
/// stored, with whatever defaults, has the settings of the one that saved
/// them.
pub proof fn saved_settings_load_back(
    before: Config,
    after: Config,
    inputs: Seq<Seq<char>>,
    temperature: Option<FloatBits>,
    top_p: Option<FloatBits>,
    fresh: Configured,
)
    requires
        inputs.len() == crate::state::SETTINGS_INPUTS,
        is_saved(before, after, inputs, temperature, top_p, SETTINGS_WRITES as int),
        verbosity_levels().contains(before.verbosity@),
        search_providers().contains(before.search_provider@),
    ensures
        configure_all(
            fresh,
            stored_settings(
                settings_writes(
                    before,
                    typed_settings(before.settings, inputs, temperature, top_p),
                    inputs,
                ),
                temperature,
                top_p,
            ),
        ) == after.configured(),
{
    let s = typed_settings(before.settings, inputs, temperature, top_p);
    let writes = settings_writes(before, s, inputs);
    let kv = stored_settings(writes, temperature, top_p);
    flags_read_back(s.show_stats);
    flags_read_back(s.show_reasoning);
    flags_read_back(s.hide_hints);
    decimal_reads_back(s.compact_threshold as nat);
    first_load(fresh, kv);
    last_load(fresh, kv);
    rest_load(fresh, kv);
    assert(configure_all(fresh, kv) =~= after.configured());
}

} // verus!
