//! Laws of the settings catalog.

use vstd::prelude::*;

use crate::settings::{
    spec_coding_data_sharing_choices, spec_concrete_theme_choices, spec_contextual_hints_children,
    spec_default_selected_permission_choices, spec_default_settings, spec_hunk_tracker_mode_choices,
    spec_permission_mode_choices, spec_plan_mode_choices, spec_render_mermaid_choices,
    spec_screen_mode_choices, spec_scroll_mode_choices, spec_text_selection_choices,
    spec_theme_choices, spec_voice_capture_mode_choices, spec_voice_stt_language_choices,
    spec_scroll_mode_default, CatalogSources, DynamicEnumSource, EnumChoiceSpec, SettingCategory,
    SettingKindSpec, SettingOwner, UiDefaults,
};

verus! {

/// The length of a key with its fourth and third-from-last characters,
/// which tell every key of the catalog apart.
pub open spec fn key_sig(k: Seq<char>) -> (int, char, char) {
    (k.len() as int, k[3], k[k.len() - 3])
}

/// The place in the catalog of the key with signature `sg`.
pub open spec fn sig_rank(sg: (int, char, char)) -> int {
    if sg == (12int, 'p', 'o') {
        0
    } else if sg == (11int, 'e', 'o') {
        1
    } else if sg == (15int, 'w', 'm') {
        2
    } else if sg == (13int, 'w', 'i') {
        3
    } else if sg == (11int, 'p', 'o') {
        4
    } else if sg == (8int, '_', 'o') {
        5
    } else if sg == (5int, 'm', 'e') {
        6
    } else if sg == (15int, 'o', 'e') {
        7
    } else if sg == (16int, 'o', 'e') {
        8
    } else if sg == (14int, 'd', 'a') {
        9
    } else if sg == (15int, 'm', 'o') {
        10
    } else if sg == (23int, 'e', 'a') {
        11
    } else if sg == (14int, 't', 'o') {
        12
    } else if sg == (13int, 'a', 'd') {
        13
    } else if sg == (18int, '_', 'd') {
        14
    } else if sg == (20int, 'w', 'c') {
        15
    } else if sg == (18int, 'm', 'o') {
        16
    } else if sg == (20int, 'p', 'l') {
        17
    } else if sg == (16int, 'u', 'r') {
        18
    } else if sg == (21int, 'l', 'c') {
        19
    } else if sg == (28int, 'p', 'n') {
        20
    } else if sg == (12int, 'o', 'e') {
        21
    } else if sg == (11int, 'o', 'o') {
        22
    } else if sg == (12int, 'o', 'n') {
        23
    } else if sg == (13int, 'e', 'o') {
        24
    } else if sg == (19int, 'p', 'i') {
        25
    } else if sg == (19int, 'i', 'i') {
        26
    } else if sg == (27int, 'a', 'i') {
        27
    } else if sg == (41int, 'l', 'l') {
        28
    } else if sg == (9int, 'n', 'o') {
        29
    } else if sg == (9int, 'w', 'i') {
        30
    } else if sg == (16int, 't', 'n') {
        31
    } else if sg == (11int, 'o', 'a') {
        32
    } else if sg == (17int, 'k', 'o') {
        33
    } else if sg == (18int, 'c', 'o') {
        34
    } else if sg == (18int, 'c', 'a') {
        35
    } else if sg == (21int, 't', 'n') {
        36
    } else if sg == (26int, 't', 'o') {
        37
    } else if sg == (28int, 't', 'p') {
        38
    } else if sg == (25int, 't', 'n') {
        39
    } else if sg == (29int, 't', 'e') {
        40
    } else if sg == (28int, 't', 'e') {
        41
    } else if sg == (20int, 'k', 'd') {
        42
    } else {
        -1
    }
}

proof fn lemma_key_ranks(src: CatalogSources)
    ensures
        forall|i: int|
            0 <= i < spec_default_settings(src).len() ==> sig_rank(
                key_sig(#[trigger] spec_default_settings(src)[i].key),
            ) == i,
{
    reveal_strlit("compact_mode");
    reveal_strlit("screen_mode");
    reveal_strlit("show_timestamps");
    reveal_strlit("show_timeline");
    reveal_strlit("simple_mode");
    reveal_strlit("vim_mode");
    reveal_strlit("theme");
    reveal_strlit("auto_dark_theme");
    reveal_strlit("auto_light_theme");
    reveal_strlit("render_mermaid");
    reveal_strlit("permission_mode");
    reveal_strlit("remember_tool_approvals");
    reveal_strlit("multiline_mode");
    reveal_strlit("default_model");
    reveal_strlit("max_thoughts_width");
    reveal_strlit("show_thinking_blocks");
    reveal_strlit("prompt_suggestions");
    reveal_strlit("respect_manual_folds");
    reveal_strlit("group_tool_verbs");
    reveal_strlit("collapsed_edit_blocks");
    reveal_strlit("display_refresh_auto_cadence");
    reveal_strlit("scroll_speed");
    reveal_strlit("scroll_mode");
    reveal_strlit("scroll_lines");
    reveal_strlit("invert_scroll");
    reveal_strlit("keep_text_selection");
    reveal_strlit("coding_data_sharing");
    reveal_strlit("default_selected_permission");
    reveal_strlit("toolset.ask_user_question.timeout_enabled");
    reveal_strlit("plan_mode");
    reveal_strlit("show_tips");
    reveal_strlit("contextual_hints");
    reveal_strlit("auto_update");
    reveal_strlit("hunk_tracker_mode");
    reveal_strlit("voice_capture_mode");
    reveal_strlit("voice_stt_language");
    reveal_strlit("contextual_hints.undo");
    reveal_strlit("contextual_hints.plan_mode");
    reveal_strlit("contextual_hints.image_input");
    reveal_strlit("contextual_hints.send_now");
    reveal_strlit("contextual_hints.small_screen");
    reveal_strlit("contextual_hints.word_select");
    reveal_strlit("fork_secondary_model");
}

/// No two settings of the catalog share a key.
pub proof fn lemma_setting_keys_distinct(src: CatalogSources, i: int, j: int)
    requires
        0 <= i < spec_default_settings(src).len(),
        0 <= j < spec_default_settings(src).len(),
        i != j,
    ensures
        spec_default_settings(src)[i].key != spec_default_settings(src)[j].key,
{
    lemma_key_ranks(src);
}

/// The default of an enum setting is the canonical name of one of its
/// choices.
pub open spec fn enum_default_is_a_choice(k: SettingKindSpec) -> bool {
    match k {
        SettingKindSpec::Enum { default, choices, .. } => exists|j: int|
            0 <= j < choices.len() && #[trigger] choices[j].canonical == default,
        _ => true,
    }
}

/// Every enum setting defaults to one of its own choices.
pub proof fn lemma_enum_defaults_are_choices(src: CatalogSources, i: int)
    requires
        0 <= i < spec_default_settings(src).len(),
    ensures
        enum_default_is_a_choice(spec_default_settings(src)[i].kind),
{
    let s = spec_default_settings(src);
    if i == 1 {
        assert(s[1].kind->Enum_choices[0].canonical == s[1].kind->Enum_default);
    } else if i == 6 {
        assert(s[6].kind->Enum_choices[1].canonical == s[6].kind->Enum_default);
    } else if i == 7 {
        assert(s[7].kind->Enum_choices[0].canonical == s[7].kind->Enum_default);
    } else if i == 8 {
        assert(s[8].kind->Enum_choices[1].canonical == s[8].kind->Enum_default);
    } else if i == 9 {
        assert(s[9].kind->Enum_choices[0].canonical == s[9].kind->Enum_default);
    } else if i == 10 {
        assert(s[10].kind->Enum_choices[1].canonical == s[10].kind->Enum_default);
    } else if i == 22 {
        let choices = s[22].kind->Enum_choices;
        assert(choices[0].canonical == "auto"@ && choices[1].canonical == "wheel"@ && choices[2].canonical == "trackpad"@);
    } else if i == 25 {
        assert(s[25].kind->Enum_choices[0].canonical == s[25].kind->Enum_default);
    } else if i == 26 {
        assert(s[26].kind->Enum_choices[0].canonical == s[26].kind->Enum_default);
    } else if i == 27 {
        assert(s[27].kind->Enum_choices[0].canonical == s[27].kind->Enum_default);
    } else if i == 29 {
        assert(s[29].kind->Enum_choices[0].canonical == s[29].kind->Enum_default);
    } else if i == 33 {
        assert(s[33].kind->Enum_choices[0].canonical == s[33].kind->Enum_default);
    } else if i == 34 {
        assert(s[34].kind->Enum_choices[1].canonical == s[34].kind->Enum_default);
    } else if i == 35 {
        assert(s[35].kind->Enum_choices[0].canonical == s[35].kind->Enum_default);
    }
}

/// The configured numbers lie within the bounds of their settings.
pub open spec fn ui_numbers_in_range(ui: UiDefaults) -> bool {
    &&& 40 <= ui.max_thoughts_width <= 500
    &&& ui.scroll_speed matches Some(v) ==> 1 <= v <= 100
    &&& ui.scroll_lines matches Some(v) ==> 1 <= v <= 10
}

/// Every integer setting has a non-empty range, and its default lies in it
/// whenever the configured defaults do.
pub proof fn lemma_int_defaults_in_range(src: CatalogSources, i: int)
    requires
        0 <= i < spec_default_settings(src).len(),
    ensures
        spec_default_settings(src)[i].kind matches SettingKindSpec::Int { default, min, max } ==> min
            <= max && (ui_numbers_in_range(src.ui) ==> min <= default <= max),
{
    let s = spec_default_settings(src);
    if i == 14 {
        assert(s[14].kind is Int);
    } else if i == 21 {
        assert(s[21].kind is Int);
    } else if i == 23 {
        assert(s[23].kind is Int);
    }
}

/// Every child of the contextual-hints group is itself registered as a
/// Bool setting, after the group row.
pub proof fn lemma_group_children_registered(src: CatalogSources, c: int)
    requires
        0 <= c < spec_contextual_hints_children().len(),
    ensures
        exists|i: int|
            31 < i < spec_default_settings(src).len() && #[trigger] spec_default_settings(src)[i].key
                == spec_contextual_hints_children()[c] && spec_default_settings(src)[i].kind is Bool,
        spec_default_settings(src)[31].kind == (SettingKindSpec::Group {
            children: spec_contextual_hints_children(),
        }),
{
    let s = spec_default_settings(src);
    if c == 0 {
        assert(s[36].key == spec_contextual_hints_children()[0]);
    } else if c == 1 {
        assert(s[37].key == spec_contextual_hints_children()[1]);
    } else if c == 2 {
        assert(s[38].key == spec_contextual_hints_children()[2]);
    } else if c == 3 {
        assert(s[39].key == spec_contextual_hints_children()[3]);
    } else if c == 4 {
        assert(s[40].key == spec_contextual_hints_children()[4]);
    } else if c == 5 {
        assert(s[41].key == spec_contextual_hints_children()[5]);
    }
}

/// The automatic dark/light theme pickers offer the full theme catalog
/// without its leading "auto" entry, so neither can refer back to itself.
pub proof fn lemma_concrete_themes_drop_auto()
    ensures
        spec_theme_choices()[0].canonical == "auto"@,
        spec_concrete_theme_choices() == spec_theme_choices().drop_first(),
{
    assert(spec_concrete_theme_choices() =~= spec_theme_choices().drop_first());
}

/// The length, first and last character of a name; they tell apart the
/// fixed choice names within each choice table.
pub open spec fn choice_sig(s: Seq<char>) -> (int, char, char) {
    (s.len() as int, s[0], s[s.len() - 1])
}

/// The canonical names of a choice table are pairwise distinct.
pub open spec fn canonicals_distinct(choices: Seq<EnumChoiceSpec>) -> bool {
    forall|a: int, b: int|
        0 <= a < choices.len() && 0 <= b < choices.len() && a != b ==> #[trigger] choices[a].canonical
            != #[trigger] choices[b].canonical
}

spec fn scroll_mode_choices_rank(sg: (int, char, char)) -> int {
    if sg == (4int, 'a', 'o') {
        0
    } else if sg == (5int, 'w', 'l') {
        1
    } else if sg == (8int, 't', 'd') {
        2
    } else {
        -1
    }
}

proof fn lemma_scroll_mode_choices_distinct()
    ensures
        canonicals_distinct(spec_scroll_mode_choices()),
{
    reveal_strlit("auto");
    reveal_strlit("trackpad");
    reveal_strlit("wheel");
    assert forall|a: int| 0 <= a < spec_scroll_mode_choices().len() implies scroll_mode_choices_rank(choice_sig(#[trigger] spec_scroll_mode_choices()[a].canonical)) == a by {}
}

spec fn theme_choices_rank(sg: (int, char, char)) -> int {
    if sg == (4int, 'a', 'o') {
        0
    } else if sg == (9int, 'g', 't') {
        1
    } else if sg == (7int, 'g', 'y') {
        2
    } else if sg == (10int, 't', 't') {
        3
    } else if sg == (13int, 'r', 'n') {
        4
    } else if sg == (15int, 'o', 't') {
        5
    } else {
        -1
    }
}

proof fn lemma_theme_choices_distinct()
    ensures
        canonicals_distinct(spec_theme_choices()),
{
    reveal_strlit("auto");
    reveal_strlit("grokday");
    reveal_strlit("groknight");
    reveal_strlit("oscura-midnight");
    reveal_strlit("rosepine-moon");
    reveal_strlit("tokyonight");
    assert forall|a: int| 0 <= a < spec_theme_choices().len() implies theme_choices_rank(choice_sig(#[trigger] spec_theme_choices()[a].canonical)) == a by {}
}

spec fn permission_mode_choices_rank(sg: (int, char, char)) -> int {
    if sg == (7int, 'd', 't') {
        0
    } else if sg == (3int, 'a', 'k') {
        1
    } else if sg == (4int, 'a', 'o') {
        2
    } else if sg == (14int, 'a', 'e') {
        3
    } else {
        -1
    }
}

proof fn lemma_permission_mode_choices_distinct()
    ensures
        canonicals_distinct(spec_permission_mode_choices()),
{
    reveal_strlit("always-approve");
    reveal_strlit("ask");
    reveal_strlit("auto");
    reveal_strlit("default");
    assert forall|a: int| 0 <= a < spec_permission_mode_choices().len() implies permission_mode_choices_rank(choice_sig(#[trigger] spec_permission_mode_choices()[a].canonical)) == a by {}
}

spec fn coding_data_sharing_choices_rank(sg: (int, char, char)) -> int {
    if sg == (6int, 'o', 'n') {
        0
    } else if sg == (7int, 'o', 't') {
        1
    } else {
        -1
    }
}

proof fn lemma_coding_data_sharing_choices_distinct()
    ensures
        canonicals_distinct(spec_coding_data_sharing_choices()),
{
    reveal_strlit("opt-in");
    reveal_strlit("opt-out");
    assert forall|a: int| 0 <= a < spec_coding_data_sharing_choices().len() implies coding_data_sharing_choices_rank(choice_sig(#[trigger] spec_coding_data_sharing_choices()[a].canonical)) == a by {}
}

spec fn plan_mode_choices_rank(sg: (int, char, char)) -> int {
    if sg == (3int, 'o', 'f') {
        0
    } else if sg == (2int, 'o', 'n') {
        1
    } else {
        -1
    }
}

proof fn lemma_plan_mode_choices_distinct()
    ensures
        canonicals_distinct(spec_plan_mode_choices()),
{
    reveal_strlit("off");
    reveal_strlit("on");
    assert forall|a: int| 0 <= a < spec_plan_mode_choices().len() implies plan_mode_choices_rank(choice_sig(#[trigger] spec_plan_mode_choices()[a].canonical)) == a by {}
}

spec fn render_mermaid_choices_rank(sg: (int, char, char)) -> int {
    if sg == (4int, 'a', 'o') {
        0
    } else if sg == (2int, 'o', 'n') {
        1
    } else if sg == (3int, 'o', 'f') {
        2
    } else {
        -1
    }
}

proof fn lemma_render_mermaid_choices_distinct()
    ensures
        canonicals_distinct(spec_render_mermaid_choices()),
{
    reveal_strlit("auto");
    reveal_strlit("off");
    reveal_strlit("on");
    assert forall|a: int| 0 <= a < spec_render_mermaid_choices().len() implies render_mermaid_choices_rank(choice_sig(#[trigger] spec_render_mermaid_choices()[a].canonical)) == a by {}
}

spec fn hunk_tracker_mode_choices_rank(sg: (int, char, char)) -> int {
    if sg == (10int, 'a', 'y') {
        0
    } else if sg == (9int, 'a', 'y') {
        1
    } else if sg == (3int, 'o', 'f') {
        2
    } else {
        -1
    }
}

proof fn lemma_hunk_tracker_mode_choices_distinct()
    ensures
        canonicals_distinct(spec_hunk_tracker_mode_choices()),
{
    reveal_strlit("agent_only");
    reveal_strlit("all_dirty");
    reveal_strlit("off");
    assert forall|a: int| 0 <= a < spec_hunk_tracker_mode_choices().len() implies hunk_tracker_mode_choices_rank(choice_sig(#[trigger] spec_hunk_tracker_mode_choices()[a].canonical)) == a by {}
}

spec fn screen_mode_choices_rank(sg: (int, char, char)) -> int {
    if sg == (10int, 'f', 'n') {
        0
    } else if sg == (7int, 'm', 'l') {
        1
    } else {
        -1
    }
}

proof fn lemma_screen_mode_choices_distinct()
    ensures
        canonicals_distinct(spec_screen_mode_choices()),
{
    reveal_strlit("fullscreen");
    reveal_strlit("minimal");
    assert forall|a: int| 0 <= a < spec_screen_mode_choices().len() implies screen_mode_choices_rank(choice_sig(#[trigger] spec_screen_mode_choices()[a].canonical)) == a by {}
}

spec fn voice_capture_mode_choices_rank(sg: (int, char, char)) -> int {
    if sg == (6int, 't', 'e') {
        0
    } else if sg == (4int, 'h', 'd') {
        1
    } else {
        -1
    }
}

proof fn lemma_voice_capture_mode_choices_distinct()
    ensures
        canonicals_distinct(spec_voice_capture_mode_choices()),
{
    reveal_strlit("hold");
    reveal_strlit("toggle");
    assert forall|a: int| 0 <= a < spec_voice_capture_mode_choices().len() implies voice_capture_mode_choices_rank(choice_sig(#[trigger] spec_voice_capture_mode_choices()[a].canonical)) == a by {}
}

spec fn voice_stt_language_choices_rank(sg: (int, char, char)) -> int {
    if sg == (2int, 'e', 'n') {
        0
    } else if sg == (4int, 'a', 'o') {
        1
    } else if sg == (2int, 'a', 'r') {
        2
    } else if sg == (2int, 'c', 's') {
        3
    } else if sg == (2int, 'd', 'a') {
        4
    } else if sg == (2int, 'n', 'l') {
        5
    } else if sg == (3int, 'f', 'l') {
        6
    } else if sg == (2int, 'f', 'r') {
        7
    } else if sg == (2int, 'd', 'e') {
        8
    } else if sg == (2int, 'h', 'i') {
        9
    } else if sg == (2int, 'i', 'd') {
        10
    } else if sg == (2int, 'i', 't') {
        11
    } else if sg == (2int, 'j', 'a') {
        12
    } else if sg == (2int, 'k', 'o') {
        13
    } else if sg == (2int, 'm', 'k') {
        14
    } else if sg == (2int, 'm', 's') {
        15
    } else if sg == (2int, 'f', 'a') {
        16
    } else if sg == (2int, 'p', 'l') {
        17
    } else if sg == (2int, 'p', 't') {
        18
    } else if sg == (2int, 'r', 'o') {
        19
    } else if sg == (2int, 'r', 'u') {
        20
    } else if sg == (2int, 'e', 's') {
        21
    } else if sg == (2int, 's', 'v') {
        22
    } else if sg == (2int, 't', 'h') {
        23
    } else if sg == (2int, 't', 'r') {
        24
    } else if sg == (2int, 'v', 'i') {
        25
    } else {
        -1
    }
}

proof fn lemma_voice_stt_language_choices_distinct()
    ensures
        canonicals_distinct(spec_voice_stt_language_choices()),
{
    reveal_strlit("ar");
    reveal_strlit("auto");
    reveal_strlit("cs");
    reveal_strlit("da");
    reveal_strlit("de");
    reveal_strlit("en");
    reveal_strlit("es");
    reveal_strlit("fa");
    reveal_strlit("fil");
    reveal_strlit("fr");
    reveal_strlit("hi");
    reveal_strlit("id");
    reveal_strlit("it");
    reveal_strlit("ja");
    reveal_strlit("ko");
    reveal_strlit("mk");
    reveal_strlit("ms");
    reveal_strlit("nl");
    reveal_strlit("pl");
    reveal_strlit("pt");
    reveal_strlit("ro");
    reveal_strlit("ru");
    reveal_strlit("sv");
    reveal_strlit("th");
    reveal_strlit("tr");
    reveal_strlit("vi");
    assert forall|a: int| 0 <= a < spec_voice_stt_language_choices().len() implies voice_stt_language_choices_rank(choice_sig(#[trigger] spec_voice_stt_language_choices()[a].canonical)) == a by {}
}

spec fn concrete_theme_choices_rank(sg: (int, char, char)) -> int {
    if sg == (9int, 'g', 't') {
        0
    } else if sg == (7int, 'g', 'y') {
        1
    } else if sg == (10int, 't', 't') {
        2
    } else if sg == (13int, 'r', 'n') {
        3
    } else if sg == (15int, 'o', 't') {
        4
    } else {
        -1
    }
}

proof fn lemma_concrete_theme_choices_distinct()
    ensures
        canonicals_distinct(spec_concrete_theme_choices()),
{
    reveal_strlit("grokday");
    reveal_strlit("groknight");
    reveal_strlit("oscura-midnight");
    reveal_strlit("rosepine-moon");
    reveal_strlit("tokyonight");
    assert forall|a: int| 0 <= a < spec_concrete_theme_choices().len() implies concrete_theme_choices_rank(choice_sig(#[trigger] spec_concrete_theme_choices()[a].canonical)) == a by {}
}

/// The names that the catalog takes from elsewhere are distinct from each
/// other and from the fixed names beside them.
pub open spec fn source_names_distinct(src: CatalogSources) -> bool {
    &&& src.word_select_canonical@ != "flash"@
    &&& src.word_select_canonical@ != "hold"@
    &&& src.permission_always_allow_all_sessions.canonical@ != src.permission_allow_command_always.canonical@
    &&& src.permission_always_allow_all_sessions.canonical@ != src.permission_allow_once.canonical@
    &&& src.permission_always_allow_all_sessions.canonical@ != src.permission_reject.canonical@
    &&& src.permission_allow_command_always.canonical@ != src.permission_allow_once.canonical@
    &&& src.permission_allow_command_always.canonical@ != src.permission_reject.canonical@
    &&& src.permission_allow_once.canonical@ != src.permission_reject.canonical@
}

/// The canonical names of an enum setting's choices are distinct.
pub open spec fn enum_choices_distinct(k: SettingKindSpec) -> bool {
    match k {
        SettingKindSpec::Enum { choices, .. } => canonicals_distinct(choices),
        _ => true,
    }
}

/// No enum setting offers two choices under one canonical name, as long as
/// the names taken from elsewhere are distinct.
pub proof fn lemma_enum_choice_names_distinct(src: CatalogSources, i: int)
    requires
        0 <= i < spec_default_settings(src).len(),
        source_names_distinct(src),
    ensures
        enum_choices_distinct(spec_default_settings(src)[i].kind),
{
    if i == 1 {
        lemma_screen_mode_choices_distinct();
    } else if i == 6 {
        lemma_theme_choices_distinct();
    } else if i == 7 {
        lemma_concrete_theme_choices_distinct();
    } else if i == 8 {
        lemma_concrete_theme_choices_distinct();
    } else if i == 9 {
        lemma_render_mermaid_choices_distinct();
    } else if i == 10 {
        lemma_permission_mode_choices_distinct();
    } else if i == 22 {
        lemma_scroll_mode_choices_distinct();
    } else if i == 25 {
        reveal_strlit("flash");
        reveal_strlit("hold");
        let c = spec_text_selection_choices(src);
        assert(c[0].canonical.len() != c[1].canonical.len());
        assert(c.len() == 3);
        assert forall|a: int, b: int|
            0 <= a < c.len() && 0 <= b < c.len() && a != b implies #[trigger] c[a].canonical
            != #[trigger] c[b].canonical by {
            if a == 0 && b == 1 || a == 1 && b == 0 {
                assert(c[0].canonical.len() != c[1].canonical.len());
            }
        }
    } else if i == 26 {
        lemma_coding_data_sharing_choices_distinct();
    } else if i == 27 {
        assert(canonicals_distinct(spec_default_selected_permission_choices(src)));
    } else if i == 29 {
        lemma_plan_mode_choices_distinct();
    } else if i == 33 {
        lemma_hunk_tracker_mode_choices_distinct();
    } else if i == 34 {
        lemma_voice_capture_mode_choices_distinct();
    } else if i == 35 {
        lemma_voice_stt_language_choices_distinct();
    }
}

/// A scroll mode is configured, under one of the names "auto", "wheel" and
/// "trackpad".
pub open spec fn names_a_scroll_mode(configured: Option<String>) -> bool {
    configured matches Some(m) && (m@ == "auto"@ || m@ == "wheel"@ || m@ == "trackpad"@)
}

/// Each setting has the key, section, owner and flags its catalog entry
/// documents, and its default is the configured value when one is set and
/// the documented fallback otherwise (for instance prompt suggestions
/// default to on).
pub proof fn lemma_setting_entries(src: CatalogSources)
    ensures
        ({
            let s = spec_default_settings(src);
            &&& s.len() == 43
            &&& s[0].key == "compact_mode"@ && s[0].category == SettingCategory::Appearance && s[0].owner == SettingOwner::Shared && s[0].restart_required == false && s[0].hidden_in_minimal == false && s[0].kind == (SettingKindSpec::Bool { default: src.ui.compact_mode })
            &&& s[1].key == "screen_mode"@ && s[1].category == SettingCategory::Appearance && s[1].owner == SettingOwner::Shell && s[1].restart_required == true && s[1].hidden_in_minimal == false && s[1].kind is Enum && s[1].kind->Enum_supports_preview == false && s[1].kind->Enum_choices.len() == 2 && s[1].kind->Enum_default == "fullscreen"@
            &&& s[2].key == "show_timestamps"@ && s[2].category == SettingCategory::Appearance && s[2].owner == SettingOwner::Shared && s[2].restart_required == false && s[2].hidden_in_minimal == false && (src.ui.show_timestamps matches Some(v) ==> s[2].kind == (SettingKindSpec::Bool { default: v })) && (src.ui.show_timestamps is None ==> s[2].kind == (SettingKindSpec::Bool { default: true }))
            &&& s[3].key == "show_timeline"@ && s[3].category == SettingCategory::Appearance && s[3].owner == SettingOwner::Shared && s[3].restart_required == false && s[3].hidden_in_minimal == true && s[3].kind == (SettingKindSpec::Bool { default: src.ui.show_timeline })
            &&& s[4].key == "simple_mode"@ && s[4].category == SettingCategory::Appearance && s[4].owner == SettingOwner::Shared && s[4].restart_required == false && s[4].hidden_in_minimal == false && (src.ui.simple_mode matches Some(v) ==> s[4].kind == (SettingKindSpec::Bool { default: v })) && (src.ui.simple_mode is None ==> s[4].kind == (SettingKindSpec::Bool { default: true }))
            &&& s[5].key == "vim_mode"@ && s[5].category == SettingCategory::Appearance && s[5].owner == SettingOwner::Shell && s[5].restart_required == false && s[5].hidden_in_minimal == false && (src.ui.vim_mode matches Some(v) ==> s[5].kind == (SettingKindSpec::Bool { default: v })) && (src.ui.vim_mode is None ==> s[5].kind == (SettingKindSpec::Bool { default: false }))
            &&& s[6].key == "theme"@ && s[6].category == SettingCategory::Appearance && s[6].owner == SettingOwner::Shared && s[6].restart_required == false && s[6].hidden_in_minimal == true && s[6].kind is Enum && s[6].kind->Enum_supports_preview == true && s[6].kind->Enum_choices.len() == 6 && s[6].kind->Enum_default == "groknight"@
            &&& s[7].key == "auto_dark_theme"@ && s[7].category == SettingCategory::Appearance && s[7].owner == SettingOwner::Shared && s[7].restart_required == false && s[7].hidden_in_minimal == true && s[7].kind is Enum && s[7].kind->Enum_supports_preview == true && s[7].kind->Enum_choices.len() == 5 && s[7].kind->Enum_default == "groknight"@
            &&& s[8].key == "auto_light_theme"@ && s[8].category == SettingCategory::Appearance && s[8].owner == SettingOwner::Shared && s[8].restart_required == false && s[8].hidden_in_minimal == true && s[8].kind is Enum && s[8].kind->Enum_supports_preview == true && s[8].kind->Enum_choices.len() == 5 && s[8].kind->Enum_default == "grokday"@
            &&& s[9].key == "render_mermaid"@ && s[9].category == SettingCategory::Appearance && s[9].owner == SettingOwner::Shell && s[9].restart_required == false && s[9].hidden_in_minimal == false && s[9].kind is Enum && s[9].kind->Enum_supports_preview == false && s[9].kind->Enum_choices.len() == 3 && s[9].kind->Enum_default == "auto"@
            &&& s[10].key == "permission_mode"@ && s[10].category == SettingCategory::Agent && s[10].owner == SettingOwner::Shell && s[10].restart_required == false && s[10].hidden_in_minimal == false && s[10].kind is Enum && s[10].kind->Enum_supports_preview == false && s[10].kind->Enum_choices.len() == 4 && s[10].kind->Enum_default == "ask"@
            &&& s[11].key == "remember_tool_approvals"@ && s[11].category == SettingCategory::Agent && s[11].owner == SettingOwner::Shell && s[11].restart_required == true && s[11].hidden_in_minimal == false && (src.ui.remember_tool_approvals matches Some(v) ==> s[11].kind == (SettingKindSpec::Bool { default: v })) && (src.ui.remember_tool_approvals is None ==> s[11].kind == (SettingKindSpec::Bool { default: false }))
            &&& s[12].key == "multiline_mode"@ && s[12].category == SettingCategory::Editor && s[12].owner == SettingOwner::Pager && s[12].restart_required == false && s[12].hidden_in_minimal == false && s[12].kind == (SettingKindSpec::Bool { default: false })
            &&& s[13].key == "default_model"@ && s[13].category == SettingCategory::Models && s[13].owner == SettingOwner::Shell && s[13].restart_required == false && s[13].hidden_in_minimal == false && s[13].kind == (SettingKindSpec::DynamicEnum { default: ""@, source: DynamicEnumSource::ActiveModelCatalog, supports_preview: false })
            &&& s[14].key == "max_thoughts_width"@ && s[14].category == SettingCategory::Appearance && s[14].owner == SettingOwner::Shared && s[14].restart_required == false && s[14].hidden_in_minimal == false && s[14].kind == (SettingKindSpec::Int { default: src.ui.max_thoughts_width as i64, min: 40, max: 500 })
            &&& s[15].key == "show_thinking_blocks"@ && s[15].category == SettingCategory::Appearance && s[15].owner == SettingOwner::Shell && s[15].restart_required == false && s[15].hidden_in_minimal == false && (src.ui.show_thinking_blocks matches Some(v) ==> s[15].kind == (SettingKindSpec::Bool { default: v })) && (src.ui.show_thinking_blocks is None ==> s[15].kind == (SettingKindSpec::Bool { default: true }))
            &&& s[16].key == "prompt_suggestions"@ && s[16].category == SettingCategory::Editor && s[16].owner == SettingOwner::Shell && s[16].restart_required == false && s[16].hidden_in_minimal == false && (src.ui.prompt_suggestions matches Some(v) ==> s[16].kind == (SettingKindSpec::Bool { default: v })) && (src.ui.prompt_suggestions is None ==> s[16].kind == (SettingKindSpec::Bool { default: true }))
            &&& s[17].key == "respect_manual_folds"@ && s[17].category == SettingCategory::Appearance && s[17].owner == SettingOwner::Pager && s[17].restart_required == false && s[17].hidden_in_minimal == false && s[17].kind == (SettingKindSpec::Bool { default: src.respect_manual_folds })
            &&& s[18].key == "group_tool_verbs"@ && s[18].category == SettingCategory::Appearance && s[18].owner == SettingOwner::Shell && s[18].restart_required == false && s[18].hidden_in_minimal == false && (src.ui.group_tool_verbs matches Some(v) ==> s[18].kind == (SettingKindSpec::Bool { default: v })) && (src.ui.group_tool_verbs is None ==> s[18].kind == (SettingKindSpec::Bool { default: true }))
            &&& s[19].key == "collapsed_edit_blocks"@ && s[19].category == SettingCategory::Appearance && s[19].owner == SettingOwner::Shell && s[19].restart_required == false && s[19].hidden_in_minimal == false && (src.ui.collapsed_edit_blocks matches Some(v) ==> s[19].kind == (SettingKindSpec::Bool { default: v })) && (src.ui.collapsed_edit_blocks is None ==> s[19].kind == (SettingKindSpec::Bool { default: false }))
            &&& s[20].key == "display_refresh_auto_cadence"@ && s[20].category == SettingCategory::Appearance && s[20].owner == SettingOwner::Shell && s[20].restart_required == true && s[20].hidden_in_minimal == true && (src.ui.display_refresh_auto_cadence matches Some(v) ==> s[20].kind == (SettingKindSpec::Bool { default: v })) && (src.ui.display_refresh_auto_cadence is None ==> s[20].kind == (SettingKindSpec::Bool { default: false }))
            &&& s[21].key == "scroll_speed"@ && s[21].category == SettingCategory::Mouse && s[21].owner == SettingOwner::Shell && s[21].restart_required == false && s[21].hidden_in_minimal == false && (src.ui.scroll_speed matches Some(v) ==> s[21].kind == (SettingKindSpec::Int { default: v as i64, min: 1, max: 100 })) && (src.ui.scroll_speed is None ==> s[21].kind == (SettingKindSpec::Int { default: 50, min: 1, max: 100 }))
            &&& s[22].key == "scroll_mode"@ && s[22].category == SettingCategory::Mouse && s[22].owner == SettingOwner::Shell && s[22].restart_required == false && s[22].hidden_in_minimal == false && s[22].kind is Enum && s[22].kind->Enum_supports_preview == false && s[22].kind->Enum_choices.len() == 3 && (names_a_scroll_mode(src.ui.scroll_mode) ==> s[22].kind->Enum_default == src.ui.scroll_mode->0@) && (!names_a_scroll_mode(src.ui.scroll_mode) ==> s[22].kind->Enum_default == "auto"@)
            &&& s[23].key == "scroll_lines"@ && s[23].category == SettingCategory::Mouse && s[23].owner == SettingOwner::Shell && s[23].restart_required == false && s[23].hidden_in_minimal == false && (src.ui.scroll_lines matches Some(v) ==> s[23].kind == (SettingKindSpec::Int { default: v as i64, min: 1, max: 10 })) && (src.ui.scroll_lines is None ==> s[23].kind == (SettingKindSpec::Int { default: 3, min: 1, max: 10 }))
            &&& s[24].key == "invert_scroll"@ && s[24].category == SettingCategory::Mouse && s[24].owner == SettingOwner::Shell && s[24].restart_required == false && s[24].hidden_in_minimal == false && (src.ui.invert_scroll matches Some(v) ==> s[24].kind == (SettingKindSpec::Bool { default: v })) && (src.ui.invert_scroll is None ==> s[24].kind == (SettingKindSpec::Bool { default: false }))
            &&& s[25].key == "keep_text_selection"@ && s[25].category == SettingCategory::Mouse && s[25].owner == SettingOwner::Shell && s[25].restart_required == false && s[25].hidden_in_minimal == false && s[25].kind is Enum && s[25].kind->Enum_supports_preview == false && s[25].kind->Enum_choices.len() == 3 && s[25].kind->Enum_default == "flash"@
            &&& s[26].key == "coding_data_sharing"@ && s[26].category == SettingCategory::Privacy && s[26].owner == SettingOwner::Shell && s[26].restart_required == false && s[26].hidden_in_minimal == false && s[26].kind is Enum && s[26].kind->Enum_supports_preview == false && s[26].kind->Enum_choices.len() == 2 && s[26].kind->Enum_default == "opt-in"@
            &&& s[27].key == "default_selected_permission"@ && s[27].category == SettingCategory::Agent && s[27].owner == SettingOwner::Shell && s[27].restart_required == false && s[27].hidden_in_minimal == false && s[27].kind is Enum && s[27].kind->Enum_supports_preview == false && s[27].kind->Enum_choices.len() == 4 && s[27].kind->Enum_default == src.permission_always_allow_all_sessions.canonical@
            &&& s[28].key == "toolset.ask_user_question.timeout_enabled"@ && s[28].category == SettingCategory::Agent && s[28].owner == SettingOwner::Shell && s[28].restart_required == true && s[28].hidden_in_minimal == false && s[28].kind == (SettingKindSpec::Bool { default: src.ask_user_question_timeout_enabled })
            &&& s[29].key == "plan_mode"@ && s[29].category == SettingCategory::Agent && s[29].owner == SettingOwner::Pager && s[29].restart_required == false && s[29].hidden_in_minimal == false && s[29].kind is Enum && s[29].kind->Enum_supports_preview == false && s[29].kind->Enum_choices.len() == 2 && s[29].kind->Enum_default == "off"@
            &&& s[30].key == "show_tips"@ && s[30].category == SettingCategory::Advanced && s[30].owner == SettingOwner::Shell && s[30].restart_required == true && s[30].hidden_in_minimal == false && s[30].kind == (SettingKindSpec::Bool { default: true })
            &&& s[31].key == "contextual_hints"@ && s[31].category == SettingCategory::Advanced && s[31].owner == SettingOwner::Shell && s[31].restart_required == false && s[31].hidden_in_minimal == false && s[31].kind is Group && s[31].kind->children.len() == 6
            &&& s[32].key == "auto_update"@ && s[32].category == SettingCategory::Advanced && s[32].owner == SettingOwner::Shell && s[32].restart_required == true && s[32].hidden_in_minimal == false && s[32].kind == (SettingKindSpec::Bool { default: true })
            &&& s[33].key == "hunk_tracker_mode"@ && s[33].category == SettingCategory::Advanced && s[33].owner == SettingOwner::Shell && s[33].restart_required == true && s[33].hidden_in_minimal == false && s[33].kind is Enum && s[33].kind->Enum_supports_preview == false && s[33].kind->Enum_choices.len() == 3 && s[33].kind->Enum_default == "agent_only"@
            &&& s[34].key == "voice_capture_mode"@ && s[34].category == SettingCategory::Editor && s[34].owner == SettingOwner::Shell && s[34].restart_required == false && s[34].hidden_in_minimal == false && s[34].kind is Enum && s[34].kind->Enum_supports_preview == false && s[34].kind->Enum_choices.len() == 2 && s[34].kind->Enum_default == "hold"@
            &&& s[35].key == "voice_stt_language"@ && s[35].category == SettingCategory::Editor && s[35].owner == SettingOwner::Shell && s[35].restart_required == false && s[35].hidden_in_minimal == false && s[35].kind is Enum && s[35].kind->Enum_supports_preview == false && s[35].kind->Enum_choices.len() == 26 && s[35].kind->Enum_default == "en"@
            &&& s[36].key == "contextual_hints.undo"@ && s[36].category == SettingCategory::Advanced && s[36].owner == SettingOwner::Shell && s[36].restart_required == false && s[36].hidden_in_minimal == false && (src.ui.contextual_hints.undo matches Some(v) ==> s[36].kind == (SettingKindSpec::Bool { default: v })) && (src.ui.contextual_hints.undo is None ==> s[36].kind == (SettingKindSpec::Bool { default: true }))
            &&& s[37].key == "contextual_hints.plan_mode"@ && s[37].category == SettingCategory::Advanced && s[37].owner == SettingOwner::Shell && s[37].restart_required == false && s[37].hidden_in_minimal == false && (src.ui.contextual_hints.plan_mode matches Some(v) ==> s[37].kind == (SettingKindSpec::Bool { default: v })) && (src.ui.contextual_hints.plan_mode is None ==> s[37].kind == (SettingKindSpec::Bool { default: true }))
            &&& s[38].key == "contextual_hints.image_input"@ && s[38].category == SettingCategory::Advanced && s[38].owner == SettingOwner::Shell && s[38].restart_required == false && s[38].hidden_in_minimal == false && (src.ui.contextual_hints.image_input matches Some(v) ==> s[38].kind == (SettingKindSpec::Bool { default: v })) && (src.ui.contextual_hints.image_input is None ==> s[38].kind == (SettingKindSpec::Bool { default: true }))
            &&& s[39].key == "contextual_hints.send_now"@ && s[39].category == SettingCategory::Advanced && s[39].owner == SettingOwner::Shell && s[39].restart_required == false && s[39].hidden_in_minimal == false && (src.ui.contextual_hints.send_now matches Some(v) ==> s[39].kind == (SettingKindSpec::Bool { default: v })) && (src.ui.contextual_hints.send_now is None ==> s[39].kind == (SettingKindSpec::Bool { default: true }))
            &&& s[40].key == "contextual_hints.small_screen"@ && s[40].category == SettingCategory::Advanced && s[40].owner == SettingOwner::Shell && s[40].restart_required == false && s[40].hidden_in_minimal == false && (src.ui.contextual_hints.small_screen matches Some(v) ==> s[40].kind == (SettingKindSpec::Bool { default: v })) && (src.ui.contextual_hints.small_screen is None ==> s[40].kind == (SettingKindSpec::Bool { default: true }))
            &&& s[41].key == "contextual_hints.word_select"@ && s[41].category == SettingCategory::Advanced && s[41].owner == SettingOwner::Shell && s[41].restart_required == false && s[41].hidden_in_minimal == false && (src.ui.contextual_hints.word_select matches Some(v) ==> s[41].kind == (SettingKindSpec::Bool { default: v })) && (src.ui.contextual_hints.word_select is None ==> s[41].kind == (SettingKindSpec::Bool { default: true }))
            &&& s[42].key == "fork_secondary_model"@ && s[42].category == SettingCategory::Models && s[42].owner == SettingOwner::Shell && s[42].restart_required == false && s[42].hidden_in_minimal == false && s[42].kind == (SettingKindSpec::DynamicEnum { default: ""@, source: DynamicEnumSource::ActiveModelCatalog, supports_preview: false })
        }),
{
    let s = spec_default_settings(src);
    assert(s[22].kind->Enum_default == spec_scroll_mode_default(src.ui.scroll_mode));
}

/// The canonical names of every choice table, in order.
pub proof fn lemma_choice_names(src: CatalogSources)
    ensures
        spec_theme_choices().len() == 6 && spec_theme_choices()[0].canonical == "auto"@ && spec_theme_choices()[1].canonical == "groknight"@ && spec_theme_choices()[2].canonical == "grokday"@ && spec_theme_choices()[3].canonical == "tokyonight"@ && spec_theme_choices()[4].canonical == "rosepine-moon"@ && spec_theme_choices()[5].canonical == "oscura-midnight"@,
        spec_permission_mode_choices().len() == 4 && spec_permission_mode_choices()[0].canonical == "default"@ && spec_permission_mode_choices()[1].canonical == "ask"@ && spec_permission_mode_choices()[2].canonical == "auto"@ && spec_permission_mode_choices()[3].canonical == "always-approve"@,
        spec_coding_data_sharing_choices().len() == 2 && spec_coding_data_sharing_choices()[0].canonical == "opt-in"@ && spec_coding_data_sharing_choices()[1].canonical == "opt-out"@,
        spec_default_selected_permission_choices(src).len() == 4 && spec_default_selected_permission_choices(src)[0].canonical == src.permission_always_allow_all_sessions.canonical@ && spec_default_selected_permission_choices(src)[1].canonical == src.permission_allow_command_always.canonical@ && spec_default_selected_permission_choices(src)[2].canonical == src.permission_allow_once.canonical@ && spec_default_selected_permission_choices(src)[3].canonical == src.permission_reject.canonical@,
        spec_plan_mode_choices().len() == 2 && spec_plan_mode_choices()[0].canonical == "off"@ && spec_plan_mode_choices()[1].canonical == "on"@,
        spec_render_mermaid_choices().len() == 3 && spec_render_mermaid_choices()[0].canonical == "auto"@ && spec_render_mermaid_choices()[1].canonical == "on"@ && spec_render_mermaid_choices()[2].canonical == "off"@,
        spec_scroll_mode_choices().len() == 3 && spec_scroll_mode_choices()[0].canonical == "auto"@ && spec_scroll_mode_choices()[1].canonical == "wheel"@ && spec_scroll_mode_choices()[2].canonical == "trackpad"@,
        spec_text_selection_choices(src).len() == 3 && spec_text_selection_choices(src)[0].canonical == "flash"@ && spec_text_selection_choices(src)[1].canonical == "hold"@ && spec_text_selection_choices(src)[2].canonical == src.word_select_canonical@,
        spec_hunk_tracker_mode_choices().len() == 3 && spec_hunk_tracker_mode_choices()[0].canonical == "agent_only"@ && spec_hunk_tracker_mode_choices()[1].canonical == "all_dirty"@ && spec_hunk_tracker_mode_choices()[2].canonical == "off"@,
        spec_screen_mode_choices().len() == 2 && spec_screen_mode_choices()[0].canonical == "fullscreen"@ && spec_screen_mode_choices()[1].canonical == "minimal"@,
        spec_voice_capture_mode_choices().len() == 2 && spec_voice_capture_mode_choices()[0].canonical == "toggle"@ && spec_voice_capture_mode_choices()[1].canonical == "hold"@,
        spec_voice_stt_language_choices().len() == 26 && spec_voice_stt_language_choices()[0].canonical == "en"@ && spec_voice_stt_language_choices()[1].canonical == "auto"@ && spec_voice_stt_language_choices()[2].canonical == "ar"@ && spec_voice_stt_language_choices()[3].canonical == "cs"@ && spec_voice_stt_language_choices()[4].canonical == "da"@ && spec_voice_stt_language_choices()[5].canonical == "nl"@ && spec_voice_stt_language_choices()[6].canonical == "fil"@ && spec_voice_stt_language_choices()[7].canonical == "fr"@ && spec_voice_stt_language_choices()[8].canonical == "de"@ && spec_voice_stt_language_choices()[9].canonical == "hi"@ && spec_voice_stt_language_choices()[10].canonical == "id"@ && spec_voice_stt_language_choices()[11].canonical == "it"@ && spec_voice_stt_language_choices()[12].canonical == "ja"@ && spec_voice_stt_language_choices()[13].canonical == "ko"@ && spec_voice_stt_language_choices()[14].canonical == "mk"@ && spec_voice_stt_language_choices()[15].canonical == "ms"@ && spec_voice_stt_language_choices()[16].canonical == "fa"@ && spec_voice_stt_language_choices()[17].canonical == "pl"@ && spec_voice_stt_language_choices()[18].canonical == "pt"@ && spec_voice_stt_language_choices()[19].canonical == "ro"@ && spec_voice_stt_language_choices()[20].canonical == "ru"@ && spec_voice_stt_language_choices()[21].canonical == "es"@ && spec_voice_stt_language_choices()[22].canonical == "sv"@ && spec_voice_stt_language_choices()[23].canonical == "th"@ && spec_voice_stt_language_choices()[24].canonical == "tr"@ && spec_voice_stt_language_choices()[25].canonical == "vi"@,
        spec_concrete_theme_choices().len() == 5 && spec_concrete_theme_choices()[0].canonical == "groknight"@ && spec_concrete_theme_choices()[1].canonical == "grokday"@ && spec_concrete_theme_choices()[2].canonical == "tokyonight"@ && spec_concrete_theme_choices()[3].canonical == "rosepine-moon"@ && spec_concrete_theme_choices()[4].canonical == "oscura-midnight"@,
{
}

/// The label, description and search keywords of every setting.
pub proof fn lemma_setting_texts(src: CatalogSources)
    ensures
        ({
            let s = spec_default_settings(src);
            &&& s[0].label == "紧凑模式"@ && s[0].description == "减少消息周围留白以提高内容密度。终端高度 ≤20 行时自动开启。"@ && s[0].keywords == seq!["compact"@, "density"@, "padding"@, "tight"@, "small"@, "screen"@, "auto"@]
            &&& s[1].label == "默认屏幕模式"@ && s[1].description == "下次启动 plain grok 的方式：全屏（未设置时默认）或极简。写入 config.toml 的 [ui] screen_mode。需重启。仅本会话可用 /minimal 或 /fullscreen 切换。"@ && s[1].keywords == seq!["screen"@, "mode"@, "minimal"@, "fullscreen"@, "full"@, "scrollback"@, "native"@, "alt-screen"@, "render"@, "default"@]
            &&& s[2].label == "显示时间戳"@ && s[2].description == "在用户消息与代理回复旁显示时钟时间。"@ && s[2].keywords == seq!["timestamps"@, "time"@, "clock"@, "date"@]
            &&& s[3].label == "时间线侧栏"@ && s[3].description == "用每回合刻度条替代滚动条：悬停预览回合，点击跳转。"@ && s[3].keywords == seq!["timeline"@, "sidebar"@, "ticks"@, "turns"@, "navigator"@, "rail"@]
            &&& s[4].label == "禁用 Vim 输入模式"@ && s[4].description == "提示框使用普通 readline 风格输入，而非 vim 键位。实验性。"@ && s[4].keywords == seq!["simple"@, "ascii"@, "minimal"@, "plain"@, "vim"@, "readline"@, "experimental"@, "editor"@, "input"@, "prompt"@]
            &&& s[5].label == "Vim 回滚导航"@ && s[5].description == "用 vim 键（h/j/k/l、gg/G、/）导航回滚。不影响输入提示框。"@ && s[5].keywords == seq!["vim"@, "scrollback"@, "navigation"@, "hjkl"@, "keys"@, "keybindings"@, "scroll"@]
            &&& s[6].label == "主题"@ && s[6].description == "分页器界面的配色主题。"@ && s[6].keywords == seq!["theme"@, "color"@, "colour"@, "palette"@, "appearance"@, "dark"@, "light"@]
            &&& s[7].label == "自动深色主题"@ && s[7].description == "系统为深色模式时使用的主题（仅 theme=auto 时）。"@ && s[7].keywords == seq!["auto"@, "dark"@, "theme"@, "system"@, "appearance"@, "night"@]
            &&& s[8].label == "自动浅色主题"@ && s[8].description == "系统为浅色模式时使用的主题（仅 theme=auto 时）。"@ && s[8].keywords == seq!["auto"@, "light"@, "theme"@, "system"@, "appearance"@, "day"@]
            &&& s[9].label == "渲染 Mermaid 图"@ && s[9].description == "```mermaid 代码块的显示方式：auto/on 增加可点击行以打开渲染图；off 显示原始源码。"@ && s[9].keywords == seq!["mermaid"@, "diagram"@, "diagrams"@, "render"@, "flowchart"@, "graph"@, "chart"@]
            &&& s[10].label == "权限模式"@ && s[10].description == "默认使用代理内置行为；「询问」在每次工具操作前确认；「自动」用 LLM 分类器处理风险工具；「始终批准」自动授予全部权限。"@ && s[10].keywords == seq!["permission"@, "approve"@, "yolo"@, "agent"@, "always"@, "ask"@, "auto"@, "classifier"@, "tool"@, "danger"@]
            &&& s[11].label == "记住工具批准"@ && s[11].description == "在权限提示中显示「始终允许」选项，避免对同一命令或工具反复询问。适用于询问/自动模式；始终批准仍会跳过全部提示。需重启。"@ && s[11].keywords == seq!["permission"@, "approve"@, "approval"@, "always"@, "allow"@, "remember"@, "tool"@, "command"@, "kubectl"@, "ask"@, "again"@, "whitelist"@]
            &&& s[12].label == "多行"@ && s[12].description == "开启后 Enter 换行，Shift+Enter 发送。每会话重置。"@ && s[12].keywords == seq!["multiline"@, "newline"@, "input"@, "editor"@, "enter"@]
            &&& s[13].label == "默认模型"@ && s[13].description == "新会话使用的模型。更改也会切换当前会话。选「(无覆盖)」可清除。"@ && s[13].keywords == seq!["model"@, "default"@, "agent"@, "llm"@, "grok"@, "switch"@]
            &&& s[14].label == "思考块最大宽度"@ && s[14].description == "代理思考面板的列宽预算（40–500，默认 120）。"@ && s[14].keywords == seq!["thoughts"@, "width"@, "max"@, "thinking"@, "panel"@, "reasoning"@, "columns"@]
            &&& s[15].label == "显示思考块"@ && s[15].description == "流式输出时在回滚中显示代理思考/推理块。"@ && s[15].keywords == seq!["thinking"@, "reasoning"@, "thoughts"@, "blocks"@, "show"@, "hide"@]
            &&& s[16].label == "提示建议"@ && s[16].description == "每回合结束后预测你可能的下一条提示，并以幽灵文字显示在输入框（Tab 接受）。每回合会有一次小模型调用。"@ && s[16].keywords == seq!["prompt"@, "suggestion"@, "suggestions"@, "autocomplete"@, "ghost"@, "tab"@, "predict"@, "next"@]
            &&& s[17].label == "保留手动折叠"@ && s[17].description == "流式输出时保留手动折叠块，展开块时停止自动滚动。实验性。"@ && s[17].keywords == seq!["fold"@, "pin"@, "collapse"@, "expand"@, "thinking"@, "follow"@, "scroll"@]
            &&& s[18].label == "合并工具调用"@ && s[18].description == "将连续的 read/search/list 工具调用与子代理行折叠为一行摘要；已完成的思考也会并入分组。"@ && s[18].keywords == seq!["group"@, "tool"@, "verbs"@, "fold"@, "collapse"@, "read"@, "search"@, "summary"@, "thinking"@, "subagent"@]
            &&& s[19].label == "折叠编辑块"@ && s[19].description == "将编辑显示为一行 +N/-M 摘要，并把同一文件连续编辑合并为一块；展开行可查看 diff。"@ && s[19].keywords == seq!["edit"@, "edits"@, "diff"@, "diffstat"@, "collapse"@, "collapsed"@, "summary"@, "expand"@, "one-line"@, "merge"@, "coalesce"@]
            &&& s[20].label == "匹配显示刷新率"@ && s[20].description == "在高刷新率显示器上，TUI 会更快地流式输出/滚动以匹配刷新率。关闭则保持约 60Hz。需重启。"@ && s[20].keywords == seq!["display"@, "refresh"@, "rate"@, "hz"@, "cadence"@, "fps"@, "smooth"@, "scroll"@, "stream"@, "high"@, "120"@, "144"@]
            &&& s[21].label == "滚动速度"@ && s[21].description == "鼠标滚轮与触控板滚动速度倍率（1–100）。越大越快。"@ && s[21].keywords == seq!["scroll"@, "speed"@, "mouse"@, "wheel"@, "trackpad"@, "fast"@, "slow"@]
            &&& s[22].label == "滚动输入"@ && s[22].description == "自动检测误判设备时，强制使用滚轮或触控板滚动行为。"@ && s[22].keywords == seq!["scroll"@, "mode"@, "wheel"@, "trackpad"@, "mouse"@, "detect"@, "force"@, "input"@]
            &&& s[23].label == "滚动行数"@ && s[23].description == "滚轮与触控板每跳滚动行数（1–10）。未设置前沿用各终端自身配置。"@ && s[23].keywords == seq!["scroll"@, "lines"@, "tick"@, "notch"@, "wheel"@, "trackpad"@, "mouse"@]
            &&& s[24].label == "反转滚动"@ && s[24].description == "反转垂直滚动方向（自然滚动）。"@ && s[24].keywords == seq!["invert"@, "scroll"@, "natural"@, "direction"@, "reverse"@, "mouse"@, "trackpad"@]
            &&& s[25].label == "文本选择"@ && s[25].description == "应用内选择在屏幕上保持多久，以及双击行为（折叠 vs 选词并复制）。终端/多路复用器自身的选择请按住 Shift 拖动（原生复制）。"@ && s[25].keywords == seq!["selection"@, "drag"@, "copy"@, "flash"@, "hold"@, "shift"@, "native"@, "mouse"@, "tmux"@, "double"@, "double-click"@, "word"@, "terminal"@]
            &&& s[26].label == "编程数据共享"@ && s[26].description == "控制 SpaceXAI 是否可保留并以编程会话数据做训练。"@ && s[26].keywords == seq!["privacy"@, "data"@, "sharing"@, "coding"@, "retention"@, "telemetry"@, "training"@, "opt-in"@, "opt-out"@]
            &&& s[27].label == "默认选中的权限选项"@ && s[27].description == "权限提示中光标预选中的选项行。"@ && s[27].keywords == seq!["permission"@, "approval"@, "cursor"@, "preselect"@, "default"@, "sticky"@, "last"@, "used"@, "yes"@, "no"@, "reject"@, "allow"@]
            &&& s[28].label == "提问超时"@ && s[28].description == "开启后，ask_user_question 工具会在设定时间后超时，而不是无限阻塞。"@ && s[28].keywords == seq!["ask"@, "question"@, "questionnaire"@, "timeout"@, "ask_user_question"@, "block"@, "wait"@, "forever"@, "tool"@]
            &&& s[29].label == "计划模式"@ && s[29].description == "开启后，代理在运行工具或编辑前会先总结计划。"@ && s[29].keywords == seq!["plan"@, "mode"@, "agent"@, "summary"@, "approval"@, "review"@, "session"@]
            &&& s[30].label == "显示提示"@ && s[30].description == "启动时显示每日提示横幅。需重启生效。"@ && s[30].keywords == seq!["tips"@, "tip"@, "show"@, "banner"@, "welcome"@, "startup"@, "launch"@]
            &&& s[31].label == "显示情境提示"@ && s[31].description == "工作时显示简短的情境快捷键提示；可逐项开关。"@ && s[31].keywords == seq!["contextual"@, "hints"@, "tips"@, "undo"@, "plan"@, "nudge"@, "image"@, "clipboard"@, "ephemeral"@, "send"@, "interject"@, "queue"@, "ctrl+z"@, "draft"@, "wipe"@, "mode"@, "shift+tab"@, "paste"@, "input"@, "enter"@, "follow-up"@, "small"@, "screen"@, "compact"@]
            &&& s[32].label == "自动更新"@ && s[32].description == "启动时自动下载并安装分页器更新。需重启。"@ && s[32].keywords == seq!["auto"@, "update"@, "updates"@, "upgrade"@, "version"@, "install"@, "channel"@]
            &&& s[33].label == "改动块跟踪"@ && s[33].description == "代理以 hunk 跟踪哪些文件改动。关则完全禁用跟踪（及 LOC 统计）。需重启。"@ && s[33].keywords == seq!["hunk"@, "tracker"@, "tracking"@, "diff"@, "changes"@, "git"@, "loc"@, "off"@, "disable"@]
            &&& s[34].label == "语音采集"@ && s[34].description == "语音快捷键（Ctrl+Space / F8）行为：切换（按一下开始/停止）或按住说话（按住录音，松开停止；需要 Kitty 协议终端）。"@ && s[34].keywords == seq!["voice"@, "dictation"@, "dictate"@, "mic"@, "microphone"@, "speech"@, "stt"@, "toggle"@, "hold"@, "ctrl+space"@, "f8"@, "push-to-talk"@]
            &&& s[35].label == "语音语言"@ && s[35].description == "语音听写的语音识别语言（Grok STT）。默认英语；「系统」在支持时使用区域设置。同时决定数字与货币的格式语言。"@ && s[35].keywords == seq!["voice"@, "language"@, "locale"@, "dictation"@, "stt"@, "speech"@]
            &&& s[36].label == "撤销"@ && s[36].description == "清空提示后提醒可用 Ctrl+Z 恢复。"@ && s[36].keywords == seq!["undo"@, "ctrl+z"@, "draft"@, "wipe"@, "hint"@]
            &&& s[37].label == "计划模式"@ && s[37].description == "当提示像是规划请求时，建议使用计划模式（Shift+Tab）。"@ && s[37].keywords == seq!["plan"@, "mode"@, "nudge"@, "shift+tab"@, "hint"@]
            &&& s[38].label == "图片输入"@ && s[38].description == "剪贴板有图片且模型支持图片时，提示可粘贴。"@ && s[38].keywords == seq!["image"@, "clipboard"@, "paste"@, "input"@, "hint"@]
            &&& s[39].label == "立即发送"@ && s[39].description == "回合中途排队后续消息后，提醒空提示框按 Enter可立即发送队首项。"@ && s[39].keywords == seq!["send"@, "now"@, "interject"@, "queue"@, "follow-up"@, "enter"@, "empty"@, "hint"@]
            &&& s[40].label == "小屏"@ && s[40].description == "终端行数较少时，每次运行建议一次 /compact-mode。"@ && s[40].keywords == seq!["small"@, "screen"@, "compact"@, "space"@, "rows"@, "hint"@]
            &&& s[41].label == "词选择"@ && s[41].description == "在文本选择为折叠/导航时双击对话文字后，提醒「选词」在设置中。"@ && s[41].keywords == seq!["word"@, "select"@, "double"@, "double-click"@, "click"@, "fold"@, "selection"@, "settings"@, "hint"@]
            &&& s[42].label == "分支副模型"@ && s[42].description == "分支时副代理使用的模型。选「(无覆盖)」可清除。"@ && s[42].keywords == seq!["fork"@, "secondary"@, "model"@, "agent"@, "subagent"@, "branch"@, "models"@]
        }),
{
}

/// The displayed name and description of every choice.
pub proof fn lemma_choice_texts(src: CatalogSources)
    ensures
        spec_theme_choices()[0].display == "自动"@ && spec_theme_choices()[0].description == "跟随系统深色/浅色外观。"@,
        spec_theme_choices()[1].display == "Grok Night"@ && spec_theme_choices()[1].description == "中性深色，品红强调色。"@,
        spec_theme_choices()[2].display == "Grok Day"@ && spec_theme_choices()[2].description == "明亮环境用的浅色主题。"@,
        spec_theme_choices()[3].display == "Tokyo Night"@ && spec_theme_choices()[3].description == "深色偏蓝；需要真彩色。"@,
        spec_theme_choices()[4].display == "Rose Pine Moon"@ && spec_theme_choices()[4].description == "低饱和深色，淡紫强调；需要真彩色。"@,
        spec_theme_choices()[5].display == "Oscura Midnight"@ && spec_theme_choices()[5].description == "深黑背景，暖色强调；需要真彩色。"@,
        spec_permission_mode_choices()[0].display == "默认"@ && spec_permission_mode_choices()[0].description == "使用代理默认权限行为（当前等同于「询问」）。"@,
        spec_permission_mode_choices()[1].display == "询问"@ && spec_permission_mode_choices()[1].description == "执行工具操作前询问权限。"@,
        spec_permission_mode_choices()[2].display == "自动"@ && spec_permission_mode_choices()[2].description == "由 LLM 分类器批准安全工具；危险操作仍可能询问或拒绝。"@,
        spec_permission_mode_choices()[3].display == "始终批准"@ && spec_permission_mode_choices()[3].description == "自动批准所有工具操作。跳过全部权限确认。"@,
        spec_coding_data_sharing_choices()[0].display == "选择加入"@ && spec_coding_data_sharing_choices()[0].description == "允许 SpaceXAI 保留并使用编程会话数据以改进训练与产品。"@,
        spec_coding_data_sharing_choices()[1].display == "选择退出"@ && spec_coding_data_sharing_choices()[1].description == "不保留编程会话数据。代码请求不会用于训练。"@,
        spec_default_selected_permission_choices(src)[0].display == src.permission_always_allow_all_sessions.display@ && spec_default_selected_permission_choices(src)[0].description == ""@,
        spec_default_selected_permission_choices(src)[1].display == src.permission_allow_command_always.display@ && spec_default_selected_permission_choices(src)[1].description == ""@,
        spec_default_selected_permission_choices(src)[2].display == src.permission_allow_once.display@ && spec_default_selected_permission_choices(src)[2].description == ""@,
        spec_default_selected_permission_choices(src)[3].display == src.permission_reject.display@ && spec_default_selected_permission_choices(src)[3].description == ""@,
        spec_plan_mode_choices()[0].display == "关"@ && spec_plan_mode_choices()[0].description == "代理直接运行工具并编辑文件（默认）。"@,
        spec_plan_mode_choices()[1].display == "开"@ && spec_plan_mode_choices()[1].description == "代理先总结计划，再请求批准后运行工具。"@,
        spec_render_mermaid_choices()[0].display == "自动"@ && spec_render_mermaid_choices()[0].description == "显示图表，并提供可点击行以打开/复制渲染图。"@,
        spec_render_mermaid_choices()[1].display == "开"@ && spec_render_mermaid_choices()[1].description == "与自动相同：始终显示可点击操作行。"@,
        spec_render_mermaid_choices()[2].display == "关"@ && spec_render_mermaid_choices()[2].description == "始终以代码块显示原始 Mermaid 源码。"@,
        spec_scroll_mode_choices()[0].display == "自动检测"@ && spec_scroll_mode_choices()[0].description == "按手势时序检测滚轮或触控板。默认。"@,
        spec_scroll_mode_choices()[1].display == "鼠标滚轮"@ && spec_scroll_mode_choices()[1].description == "始终按滚轮刻度滚动（每跳固定行数）。"@,
        spec_scroll_mode_choices()[2].display == "触控板"@ && spec_scroll_mode_choices()[2].description == "始终按触控板滚动（小数累积）。"@,
        spec_text_selection_choices(src)[0].display == "复制后闪一下"@ && spec_text_selection_choices(src)[0].description == "松开鼠标后短暂高亮再清除。双击切换折叠。默认。"@,
        spec_text_selection_choices(src)[1].display == "保持到关闭"@ && spec_text_selection_choices(src)[1].description == "选择保持可见，直到 Esc、点击或滚动。双击切换折叠。"@,
        spec_text_selection_choices(src)[2].display == "选词（终端风格）"@ && spec_text_selection_choices(src)[2].description == "双击选中并复制一词，三击选中一行；选择保持到关闭。"@,
        spec_hunk_tracker_mode_choices()[0].display == "仅代理"@ && spec_hunk_tracker_mode_choices()[0].description == "仅跟踪代理编辑的文件（默认）。"@,
        spec_hunk_tracker_mode_choices()[1].display == "全部脏文件"@ && spec_hunk_tracker_mode_choices()[1].description == "跟踪全部 git 脏文件，含外部编辑。"@,
        spec_hunk_tracker_mode_choices()[2].display == "关"@ && spec_hunk_tracker_mode_choices()[2].description == "完全禁用 hunk 跟踪，同时关闭 LOC 跟踪。"@,
        spec_screen_mode_choices()[0].display == "全屏"@ && spec_screen_mode_choices()[0].description == "以标准全屏 TUI 打开 grok。未设置时的默认。"@,
        spec_screen_mode_choices()[1].display == "极简"@ && spec_screen_mode_choices()[1].description == "以回滚原生（极简）模式打开 grok。"@,
        spec_voice_capture_mode_choices()[0].display == "切换"@ && spec_voice_capture_mode_choices()[0].description == "Ctrl+Space / F8 开始听写；再按一次（或 Esc/Enter）停止。"@,
        spec_voice_capture_mode_choices()[1].display == "按住说话"@ && spec_voice_capture_mode_choices()[1].description == "按住 Ctrl+Space / F8 录音，松开停止。需要支持 Kitty 协议的终端。"@,
        spec_voice_stt_language_choices()[0].display == "English"@ && spec_voice_stt_language_choices()[0].description == ""@,
        spec_voice_stt_language_choices()[1].display == "系统"@ && spec_voice_stt_language_choices()[1].description == "系统区域设置若为支持的听写语言则使用，否则英语。"@,
        spec_voice_stt_language_choices()[2].display == "Arabic"@ && spec_voice_stt_language_choices()[2].description == ""@,
        spec_voice_stt_language_choices()[3].display == "Czech"@ && spec_voice_stt_language_choices()[3].description == ""@,
        spec_voice_stt_language_choices()[4].display == "Danish"@ && spec_voice_stt_language_choices()[4].description == ""@,
        spec_voice_stt_language_choices()[5].display == "Dutch"@ && spec_voice_stt_language_choices()[5].description == ""@,
        spec_voice_stt_language_choices()[6].display == "Filipino"@ && spec_voice_stt_language_choices()[6].description == ""@,
        spec_voice_stt_language_choices()[7].display == "French"@ && spec_voice_stt_language_choices()[7].description == ""@,
        spec_voice_stt_language_choices()[8].display == "German"@ && spec_voice_stt_language_choices()[8].description == ""@,
        spec_voice_stt_language_choices()[9].display == "Hindi"@ && spec_voice_stt_language_choices()[9].description == ""@,
        spec_voice_stt_language_choices()[10].display == "Indonesian"@ && spec_voice_stt_language_choices()[10].description == ""@,
        spec_voice_stt_language_choices()[11].display == "Italian"@ && spec_voice_stt_language_choices()[11].description == ""@,
        spec_voice_stt_language_choices()[12].display == "Japanese"@ && spec_voice_stt_language_choices()[12].description == ""@,
        spec_voice_stt_language_choices()[13].display == "Korean"@ && spec_voice_stt_language_choices()[13].description == ""@,
        spec_voice_stt_language_choices()[14].display == "Macedonian"@ && spec_voice_stt_language_choices()[14].description == ""@,
        spec_voice_stt_language_choices()[15].display == "Malay"@ && spec_voice_stt_language_choices()[15].description == ""@,
        spec_voice_stt_language_choices()[16].display == "Persian"@ && spec_voice_stt_language_choices()[16].description == ""@,
        spec_voice_stt_language_choices()[17].display == "Polish"@ && spec_voice_stt_language_choices()[17].description == ""@,
        spec_voice_stt_language_choices()[18].display == "Portuguese"@ && spec_voice_stt_language_choices()[18].description == ""@,
        spec_voice_stt_language_choices()[19].display == "Romanian"@ && spec_voice_stt_language_choices()[19].description == ""@,
        spec_voice_stt_language_choices()[20].display == "Russian"@ && spec_voice_stt_language_choices()[20].description == ""@,
        spec_voice_stt_language_choices()[21].display == "Spanish"@ && spec_voice_stt_language_choices()[21].description == ""@,
        spec_voice_stt_language_choices()[22].display == "Swedish"@ && spec_voice_stt_language_choices()[22].description == ""@,
        spec_voice_stt_language_choices()[23].display == "Thai"@ && spec_voice_stt_language_choices()[23].description == ""@,
        spec_voice_stt_language_choices()[24].display == "Turkish"@ && spec_voice_stt_language_choices()[24].description == ""@,
        spec_voice_stt_language_choices()[25].display == "Vietnamese"@ && spec_voice_stt_language_choices()[25].description == ""@,
        spec_concrete_theme_choices()[0].display == "Grok Night"@ && spec_concrete_theme_choices()[0].description == "中性深色，品红强调色。"@,
        spec_concrete_theme_choices()[1].display == "Grok Day"@ && spec_concrete_theme_choices()[1].description == "明亮环境用的浅色主题。"@,
        spec_concrete_theme_choices()[2].display == "Tokyo Night"@ && spec_concrete_theme_choices()[2].description == "深色偏蓝；需要真彩色。"@,
        spec_concrete_theme_choices()[3].display == "Rose Pine Moon"@ && spec_concrete_theme_choices()[3].description == "低饱和深色，淡紫强调；需要真彩色。"@,
        spec_concrete_theme_choices()[4].display == "Oscura Midnight"@ && spec_concrete_theme_choices()[4].description == "深黑背景，暖色强调；需要真彩色。"@,
{
}

} // verus!
