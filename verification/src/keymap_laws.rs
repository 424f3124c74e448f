//! Laws of the default key map.

use vstd::prelude::*;

use crate::actions::{
    spec_action, spec_alt_keys, spec_category, spec_context, spec_default_key, spec_description,
    spec_hint_key_display, spec_hint_priority, spec_label, spec_long_help,
    spec_requires_confirmation, ActionId, Category, When,
};
use crate::defaults::{spec_action_ids, spec_core_ids, spec_dashboard_ids};
use crate::keys::{ch, ctrl, kb, spec_shift_tab_keys, KeyBinding, KeyCode, CONTROL, NONE, SHIFT, SUPER};
use crate::terminal::{spec_ctrl_dot_unreliable, TerminalEnv};

verus! {

/// The place of an action in the full default table (the one with the
/// opt-in mouse toggle).
pub open spec fn table_position(id: ActionId) -> int {
    match id {
        ActionId::SelectNext => 0,
        ActionId::SelectPrev => 1,
        ActionId::NextTurn => 2,
        ActionId::PrevTurn => 3,
        ActionId::NextResponse => 4,
        ActionId::PrevResponse => 5,
        ActionId::GotoTop => 6,
        ActionId::GotoBottom => 7,
        ActionId::ScrollUp => 8,
        ActionId::ScrollDown => 9,
        ActionId::HalfPageUp => 10,
        ActionId::HalfPageDown => 11,
        ActionId::PageUp => 12,
        ActionId::PageDown => 13,
        ActionId::Collapse => 14,
        ActionId::Expand => 15,
        ActionId::ToggleFold => 16,
        ActionId::ToggleExpandAll => 17,
        ActionId::ExpandAllThinking => 18,
        ActionId::ToggleRaw => 19,
        ActionId::CopyBlockContent => 20,
        ActionId::CopyBlockMeta => 21,
        ActionId::OpenBlockViewer => 22,
        ActionId::OpenNextLink => 23,
        ActionId::OpenPrevLink => 24,
        ActionId::Rewind => 25,
        ActionId::KillBgTask => 26,
        ActionId::SendPrompt => 27,
        ActionId::FocusPrompt => 28,
        ActionId::FocusScrollback => 29,
        ActionId::CancelTurn => 30,
        ActionId::CycleMode => 31,
        ActionId::ToggleTodos => 32,
        ActionId::ToggleTasks => 33,
        ActionId::ToggleQueue => 34,
        ActionId::OpenSessions => 35,
        ActionId::OpenExtensions => 36,
        ActionId::SendToBackground => 37,
        ActionId::InterjectPrompt => 38,
        ActionId::EnableVoiceMode => 39,
        ActionId::VoiceToggle => 40,
        ActionId::ToggleMultiline => 41,
        ActionId::BashMode => 42,
        ActionId::ToggleYolo => 43,
        ActionId::NewSession => 44,
        ActionId::Quit => 45,
        ActionId::CommandPalette => 46,
        ActionId::ShortcutsHelp => 47,
        ActionId::ModelPicker => 48,
        ActionId::OpenSettings => 49,
        ActionId::ToggleMouseCapture => 50,
        ActionId::OpenDashboard => 51,
        ActionId::DashboardSelectNext => 52,
        ActionId::DashboardSelectPrev => 53,
        ActionId::DashboardTogglePin => 54,
        ActionId::DashboardBeginRename => 55,
        ActionId::DashboardStop => 56,
        ActionId::DashboardCycleMode => 57,
        ActionId::DashboardToggleGrouping => 58,
        ActionId::DashboardReorderUp => 59,
        ActionId::DashboardReorderDown => 60,
        ActionId::DashboardShortcutsHelp => 61,
        ActionId::DashboardExit => 62,
        ActionId::DashboardToggleAutoApprove => 63,
        ActionId::DashboardOpenLocationPicker => 64,
        ActionId::DashboardToggleWorktree => 65,
        ActionId::DashboardOverlayExit => 66,
        ActionId::DashboardOverlayPrev => 67,
        ActionId::DashboardOverlayNext => 68,
        ActionId::DashboardOverlayStop => 69,
    }
}

/// Every binding of an action: its primary key followed by its alternates.
pub open spec fn spec_bindings(id: ActionId, env: TerminalEnv) -> Seq<KeyBinding> {
    seq![spec_default_key(id, env)] + spec_alt_keys(id, env)
}

/// `k` is the primary key of `id` or one of its (at most two) alternates.
pub open spec fn binds(id: ActionId, env: TerminalEnv, k: KeyBinding) -> bool {
    let alts = spec_alt_keys(id, env);
    ||| k == spec_default_key(id, env)
    ||| (alts.len() > 0 && alts[0] == k)
    ||| (alts.len() > 1 && alts[1] == k)
}

/// The first action of context `c`, in table order, that binds `k`.
pub open spec fn owner(c: When, k: KeyBinding, env: TerminalEnv) -> Option<ActionId> {
    match c {
        When::ScrollbackFocused => {
            if binds(ActionId::SelectNext, env, k) {
                Some(ActionId::SelectNext)
            } else if binds(ActionId::SelectPrev, env, k) {
                Some(ActionId::SelectPrev)
            } else if binds(ActionId::NextTurn, env, k) {
                Some(ActionId::NextTurn)
            } else if binds(ActionId::PrevTurn, env, k) {
                Some(ActionId::PrevTurn)
            } else if binds(ActionId::NextResponse, env, k) {
                Some(ActionId::NextResponse)
            } else if binds(ActionId::PrevResponse, env, k) {
                Some(ActionId::PrevResponse)
            } else if binds(ActionId::GotoTop, env, k) {
                Some(ActionId::GotoTop)
            } else if binds(ActionId::GotoBottom, env, k) {
                Some(ActionId::GotoBottom)
            } else if binds(ActionId::ScrollUp, env, k) {
                Some(ActionId::ScrollUp)
            } else if binds(ActionId::ScrollDown, env, k) {
                Some(ActionId::ScrollDown)
            } else if binds(ActionId::HalfPageUp, env, k) {
                Some(ActionId::HalfPageUp)
            } else if binds(ActionId::HalfPageDown, env, k) {
                Some(ActionId::HalfPageDown)
            } else if binds(ActionId::PageUp, env, k) {
                Some(ActionId::PageUp)
            } else if binds(ActionId::PageDown, env, k) {
                Some(ActionId::PageDown)
            } else if binds(ActionId::Collapse, env, k) {
                Some(ActionId::Collapse)
            } else if binds(ActionId::Expand, env, k) {
                Some(ActionId::Expand)
            } else if binds(ActionId::ToggleFold, env, k) {
                Some(ActionId::ToggleFold)
            } else if binds(ActionId::ToggleExpandAll, env, k) {
                Some(ActionId::ToggleExpandAll)
            } else if binds(ActionId::ExpandAllThinking, env, k) {
                Some(ActionId::ExpandAllThinking)
            } else if binds(ActionId::ToggleRaw, env, k) {
                Some(ActionId::ToggleRaw)
            } else if binds(ActionId::CopyBlockContent, env, k) {
                Some(ActionId::CopyBlockContent)
            } else if binds(ActionId::CopyBlockMeta, env, k) {
                Some(ActionId::CopyBlockMeta)
            } else if binds(ActionId::OpenBlockViewer, env, k) {
                Some(ActionId::OpenBlockViewer)
            } else if binds(ActionId::OpenNextLink, env, k) {
                Some(ActionId::OpenNextLink)
            } else if binds(ActionId::OpenPrevLink, env, k) {
                Some(ActionId::OpenPrevLink)
            } else if binds(ActionId::Rewind, env, k) {
                Some(ActionId::Rewind)
            } else if binds(ActionId::KillBgTask, env, k) {
                Some(ActionId::KillBgTask)
            } else if binds(ActionId::FocusPrompt, env, k) {
                Some(ActionId::FocusPrompt)
            } else if binds(ActionId::ToggleMouseCapture, env, k) {
                Some(ActionId::ToggleMouseCapture)
            } else {
                None
            }
        },
        When::PromptFocused => {
            if binds(ActionId::SendPrompt, env, k) {
                Some(ActionId::SendPrompt)
            } else if binds(ActionId::FocusScrollback, env, k) {
                Some(ActionId::FocusScrollback)
            } else if binds(ActionId::CycleMode, env, k) {
                Some(ActionId::CycleMode)
            } else if binds(ActionId::InterjectPrompt, env, k) {
                Some(ActionId::InterjectPrompt)
            } else if binds(ActionId::ToggleMultiline, env, k) {
                Some(ActionId::ToggleMultiline)
            } else if binds(ActionId::BashMode, env, k) {
                Some(ActionId::BashMode)
            } else {
                None
            }
        },
        When::AgentScreen => {
            if binds(ActionId::CancelTurn, env, k) {
                Some(ActionId::CancelTurn)
            } else if binds(ActionId::ToggleTodos, env, k) {
                Some(ActionId::ToggleTodos)
            } else if binds(ActionId::ToggleTasks, env, k) {
                Some(ActionId::ToggleTasks)
            } else if binds(ActionId::ToggleQueue, env, k) {
                Some(ActionId::ToggleQueue)
            } else if binds(ActionId::OpenSessions, env, k) {
                Some(ActionId::OpenSessions)
            } else if binds(ActionId::OpenExtensions, env, k) {
                Some(ActionId::OpenExtensions)
            } else if binds(ActionId::SendToBackground, env, k) {
                Some(ActionId::SendToBackground)
            } else if binds(ActionId::EnableVoiceMode, env, k) {
                Some(ActionId::EnableVoiceMode)
            } else if binds(ActionId::ToggleYolo, env, k) {
                Some(ActionId::ToggleYolo)
            } else if binds(ActionId::CommandPalette, env, k) {
                Some(ActionId::CommandPalette)
            } else if binds(ActionId::ShortcutsHelp, env, k) {
                Some(ActionId::ShortcutsHelp)
            } else if binds(ActionId::ModelPicker, env, k) {
                Some(ActionId::ModelPicker)
            } else if binds(ActionId::OpenSettings, env, k) {
                Some(ActionId::OpenSettings)
            } else {
                None
            }
        },
        When::Always => {
            if binds(ActionId::VoiceToggle, env, k) {
                Some(ActionId::VoiceToggle)
            } else if binds(ActionId::NewSession, env, k) {
                Some(ActionId::NewSession)
            } else if binds(ActionId::Quit, env, k) {
                Some(ActionId::Quit)
            } else if binds(ActionId::OpenDashboard, env, k) {
                Some(ActionId::OpenDashboard)
            } else {
                None
            }
        },
        When::DashboardFocused => {
            if binds(ActionId::DashboardSelectNext, env, k) {
                Some(ActionId::DashboardSelectNext)
            } else if binds(ActionId::DashboardSelectPrev, env, k) {
                Some(ActionId::DashboardSelectPrev)
            } else if binds(ActionId::DashboardTogglePin, env, k) {
                Some(ActionId::DashboardTogglePin)
            } else if binds(ActionId::DashboardBeginRename, env, k) {
                Some(ActionId::DashboardBeginRename)
            } else if binds(ActionId::DashboardStop, env, k) {
                Some(ActionId::DashboardStop)
            } else if binds(ActionId::DashboardCycleMode, env, k) {
                Some(ActionId::DashboardCycleMode)
            } else if binds(ActionId::DashboardToggleGrouping, env, k) {
                Some(ActionId::DashboardToggleGrouping)
            } else if binds(ActionId::DashboardReorderUp, env, k) {
                Some(ActionId::DashboardReorderUp)
            } else if binds(ActionId::DashboardReorderDown, env, k) {
                Some(ActionId::DashboardReorderDown)
            } else if binds(ActionId::DashboardShortcutsHelp, env, k) {
                Some(ActionId::DashboardShortcutsHelp)
            } else if binds(ActionId::DashboardExit, env, k) {
                Some(ActionId::DashboardExit)
            } else if binds(ActionId::DashboardToggleAutoApprove, env, k) {
                Some(ActionId::DashboardToggleAutoApprove)
            } else if binds(ActionId::DashboardOpenLocationPicker, env, k) {
                Some(ActionId::DashboardOpenLocationPicker)
            } else if binds(ActionId::DashboardToggleWorktree, env, k) {
                Some(ActionId::DashboardToggleWorktree)
            } else {
                None
            }
        },
        When::DashboardOverlay => {
            if binds(ActionId::DashboardOverlayExit, env, k) {
                Some(ActionId::DashboardOverlayExit)
            } else if binds(ActionId::DashboardOverlayPrev, env, k) {
                Some(ActionId::DashboardOverlayPrev)
            } else if binds(ActionId::DashboardOverlayNext, env, k) {
                Some(ActionId::DashboardOverlayNext)
            } else if binds(ActionId::DashboardOverlayStop, env, k) {
                Some(ActionId::DashboardOverlayStop)
            } else {
                None
            }
        },
    }
}

proof fn lemma_alt_keys_short(id: ActionId, env: TerminalEnv)
    ensures
        spec_alt_keys(id, env).len() <= 2,
{
}

proof fn lemma_bindings_binds(id: ActionId, env: TerminalEnv, k: KeyBinding)
    requires
        spec_bindings(id, env).contains(k),
    ensures
        binds(id, env, k),
{
    lemma_alt_keys_short(id, env);
    let s = spec_bindings(id, env);
    let i = choose|i: int| 0 <= i < s.len() && s[i] == k;
    if i > 0 {
        assert(s[i] == spec_alt_keys(id, env)[i - 1]);
    }
}

proof fn lemma_owner(id: ActionId, env: TerminalEnv, k: KeyBinding)
    requires
        binds(id, env, k),
        k.code != KeyCode::Null,
    ensures
        owner(spec_context(id), k, env) == Some(id),
{
}

/// Within one context no key is bound to two different actions: every real
/// key that two actions of the same context both bind is the same action.
pub proof fn lemma_context_bindings_distinct(env: TerminalEnv, a: ActionId, b: ActionId, k: KeyBinding)
    requires
        spec_context(a) == spec_context(b),
        spec_bindings(a, env).contains(k),
        spec_bindings(b, env).contains(k),
        k.code != KeyCode::Null,
    ensures
        a == b,
{
    lemma_bindings_binds(a, env, k);
    lemma_bindings_binds(b, env, k);
    lemma_owner(a, env, k);
    lemma_owner(b, env, k);
}

proof fn lemma_positions()
    ensures
        forall|i: int|
            0 <= i < spec_core_ids().len() ==> table_position(#[trigger] spec_core_ids()[i]) == i,
        forall|i: int|
            0 <= i < spec_dashboard_ids().len() ==> table_position(#[trigger] spec_dashboard_ids()[i])
                == i + 51,
        forall|id: ActionId|
            table_position(id) < 50 ==> spec_core_ids()[#[trigger] table_position(id)] == id,
        forall|id: ActionId|
            table_position(id) > 50 ==> spec_dashboard_ids()[#[trigger] table_position(id) - 51]
                == id,
        forall|id: ActionId|
            table_position(id) == 50 <==> id == ActionId::ToggleMouseCapture,
        forall|id: ActionId| 0 <= #[trigger] table_position(id) < 70,
        spec_core_ids().len() == 50,
        spec_dashboard_ids().len() == 19,
{
}

/// The default table lists the actions in cheatsheet order: the position
/// of each entry is that of its action in [`table_position`], shifted down
/// by one after the mouse toggle when it is left out.
pub proof fn lemma_cheatsheet_order(mouse_reporting_toggle_enabled: bool, i: int)
    requires
        0 <= i < spec_action_ids(mouse_reporting_toggle_enabled).len(),
    ensures
        spec_action_ids(true).len() == 70,
        spec_action_ids(false).len() == 69,
        table_position(spec_action_ids(mouse_reporting_toggle_enabled)[i]) == if i < 50
            || mouse_reporting_toggle_enabled {
            i
        } else {
            i + 1
        },
{
    lemma_positions();
    let ids = spec_action_ids(mouse_reporting_toggle_enabled);
    if i < 50 {
        assert(ids[i] == spec_core_ids()[i]);
    } else if mouse_reporting_toggle_enabled && i == 50 {
        assert(ids[i] == ActionId::ToggleMouseCapture);
    } else {
        let shift: int = if mouse_reporting_toggle_enabled { 0 } else { 1 };
        assert(ids[i] == spec_dashboard_ids()[i - 51 + shift]);
    }
}

/// The default table registers every action exactly once, the opt-in
/// mouse-capture toggle only when `mouse_reporting_toggle_enabled` is set.
pub proof fn lemma_each_action_registered_once(mouse_reporting_toggle_enabled: bool)
    ensures
        spec_action_ids(mouse_reporting_toggle_enabled).no_duplicates(),
        forall|id: ActionId|
            spec_action_ids(mouse_reporting_toggle_enabled).contains(id) <==> (
            mouse_reporting_toggle_enabled || id != ActionId::ToggleMouseCapture),
{
    lemma_positions();
    let m = mouse_reporting_toggle_enabled;
    let ids = spec_action_ids(m);
    let shift: int = if m { 0 } else { 1 };
    assert forall|i: int| 0 <= i < ids.len() implies table_position(#[trigger] ids[i]) == if i
        < 50 {
        i
    } else {
        i + shift
    } by {
        if i < 50 {
            assert(ids[i] == spec_core_ids()[i]);
        } else if m && i == 50 {
            assert(ids[i] == ActionId::ToggleMouseCapture);
        } else {
            assert(ids[i] == spec_dashboard_ids()[i - 51 + shift]);
        }
    }
    assert forall|i: int, j: int| 0 <= i < ids.len() && 0 <= j < ids.len() && i != j implies ids[i]
        != ids[j] by {
        assert(table_position(ids[i]) != table_position(ids[j]));
    }
    assert forall|id: ActionId| (m || id != ActionId::ToggleMouseCapture) implies ids.contains(
        id,
    ) by {
        let p = table_position(id);
        if p < 50 {
            assert(ids[p] == spec_core_ids()[p]);
        } else if p == 50 {
            assert(ids[50] == id);
        } else {
            assert(ids[p - shift] == spec_dashboard_ids()[p - 51]);
        }
    }
    assert forall|id: ActionId| ids.contains(id) implies (m || id != ActionId::ToggleMouseCapture) by {
        let i = choose|i: int| 0 <= i < ids.len() && ids[i] == id;
        assert(table_position(ids[i]) == if i < 50 {
            i
        } else {
            i + shift
        });
    }
}

/// Opting in to the mouse toggle only inserts its entry between the core
/// actions and the dashboard actions; everything else keeps its order.
pub proof fn lemma_mouse_toggle_only_inserts()
    ensures
        spec_action_ids(true) == spec_action_ids(false).insert(
            spec_core_ids().len() as int,
            ActionId::ToggleMouseCapture,
        ),
{
    lemma_positions();
    assert(spec_action_ids(true) =~= spec_action_ids(false).insert(
        spec_core_ids().len() as int,
        ActionId::ToggleMouseCapture,
    ));
}

/// Whether Ctrl+. is reliable only chooses which cheatsheet key is the
/// advertised primary: both keys stay registered either way, and no other
/// entry of the table changes.
pub proof fn lemma_ctrl_dot_only_chooses_primary(env1: TerminalEnv, env2: TerminalEnv, id: ActionId)
    requires
        env1.vscode_family == env2.vscode_family,
        env1.apple_terminal == env2.apple_terminal,
        env1.ssh == env2.ssh,
        env1.macos == env2.macos,
    ensures
        id != ActionId::ShortcutsHelp && id != ActionId::DashboardShortcutsHelp ==> spec_action(
            id,
            env1,
        ) == spec_action(id, env2),
        spec_bindings(ActionId::ShortcutsHelp, env1).to_set() =~= set![ctrl('.'), ctrl('x')],
        spec_bindings(ActionId::DashboardShortcutsHelp, env1).to_set() =~= set![ctrl('.'), ch('?')],
        spec_default_key(ActionId::ShortcutsHelp, env1) == if spec_ctrl_dot_unreliable(env1) {
            ctrl('x')
        } else {
            ctrl('.')
        },
        spec_default_key(ActionId::DashboardShortcutsHelp, env1) == if spec_ctrl_dot_unreliable(
            env1,
        ) {
            ch('?')
        } else {
            ctrl('.')
        },
{
    let s1 = spec_bindings(ActionId::ShortcutsHelp, env1);
    let s2 = spec_bindings(ActionId::DashboardShortcutsHelp, env1);
    assert(s1.to_set() =~= set![ctrl('.'), ctrl('x')]) by {
        assert(s1.len() == 2);
        assert forall|k: KeyBinding| s1.contains(k) <==> (k == ctrl('.') || k == ctrl('x')) by {
            if k == s1[0] || k == s1[1] {
            }
        }
    }
    assert(s2.to_set() =~= set![ctrl('.'), ch('?')]) by {
        assert(s2.len() == 2);
        assert forall|k: KeyBinding| s2.contains(k) <==> (k == ctrl('.') || k == ch('?')) by {
            if k == s2[0] || k == s2[1] {
            }
        }
    }
}

/// Both mode-cycling actions are bound to every Shift+Tab encoding: the
/// first as primary, the SHIFT-bearing ones as alternates.
pub proof fn lemma_cycle_mode_binds_all_shift_tab(env: TerminalEnv)
    ensures
        spec_bindings(ActionId::CycleMode, env) == spec_shift_tab_keys(),
        spec_bindings(ActionId::DashboardCycleMode, env) == spec_shift_tab_keys(),
{
    assert(spec_bindings(ActionId::CycleMode, env) =~= spec_shift_tab_keys());
    assert(spec_bindings(ActionId::DashboardCycleMode, env) =~= spec_shift_tab_keys());
}

/// In VS Code-family terminals Ctrl+D only quits (half-page-down moves to
/// `D`), and outside the dashboard Ctrl+L only sends a prompt now (the
/// extensions panel is left unbound so it cannot take the chord).
pub proof fn lemma_vscode_reserved_chords(env: TerminalEnv, id: ActionId)
    requires
        env.vscode_family,
    ensures
        binds(id, env, ctrl('d')) ==> id == ActionId::Quit,
        binds(id, env, ctrl('l')) ==> id == ActionId::InterjectPrompt || spec_context(id)
            == When::DashboardFocused,
{
}

/// Exactly starting a new session, quitting and stopping an attached agent
/// from the dashboard overlay must be pressed twice.
pub proof fn lemma_confirmation_actions(id: ActionId)
    ensures
        spec_requires_confirmation(id) <==> (id == ActionId::NewSession || id == ActionId::Quit || id
            == ActionId::DashboardOverlayStop),
{
}

/// A terminal with none of the detected quirks: not VS Code or
/// Terminal.app, local, not macOS, Windows or WSL, and Ctrl+. reliable.
pub open spec fn is_plain_terminal(env: TerminalEnv) -> bool {
    &&& !env.vscode_family
    &&& !env.apple_terminal
    &&& !env.ssh
    &&& !env.macos
    &&& !env.windows
    &&& !env.wsl
    &&& !env.terminal_ctrl_dot_unreliable
}

/// On a plain terminal every action has the primary and alternate keys,
/// context, cheatsheet section and hint position that its help text
/// documents; for instance L (with Shift+Right) goes to the next turn and H
/// (with Shift+Left) to the previous one.
pub proof fn lemma_plain_terminal_bindings(env: TerminalEnv)
    requires
        is_plain_terminal(env),
    ensures
        spec_default_key(ActionId::SelectNext, env) == ch('j') && spec_alt_keys(ActionId::SelectNext, env) == seq![kb(KeyCode::Down, NONE)]
            && spec_context(ActionId::SelectNext) == When::ScrollbackFocused && spec_category(ActionId::SelectNext) == Category::ConversationNav
            && spec_hint_priority(ActionId::SelectNext) == Some(0u8),
        spec_default_key(ActionId::SelectPrev, env) == ch('k') && spec_alt_keys(ActionId::SelectPrev, env) == seq![kb(KeyCode::Up, NONE)]
            && spec_context(ActionId::SelectPrev) == When::ScrollbackFocused && spec_category(ActionId::SelectPrev) == Category::ConversationNav
            && spec_hint_priority(ActionId::SelectPrev) is None,
        spec_default_key(ActionId::NextTurn, env) == ch('L') && spec_alt_keys(ActionId::NextTurn, env) == seq![kb(KeyCode::Right, SHIFT)]
            && spec_context(ActionId::NextTurn) == When::ScrollbackFocused && spec_category(ActionId::NextTurn) == Category::ConversationNav
            && spec_hint_priority(ActionId::NextTurn) == Some(1u8),
        spec_default_key(ActionId::PrevTurn, env) == ch('H') && spec_alt_keys(ActionId::PrevTurn, env) == seq![kb(KeyCode::Left, SHIFT)]
            && spec_context(ActionId::PrevTurn) == When::ScrollbackFocused && spec_category(ActionId::PrevTurn) == Category::ConversationNav
            && spec_hint_priority(ActionId::PrevTurn) is None,
        spec_default_key(ActionId::NextResponse, env) == ch('J') && spec_alt_keys(ActionId::NextResponse, env).len() == 0
            && spec_context(ActionId::NextResponse) == When::ScrollbackFocused && spec_category(ActionId::NextResponse) == Category::ConversationNav
            && spec_hint_priority(ActionId::NextResponse) is None,
        spec_default_key(ActionId::PrevResponse, env) == ch('K') && spec_alt_keys(ActionId::PrevResponse, env).len() == 0
            && spec_context(ActionId::PrevResponse) == When::ScrollbackFocused && spec_category(ActionId::PrevResponse) == Category::ConversationNav
            && spec_hint_priority(ActionId::PrevResponse) is None,
        spec_default_key(ActionId::GotoTop, env) == ch('g') && spec_alt_keys(ActionId::GotoTop, env).len() == 0
            && spec_context(ActionId::GotoTop) == When::ScrollbackFocused && spec_category(ActionId::GotoTop) == Category::ConversationNav
            && spec_hint_priority(ActionId::GotoTop) == Some(4u8),
        spec_default_key(ActionId::GotoBottom, env) == ch('G') && spec_alt_keys(ActionId::GotoBottom, env).len() == 0
            && spec_context(ActionId::GotoBottom) == When::ScrollbackFocused && spec_category(ActionId::GotoBottom) == Category::ConversationNav
            && spec_hint_priority(ActionId::GotoBottom) is None,
        spec_default_key(ActionId::ScrollUp, env) == ctrl('k') && spec_alt_keys(ActionId::ScrollUp, env).len() == 0
            && spec_context(ActionId::ScrollUp) == When::ScrollbackFocused && spec_category(ActionId::ScrollUp) == Category::ConversationNav
            && spec_hint_priority(ActionId::ScrollUp) is None,
        spec_default_key(ActionId::ScrollDown, env) == ctrl('j') && spec_alt_keys(ActionId::ScrollDown, env).len() == 0
            && spec_context(ActionId::ScrollDown) == When::ScrollbackFocused && spec_category(ActionId::ScrollDown) == Category::ConversationNav
            && spec_hint_priority(ActionId::ScrollDown) is None,
        spec_default_key(ActionId::HalfPageUp, env) == ctrl('u') && spec_alt_keys(ActionId::HalfPageUp, env).len() == 0
            && spec_context(ActionId::HalfPageUp) == When::ScrollbackFocused && spec_category(ActionId::HalfPageUp) == Category::ConversationNav
            && spec_hint_priority(ActionId::HalfPageUp) is None,
        spec_default_key(ActionId::HalfPageDown, env) == ctrl('d') && spec_alt_keys(ActionId::HalfPageDown, env).len() == 0
            && spec_context(ActionId::HalfPageDown) == When::ScrollbackFocused && spec_category(ActionId::HalfPageDown) == Category::ConversationNav
            && spec_hint_priority(ActionId::HalfPageDown) is None,
        spec_default_key(ActionId::PageUp, env) == kb(KeyCode::PageUp, NONE) && spec_alt_keys(ActionId::PageUp, env).len() == 0
            && spec_context(ActionId::PageUp) == When::ScrollbackFocused && spec_category(ActionId::PageUp) == Category::ConversationNav
            && spec_hint_priority(ActionId::PageUp) is None,
        spec_default_key(ActionId::PageDown, env) == kb(KeyCode::PageDown, NONE) && spec_alt_keys(ActionId::PageDown, env).len() == 0
            && spec_context(ActionId::PageDown) == When::ScrollbackFocused && spec_category(ActionId::PageDown) == Category::ConversationNav
            && spec_hint_priority(ActionId::PageDown) is None,
        spec_default_key(ActionId::Collapse, env) == ch('h') && spec_alt_keys(ActionId::Collapse, env) == seq![kb(KeyCode::Left, NONE)]
            && spec_context(ActionId::Collapse) == When::ScrollbackFocused && spec_category(ActionId::Collapse) == Category::ConversationAction
            && spec_hint_priority(ActionId::Collapse) is None,
        spec_default_key(ActionId::Expand, env) == ch('l') && spec_alt_keys(ActionId::Expand, env) == seq![kb(KeyCode::Right, NONE)]
            && spec_context(ActionId::Expand) == When::ScrollbackFocused && spec_category(ActionId::Expand) == Category::ConversationAction
            && spec_hint_priority(ActionId::Expand) is None,
        spec_default_key(ActionId::ToggleFold, env) == ch('e') && spec_alt_keys(ActionId::ToggleFold, env).len() == 0
            && spec_context(ActionId::ToggleFold) == When::ScrollbackFocused && spec_category(ActionId::ToggleFold) == Category::ConversationAction
            && spec_hint_priority(ActionId::ToggleFold) == Some(3u8),
        spec_default_key(ActionId::ToggleExpandAll, env) == ch('E') && spec_alt_keys(ActionId::ToggleExpandAll, env).len() == 0
            && spec_context(ActionId::ToggleExpandAll) == When::ScrollbackFocused && spec_category(ActionId::ToggleExpandAll) == Category::ConversationAction
            && spec_hint_priority(ActionId::ToggleExpandAll) is None,
        spec_default_key(ActionId::ExpandAllThinking, env) == ctrl('e') && spec_alt_keys(ActionId::ExpandAllThinking, env).len() == 0
            && spec_context(ActionId::ExpandAllThinking) == When::ScrollbackFocused && spec_category(ActionId::ExpandAllThinking) == Category::ConversationAction
            && spec_hint_priority(ActionId::ExpandAllThinking) == Some(3u8),
        spec_default_key(ActionId::ToggleRaw, env) == ch('r') && spec_alt_keys(ActionId::ToggleRaw, env).len() == 0
            && spec_context(ActionId::ToggleRaw) == When::ScrollbackFocused && spec_category(ActionId::ToggleRaw) == Category::ConversationAction
            && spec_hint_priority(ActionId::ToggleRaw) is None,
        spec_default_key(ActionId::CopyBlockContent, env) == ch('y') && spec_alt_keys(ActionId::CopyBlockContent, env).len() == 0
            && spec_context(ActionId::CopyBlockContent) == When::ScrollbackFocused && spec_category(ActionId::CopyBlockContent) == Category::ConversationAction
            && spec_hint_priority(ActionId::CopyBlockContent) is None,
        spec_default_key(ActionId::CopyBlockMeta, env) == ch('Y') && spec_alt_keys(ActionId::CopyBlockMeta, env).len() == 0
            && spec_context(ActionId::CopyBlockMeta) == When::ScrollbackFocused && spec_category(ActionId::CopyBlockMeta) == Category::ConversationAction
            && spec_hint_priority(ActionId::CopyBlockMeta) is None,
        spec_default_key(ActionId::OpenBlockViewer, env) == kb(KeyCode::Enter, NONE) && spec_alt_keys(ActionId::OpenBlockViewer, env) == seq![ctrl('f')]
            && spec_context(ActionId::OpenBlockViewer) == When::ScrollbackFocused && spec_category(ActionId::OpenBlockViewer) == Category::ConversationAction
            && spec_hint_priority(ActionId::OpenBlockViewer) is None,
        spec_default_key(ActionId::OpenNextLink, env) == ch('o') && spec_alt_keys(ActionId::OpenNextLink, env).len() == 0
            && spec_context(ActionId::OpenNextLink) == When::ScrollbackFocused && spec_category(ActionId::OpenNextLink) == Category::ConversationNav
            && spec_hint_priority(ActionId::OpenNextLink) is None,
        spec_default_key(ActionId::OpenPrevLink, env) == ch('O') && spec_alt_keys(ActionId::OpenPrevLink, env).len() == 0
            && spec_context(ActionId::OpenPrevLink) == When::ScrollbackFocused && spec_category(ActionId::OpenPrevLink) == Category::ConversationNav
            && spec_hint_priority(ActionId::OpenPrevLink) is None,
        spec_default_key(ActionId::Rewind, env) == kb(KeyCode::Null, NONE) && spec_alt_keys(ActionId::Rewind, env).len() == 0
            && spec_context(ActionId::Rewind) == When::ScrollbackFocused && spec_category(ActionId::Rewind) == Category::ConversationAction
            && spec_hint_priority(ActionId::Rewind) is None,
        spec_default_key(ActionId::KillBgTask, env) == ch('x') && spec_alt_keys(ActionId::KillBgTask, env).len() == 0
            && spec_context(ActionId::KillBgTask) == When::ScrollbackFocused && spec_category(ActionId::KillBgTask) == Category::ConversationAction
            && spec_hint_priority(ActionId::KillBgTask) is None,
        spec_default_key(ActionId::SendPrompt, env) == kb(KeyCode::Enter, NONE) && spec_alt_keys(ActionId::SendPrompt, env).len() == 0
            && spec_context(ActionId::SendPrompt) == When::PromptFocused && spec_category(ActionId::SendPrompt) == Category::GettingStarted
            && spec_hint_priority(ActionId::SendPrompt) is None,
        spec_default_key(ActionId::FocusPrompt, env) == kb(KeyCode::Tab, NONE) && spec_alt_keys(ActionId::FocusPrompt, env) == seq![ch('i'), ch(' ')]
            && spec_context(ActionId::FocusPrompt) == When::ScrollbackFocused && spec_category(ActionId::FocusPrompt) == Category::GettingStarted
            && spec_hint_priority(ActionId::FocusPrompt) is None,
        spec_default_key(ActionId::FocusScrollback, env) == kb(KeyCode::Tab, NONE) && spec_alt_keys(ActionId::FocusScrollback, env).len() == 0
            && spec_context(ActionId::FocusScrollback) == When::PromptFocused && spec_category(ActionId::FocusScrollback) == Category::GettingStarted
            && spec_hint_priority(ActionId::FocusScrollback) is None,
        spec_default_key(ActionId::CancelTurn, env) == ctrl('c') && spec_alt_keys(ActionId::CancelTurn, env).len() == 0
            && spec_context(ActionId::CancelTurn) == When::AgentScreen && spec_category(ActionId::CancelTurn) == Category::GettingStarted
            && spec_hint_priority(ActionId::CancelTurn) is None,
        spec_default_key(ActionId::CycleMode, env) == kb(KeyCode::BackTab, NONE) && spec_alt_keys(ActionId::CycleMode, env) == seq![kb(KeyCode::BackTab, SHIFT), kb(KeyCode::Tab, SHIFT)]
            && spec_context(ActionId::CycleMode) == When::PromptFocused && spec_category(ActionId::CycleMode) == Category::GettingStarted
            && spec_hint_priority(ActionId::CycleMode) is None,
        spec_default_key(ActionId::ToggleTodos, env) == ctrl('t') && spec_alt_keys(ActionId::ToggleTodos, env).len() == 0
            && spec_context(ActionId::ToggleTodos) == When::AgentScreen && spec_category(ActionId::ToggleTodos) == Category::Panels
            && spec_hint_priority(ActionId::ToggleTodos) is None,
        spec_default_key(ActionId::ToggleTasks, env) == ctrl('b') && spec_alt_keys(ActionId::ToggleTasks, env).len() == 0
            && spec_context(ActionId::ToggleTasks) == When::AgentScreen && spec_category(ActionId::ToggleTasks) == Category::Panels
            && spec_hint_priority(ActionId::ToggleTasks) is None,
        spec_default_key(ActionId::ToggleQueue, env) == ctrl(';') && spec_alt_keys(ActionId::ToggleQueue, env) == seq![ctrl('\'')]
            && spec_context(ActionId::ToggleQueue) == When::AgentScreen && spec_category(ActionId::ToggleQueue) == Category::Panels
            && spec_hint_priority(ActionId::ToggleQueue) is None,
        spec_default_key(ActionId::OpenSessions, env) == ctrl('s') && spec_alt_keys(ActionId::OpenSessions, env).len() == 0
            && spec_context(ActionId::OpenSessions) == When::AgentScreen && spec_category(ActionId::OpenSessions) == Category::Panels
            && spec_hint_priority(ActionId::OpenSessions) is None,
        spec_default_key(ActionId::OpenExtensions, env) == ctrl('l') && spec_alt_keys(ActionId::OpenExtensions, env).len() == 0
            && spec_context(ActionId::OpenExtensions) == When::AgentScreen && spec_category(ActionId::OpenExtensions) == Category::Panels
            && spec_hint_priority(ActionId::OpenExtensions) is None,
        spec_default_key(ActionId::SendToBackground, env) == ctrl('g') && spec_alt_keys(ActionId::SendToBackground, env).len() == 0
            && spec_context(ActionId::SendToBackground) == When::AgentScreen && spec_category(ActionId::SendToBackground) == Category::Panels
            && spec_hint_priority(ActionId::SendToBackground) is None,
        spec_default_key(ActionId::InterjectPrompt, env) == kb(KeyCode::Enter, CONTROL) && spec_alt_keys(ActionId::InterjectPrompt, env) == seq![ctrl('i')]
            && spec_context(ActionId::InterjectPrompt) == When::PromptFocused && spec_category(ActionId::InterjectPrompt) == Category::Input
            && spec_hint_priority(ActionId::InterjectPrompt) is None,
        spec_default_key(ActionId::EnableVoiceMode, env) == kb(KeyCode::Null, NONE) && spec_alt_keys(ActionId::EnableVoiceMode, env).len() == 0
            && spec_context(ActionId::EnableVoiceMode) == When::AgentScreen && spec_category(ActionId::EnableVoiceMode) == Category::Input
            && spec_hint_priority(ActionId::EnableVoiceMode) is None,
        spec_default_key(ActionId::VoiceToggle, env) == ctrl(' ') && spec_alt_keys(ActionId::VoiceToggle, env) == seq![kb(KeyCode::F(8), NONE)]
            && spec_context(ActionId::VoiceToggle) == When::Always && spec_category(ActionId::VoiceToggle) == Category::Input
            && spec_hint_priority(ActionId::VoiceToggle) == Some(11u8),
        spec_default_key(ActionId::ToggleMultiline, env) == ctrl('m') && spec_alt_keys(ActionId::ToggleMultiline, env).len() == 0
            && spec_context(ActionId::ToggleMultiline) == When::PromptFocused && spec_category(ActionId::ToggleMultiline) == Category::Input
            && spec_hint_priority(ActionId::ToggleMultiline) is None,
        spec_default_key(ActionId::BashMode, env) == ch('!') && spec_alt_keys(ActionId::BashMode, env).len() == 0
            && spec_context(ActionId::BashMode) == When::PromptFocused && spec_category(ActionId::BashMode) == Category::Input
            && spec_hint_priority(ActionId::BashMode) is None,
        spec_default_key(ActionId::ToggleYolo, env) == ctrl('o') && spec_alt_keys(ActionId::ToggleYolo, env).len() == 0
            && spec_context(ActionId::ToggleYolo) == When::AgentScreen && spec_category(ActionId::ToggleYolo) == Category::Session
            && spec_hint_priority(ActionId::ToggleYolo) is None,
        spec_default_key(ActionId::NewSession, env) == ctrl('n') && spec_alt_keys(ActionId::NewSession, env).len() == 0
            && spec_context(ActionId::NewSession) == When::Always && spec_category(ActionId::NewSession) == Category::Session
            && spec_hint_priority(ActionId::NewSession) is None,
        spec_default_key(ActionId::Quit, env) == ctrl('q') && spec_alt_keys(ActionId::Quit, env) == seq![ctrl('d')]
            && spec_context(ActionId::Quit) == When::Always && spec_category(ActionId::Quit) == Category::GettingStarted
            && spec_hint_priority(ActionId::Quit) == Some(10u8),
        spec_default_key(ActionId::CommandPalette, env) == ctrl('p') && spec_alt_keys(ActionId::CommandPalette, env) == seq![ch('?')]
            && spec_context(ActionId::CommandPalette) == When::AgentScreen && spec_category(ActionId::CommandPalette) == Category::GettingStarted
            && spec_hint_priority(ActionId::CommandPalette) == Some(5u8),
        spec_default_key(ActionId::ShortcutsHelp, env) == ctrl('.') && spec_alt_keys(ActionId::ShortcutsHelp, env) == seq![ctrl('x')]
            && spec_context(ActionId::ShortcutsHelp) == When::AgentScreen && spec_category(ActionId::ShortcutsHelp) == Category::GettingStarted
            && spec_hint_priority(ActionId::ShortcutsHelp) is None,
        spec_default_key(ActionId::ModelPicker, env) == ctrl('m') && spec_alt_keys(ActionId::ModelPicker, env).len() == 0
            && spec_context(ActionId::ModelPicker) == When::AgentScreen && spec_category(ActionId::ModelPicker) == Category::Session
            && spec_hint_priority(ActionId::ModelPicker) is None,
        spec_default_key(ActionId::OpenSettings, env) == kb(KeyCode::F(2), NONE) && spec_alt_keys(ActionId::OpenSettings, env) == seq![ctrl(','), kb(KeyCode::Char(','), SUPER)]
            && spec_context(ActionId::OpenSettings) == When::AgentScreen && spec_category(ActionId::OpenSettings) == Category::GettingStarted
            && spec_hint_priority(ActionId::OpenSettings) is None,
        spec_default_key(ActionId::ToggleMouseCapture, env) == ctrl('r') && spec_alt_keys(ActionId::ToggleMouseCapture, env).len() == 0
            && spec_context(ActionId::ToggleMouseCapture) == When::ScrollbackFocused && spec_category(ActionId::ToggleMouseCapture) == Category::Panels
            && spec_hint_priority(ActionId::ToggleMouseCapture) is None,
        spec_default_key(ActionId::OpenDashboard, env) == ctrl('\\') && spec_alt_keys(ActionId::OpenDashboard, env).len() == 0
            && spec_context(ActionId::OpenDashboard) == When::Always && spec_category(ActionId::OpenDashboard) == Category::Dashboard
            && spec_hint_priority(ActionId::OpenDashboard) is None,
        spec_default_key(ActionId::DashboardSelectNext, env) == kb(KeyCode::Down, NONE) && spec_alt_keys(ActionId::DashboardSelectNext, env) == seq![ch('j')]
            && spec_context(ActionId::DashboardSelectNext) == When::DashboardFocused && spec_category(ActionId::DashboardSelectNext) == Category::Dashboard
            && spec_hint_priority(ActionId::DashboardSelectNext) is None,
        spec_default_key(ActionId::DashboardSelectPrev, env) == kb(KeyCode::Up, NONE) && spec_alt_keys(ActionId::DashboardSelectPrev, env) == seq![ch('k')]
            && spec_context(ActionId::DashboardSelectPrev) == When::DashboardFocused && spec_category(ActionId::DashboardSelectPrev) == Category::Dashboard
            && spec_hint_priority(ActionId::DashboardSelectPrev) is None,
        spec_default_key(ActionId::DashboardTogglePin, env) == ctrl('t') && spec_alt_keys(ActionId::DashboardTogglePin, env).len() == 0
            && spec_context(ActionId::DashboardTogglePin) == When::DashboardFocused && spec_category(ActionId::DashboardTogglePin) == Category::Dashboard
            && spec_hint_priority(ActionId::DashboardTogglePin) is None,
        spec_default_key(ActionId::DashboardBeginRename, env) == ctrl('r') && spec_alt_keys(ActionId::DashboardBeginRename, env).len() == 0
            && spec_context(ActionId::DashboardBeginRename) == When::DashboardFocused && spec_category(ActionId::DashboardBeginRename) == Category::Dashboard
            && spec_hint_priority(ActionId::DashboardBeginRename) is None,
        spec_default_key(ActionId::DashboardStop, env) == ctrl('x') && spec_alt_keys(ActionId::DashboardStop, env).len() == 0
            && spec_context(ActionId::DashboardStop) == When::DashboardFocused && spec_category(ActionId::DashboardStop) == Category::Dashboard
            && spec_hint_priority(ActionId::DashboardStop) is None,
        spec_default_key(ActionId::DashboardCycleMode, env) == kb(KeyCode::BackTab, NONE) && spec_alt_keys(ActionId::DashboardCycleMode, env) == seq![kb(KeyCode::BackTab, SHIFT), kb(KeyCode::Tab, SHIFT)]
            && spec_context(ActionId::DashboardCycleMode) == When::DashboardFocused && spec_category(ActionId::DashboardCycleMode) == Category::Dashboard
            && spec_hint_priority(ActionId::DashboardCycleMode) is None,
        spec_default_key(ActionId::DashboardToggleGrouping, env) == ctrl('g') && spec_alt_keys(ActionId::DashboardToggleGrouping, env).len() == 0
            && spec_context(ActionId::DashboardToggleGrouping) == When::DashboardFocused && spec_category(ActionId::DashboardToggleGrouping) == Category::Dashboard
            && spec_hint_priority(ActionId::DashboardToggleGrouping) is None,
        spec_default_key(ActionId::DashboardReorderUp, env) == kb(KeyCode::Up, SHIFT) && spec_alt_keys(ActionId::DashboardReorderUp, env).len() == 0
            && spec_context(ActionId::DashboardReorderUp) == When::DashboardFocused && spec_category(ActionId::DashboardReorderUp) == Category::Dashboard
            && spec_hint_priority(ActionId::DashboardReorderUp) is None,
        spec_default_key(ActionId::DashboardReorderDown, env) == kb(KeyCode::Down, SHIFT) && spec_alt_keys(ActionId::DashboardReorderDown, env).len() == 0
            && spec_context(ActionId::DashboardReorderDown) == When::DashboardFocused && spec_category(ActionId::DashboardReorderDown) == Category::Dashboard
            && spec_hint_priority(ActionId::DashboardReorderDown) is None,
        spec_default_key(ActionId::DashboardShortcutsHelp, env) == ctrl('.') && spec_alt_keys(ActionId::DashboardShortcutsHelp, env) == seq![ch('?')]
            && spec_context(ActionId::DashboardShortcutsHelp) == When::DashboardFocused && spec_category(ActionId::DashboardShortcutsHelp) == Category::Dashboard
            && spec_hint_priority(ActionId::DashboardShortcutsHelp) is None,
        spec_default_key(ActionId::DashboardExit, env) == kb(KeyCode::Esc, NONE) && spec_alt_keys(ActionId::DashboardExit, env).len() == 0
            && spec_context(ActionId::DashboardExit) == When::DashboardFocused && spec_category(ActionId::DashboardExit) == Category::Dashboard
            && spec_hint_priority(ActionId::DashboardExit) is None,
        spec_default_key(ActionId::DashboardToggleAutoApprove, env) == ctrl('o') && spec_alt_keys(ActionId::DashboardToggleAutoApprove, env).len() == 0
            && spec_context(ActionId::DashboardToggleAutoApprove) == When::DashboardFocused && spec_category(ActionId::DashboardToggleAutoApprove) == Category::Dashboard
            && spec_hint_priority(ActionId::DashboardToggleAutoApprove) is None,
        spec_default_key(ActionId::DashboardOpenLocationPicker, env) == ctrl('l') && spec_alt_keys(ActionId::DashboardOpenLocationPicker, env).len() == 0
            && spec_context(ActionId::DashboardOpenLocationPicker) == When::DashboardFocused && spec_category(ActionId::DashboardOpenLocationPicker) == Category::Dashboard
            && spec_hint_priority(ActionId::DashboardOpenLocationPicker) is None,
        spec_default_key(ActionId::DashboardToggleWorktree, env) == ctrl('w') && spec_alt_keys(ActionId::DashboardToggleWorktree, env).len() == 0
            && spec_context(ActionId::DashboardToggleWorktree) == When::DashboardFocused && spec_category(ActionId::DashboardToggleWorktree) == Category::Dashboard
            && spec_hint_priority(ActionId::DashboardToggleWorktree) is None,
        spec_default_key(ActionId::DashboardOverlayExit, env) == ctrl('\\') && spec_alt_keys(ActionId::DashboardOverlayExit, env).len() == 0
            && spec_context(ActionId::DashboardOverlayExit) == When::DashboardOverlay && spec_category(ActionId::DashboardOverlayExit) == Category::Dashboard
            && spec_hint_priority(ActionId::DashboardOverlayExit) is None,
        spec_default_key(ActionId::DashboardOverlayPrev, env) == ctrl('[') && spec_alt_keys(ActionId::DashboardOverlayPrev, env).len() == 0
            && spec_context(ActionId::DashboardOverlayPrev) == When::DashboardOverlay && spec_category(ActionId::DashboardOverlayPrev) == Category::Dashboard
            && spec_hint_priority(ActionId::DashboardOverlayPrev) is None,
        spec_default_key(ActionId::DashboardOverlayNext, env) == ctrl(']') && spec_alt_keys(ActionId::DashboardOverlayNext, env).len() == 0
            && spec_context(ActionId::DashboardOverlayNext) == When::DashboardOverlay && spec_category(ActionId::DashboardOverlayNext) == Category::Dashboard
            && spec_hint_priority(ActionId::DashboardOverlayNext) is None,
        spec_default_key(ActionId::DashboardOverlayStop, env) == ctrl('x') && spec_alt_keys(ActionId::DashboardOverlayStop, env).len() == 0
            && spec_context(ActionId::DashboardOverlayStop) == When::DashboardOverlay && spec_category(ActionId::DashboardOverlayStop) == Category::Dashboard
            && spec_hint_priority(ActionId::DashboardOverlayStop) is None,
{
    assert(spec_shift_tab_keys().drop_first() =~= seq![kb(KeyCode::BackTab, SHIFT), kb(KeyCode::Tab, SHIFT)]);
}

/// Only the half-page, queue, extensions, send-now, quit and cheatsheet
/// entries depend on the terminal; every other entry is the same in every
/// environment.
pub proof fn lemma_entries_independent_of_terminal(id: ActionId, env1: TerminalEnv, env2: TerminalEnv)
    requires
        id != ActionId::HalfPageDown && id != ActionId::ToggleQueue && id != ActionId::OpenExtensions && id != ActionId::InterjectPrompt && id != ActionId::Quit && id != ActionId::ShortcutsHelp && id != ActionId::DashboardShortcutsHelp,
    ensures
        spec_action(id, env1) == spec_action(id, env2),
{
}

/// The terminal-specific keys: VS Code-family terminals get `D` for half a
/// page down, Ctrl+D to quit with no alternate, no extensions chord, and
/// Ctrl+L (alone) to send now unless the terminal is Terminal.app, where
/// send-now is Ctrl+O with Ctrl+Enter and Ctrl+I as alternates; a local
/// macOS VS Code-family terminal opens the queue with Ctrl+4, keeping
/// Ctrl+; and Ctrl+' as alternates.
pub proof fn lemma_terminal_specific_bindings(env: TerminalEnv)
    ensures
        env.vscode_family ==> spec_default_key(ActionId::HalfPageDown, env) == ch('D'),
        !env.vscode_family ==> spec_default_key(ActionId::HalfPageDown, env) == ctrl('d'),
        env.vscode_family ==> spec_default_key(ActionId::Quit, env) == ctrl('d') && spec_alt_keys(
            ActionId::Quit,
            env,
        ).len() == 0,
        !env.vscode_family ==> spec_default_key(ActionId::Quit, env) == ctrl('q') && spec_alt_keys(
            ActionId::Quit,
            env,
        ) == seq![ctrl('d')],
        env.vscode_family ==> spec_default_key(ActionId::OpenExtensions, env).code == KeyCode::Null,
        env.apple_terminal ==> spec_default_key(ActionId::InterjectPrompt, env) == ctrl('o')
            && spec_alt_keys(ActionId::InterjectPrompt, env) == seq![
            kb(KeyCode::Enter, CONTROL),
            ctrl('i'),
        ],
        !env.apple_terminal && env.vscode_family ==> spec_default_key(ActionId::InterjectPrompt, env)
            == ctrl('l') && spec_alt_keys(ActionId::InterjectPrompt, env).len() == 0,
        env.vscode_family && !env.ssh && env.macos ==> spec_default_key(ActionId::ToggleQueue, env)
            == ctrl('4') && spec_alt_keys(ActionId::ToggleQueue, env) == seq![ctrl(';'), ctrl('\'')],
        !(env.vscode_family && !env.ssh && env.macos) ==> spec_default_key(ActionId::ToggleQueue, env)
            == ctrl(';') && spec_alt_keys(ActionId::ToggleQueue, env) == seq![ctrl('\'')],
        env.terminal_ctrl_dot_unreliable ==> spec_default_key(ActionId::ShortcutsHelp, env) == ctrl(
            'x',
        ) && spec_default_key(ActionId::DashboardShortcutsHelp, env) == ch('?'),
{
}

/// The label, description, help text and hint text of every action.
pub proof fn lemma_action_texts()
    ensures
        spec_label(ActionId::SelectNext) == "导航"@ && spec_description(ActionId::SelectNext) == "选择下一项"@ && spec_long_help(ActionId::SelectNext) == Some("在回滚区选中下一项（消息、工具输出等）。\nj / ↓ 向下移动；k / ↑ 向上。\n配合折叠、复制、查看器等操作使用。"@) && spec_hint_key_display(ActionId::SelectNext) == Some("j/k"@),
        spec_label(ActionId::SelectPrev) == "导航"@ && spec_description(ActionId::SelectPrev) == "选择上一项"@ && spec_long_help(ActionId::SelectPrev) == Some("在回滚区选中上一项。\nk / ↑ 向上；j / ↓ 向下。\n用于在长对话中定位要折叠、复制或查看的块。"@) && spec_hint_key_display(ActionId::SelectPrev) is None,
        spec_label(ActionId::NextTurn) == "回合"@ && spec_description(ActionId::NextTurn) == "下一回合"@ && spec_long_help(ActionId::NextTurn) == Some("跳到下一个用户/代理回合边界。\n适合快速翻阅多轮对话，而不逐条扫消息。\nShift+H / Shift+← 为上一回合。"@) && spec_hint_key_display(ActionId::NextTurn) is None,
        spec_label(ActionId::PrevTurn) == "回合"@ && spec_description(ActionId::PrevTurn) == "上一回合"@ && spec_long_help(ActionId::PrevTurn) == Some("跳到上一个用户/代理回合边界。\n与 Shift+L 配对，便于在多轮之间来回对照。"@) && spec_hint_key_display(ActionId::PrevTurn) is None,
        spec_label(ActionId::NextResponse) == "回复"@ && spec_description(ActionId::NextResponse) == "下一条回复"@ && spec_long_help(ActionId::NextResponse) == Some("跳到下一条代理回复（跳过中间的工具块等）。\n想只看回答时比逐行 j 更快。"@) && spec_hint_key_display(ActionId::NextResponse) is None,
        spec_label(ActionId::PrevResponse) == "回复"@ && spec_description(ActionId::PrevResponse) == "上一条回复"@ && spec_long_help(ActionId::PrevResponse) == Some("跳到上一条代理回复。\n与 J 配对，便于对比相邻回答。"@) && spec_hint_key_display(ActionId::PrevResponse) is None,
        spec_label(ActionId::GotoTop) == "顶/底"@ && spec_description(ActionId::GotoTop) == "跳到顶部"@ && spec_long_help(ActionId::GotoTop) == Some("跳到回滚区顶部（对话最开始）。\nG 跳到底部（最新内容）。"@) && spec_hint_key_display(ActionId::GotoTop) is None,
        spec_label(ActionId::GotoBottom) == "底部"@ && spec_description(ActionId::GotoBottom) == "跳到底部"@ && spec_long_help(ActionId::GotoBottom) == Some("跳到回滚区底部（最新消息）。\ng 跳到顶部。"@) && spec_hint_key_display(ActionId::GotoBottom) is None,
        spec_label(ActionId::ScrollUp) == "上滚"@ && spec_description(ActionId::ScrollUp) == "向上滚动一行"@ && spec_long_help(ActionId::ScrollUp) == Some("回滚区向上滚动一行（视口移动，不一定改选中项）。\nCtrl+j 向下；半页/整页另有快捷键。"@) && spec_hint_key_display(ActionId::ScrollUp) is None,
        spec_label(ActionId::ScrollDown) == "下滚"@ && spec_description(ActionId::ScrollDown) == "向下滚动一行"@ && spec_long_help(ActionId::ScrollDown) == Some("回滚区向下滚动一行。\nCtrl+k 向上；Ctrl+u / Ctrl+d 为半页。"@) && spec_hint_key_display(ActionId::ScrollDown) is None,
        spec_label(ActionId::HalfPageUp) == "上半页"@ && spec_description(ActionId::HalfPageUp) == "向上半页"@ && spec_long_help(ActionId::HalfPageUp) == Some("回滚区向上滚动约半屏。\n比逐行滚动更适合长输出；Ctrl+d（或 VS Code 下 D）向下半页。"@) && spec_hint_key_display(ActionId::HalfPageUp) is None,
        spec_label(ActionId::HalfPageDown) == "下半页"@ && spec_description(ActionId::HalfPageDown) == "向下半页"@ && spec_long_help(ActionId::HalfPageDown) == Some("回滚区向下滚动约半屏。\nVS Code 系终端用 D（避免与 Ctrl+D 退出冲突）；其他终端为 Ctrl+d。"@) && spec_hint_key_display(ActionId::HalfPageDown) is None,
        spec_label(ActionId::PageUp) == "上页"@ && spec_description(ActionId::PageUp) == "向上一页"@ && spec_long_help(ActionId::PageUp) == Some("回滚区向上翻一整页（PageUp）。\nPageDown 向下。"@) && spec_hint_key_display(ActionId::PageUp) is None,
        spec_label(ActionId::PageDown) == "下页"@ && spec_description(ActionId::PageDown) == "向下一页"@ && spec_long_help(ActionId::PageDown) == Some("回滚区向下翻一整页（PageDown）。\nPageUp 向上。"@) && spec_hint_key_display(ActionId::PageDown) is None,
        spec_label(ActionId::Collapse) == "折叠"@ && spec_description(ActionId::Collapse) == "折叠选中项"@ && spec_long_help(ActionId::Collapse) == Some("折叠当前选中条目，只保留标题/摘要行。\nh 或 ← 折叠；l 或 → 展开。\ne 可一键切换展开/折叠。"@) && spec_hint_key_display(ActionId::Collapse) is None,
        spec_label(ActionId::Expand) == "折叠"@ && spec_description(ActionId::Expand) == "展开选中项"@ && spec_long_help(ActionId::Expand) == Some("展开当前选中条目的完整正文。\nl 或 → 展开；h 或 ← 折叠。"@) && spec_hint_key_display(ActionId::Expand) is None,
        spec_label(ActionId::ToggleFold) == "折叠"@ && spec_description(ActionId::ToggleFold) == "展开/折叠"@ && spec_long_help(ActionId::ToggleFold) == Some("折叠或展开当前选中的回滚条目，隐藏或显示完整正文。\n适合浏览长工具输出或推理内容。\n相关：E 折叠/展开全部条目，Ctrl+E 切换全部思考块。"@) && spec_hint_key_display(ActionId::ToggleFold) is None,
        spec_label(ActionId::ToggleExpandAll) == "全部"@ && spec_description(ActionId::ToggleExpandAll) == "全部展开/折叠"@ && spec_long_help(ActionId::ToggleExpandAll) == Some("一次折叠或展开回滚区全部条目；e 只切换当前行。\n可先收起长对话扫标题，再全部展开。\n思考块另有 Ctrl+E 专用切换。"@) && spec_hint_key_display(ActionId::ToggleExpandAll) is None,
        spec_label(ActionId::ExpandAllThinking) == "展开/折叠思考"@ && spec_description(ActionId::ExpandAllThinking) == "切换全部思考块"@ && spec_long_help(ActionId::ExpandAllThinking) == Some("一键显示或隐藏整段对话中的代理思考（推理）块。\n需要看推理过程时展开，只需结果时收起。\n与 E 不同：E 会折叠任意类型的条目。"@) && spec_hint_key_display(ActionId::ExpandAllThinking) is None,
        spec_label(ActionId::ToggleRaw) == "原始"@ && spec_description(ActionId::ToggleRaw) == "切换原始 Markdown"@ && spec_long_help(ActionId::ToggleRaw) == Some("在渲染后的 Markdown 与原始源文本之间切换当前条目。\n便于复制精确 Markdown、查看链接目标或渲染器隐藏的格式。\n再按一次回到渲染视图。"@) && spec_hint_key_display(ActionId::ToggleRaw) is None,
        spec_label(ActionId::CopyBlockContent) == "复制"@ && spec_description(ActionId::CopyBlockContent) == "复制内容"@ && spec_long_help(ActionId::CopyBlockContent) == Some("将选中块的正文复制到剪贴板：消息文本、完整工具输出或代码块内容。\n仅在支持复制的块上提供。\n只要命令行或文件路径时用 Y。"@) && spec_hint_key_display(ActionId::CopyBlockContent) is None,
        spec_label(ActionId::CopyBlockMeta) == "复制命令"@ && spec_description(ActionId::CopyBlockMeta) == "复制命令/路径"@ && spec_long_help(ActionId::CopyBlockMeta) == Some("只复制块的标识：工具调用的命令行或文件块的路径，不含正文。\n便于重跑命令或把路径粘贴到别处。\n完整内容请用小写 y。"@) && spec_hint_key_display(ActionId::CopyBlockMeta) is None,
        spec_label(ActionId::OpenBlockViewer) == "查看"@ && spec_description(ActionId::OpenBlockViewer) == "在查看器中打开"@ && spec_long_help(ActionId::OpenBlockViewer) == Some("在可滚动的全屏查看器中打开选中块。\n适合长工具输出、大文件或需要离开周围对话单独阅读的代码。\nEsc 返回对话。"@) && spec_hint_key_display(ActionId::OpenBlockViewer) is None,
        spec_label(ActionId::OpenNextLink) == "链接"@ && spec_description(ActionId::OpenNextLink) == "下一个链接"@ && spec_long_help(ActionId::OpenNextLink) == Some("跳到并打开/高亮回滚中的下一个链接。\nO 为上一个。"@) && spec_hint_key_display(ActionId::OpenNextLink) is None,
        spec_label(ActionId::OpenPrevLink) == "链接"@ && spec_description(ActionId::OpenPrevLink) == "上一个链接"@ && spec_long_help(ActionId::OpenPrevLink) == Some("跳到并打开/高亮回滚中的上一个链接。\no 为下一个。"@) && spec_hint_key_display(ActionId::OpenPrevLink) is None,
        spec_label(ActionId::Rewind) == "回退"@ && spec_description(ActionId::Rewind) == "回退到选中回合"@ && spec_long_help(ActionId::Rewind) == Some("将对话回退到更早的回合，恢复当时的文件快照并丢弃之后的变更。\n从列表选回合并选择恢复范围（全部、仅对话或仅文件）；若有进行中的回合会先提示取消，冲突或错误在结束后报告。\n破坏性操作：之后的回合会被丢弃。\n空闲且提示为空时也可 Esc Esc（800ms 内），等同 `/rewind`。"@) && spec_hint_key_display(ActionId::Rewind) is None,
        spec_label(ActionId::KillBgTask) == "终止"@ && spec_description(ActionId::KillBgTask) == "终止后台任务"@ && spec_long_help(ActionId::KillBgTask) == Some("终止选中任务块对应的后台进程（例如已转到后台的长 shell 命令）。\n用于停掉失控或不再需要的进程。\n仅对仍在运行的任务有效；已结束的不受影响。"@) && spec_hint_key_display(ActionId::KillBgTask) is None,
        spec_label(ActionId::SendPrompt) == "发送"@ && spec_description(ActionId::SendPrompt) == "发送"@ && spec_long_help(ActionId::SendPrompt) == Some("将当前提示发送给代理。\n空闲时 Enter 立即发送；回合进行中 Enter 会把内容排入队列，等当前回合结束后再发。\n要在运行中立刻打断并发送，用「立即发送」快捷键。"@) && spec_hint_key_display(ActionId::SendPrompt) is None,
        spec_label(ActionId::FocusPrompt) == "输入"@ && spec_description(ActionId::FocusPrompt) == "聚焦输入框"@ && spec_long_help(ActionId::FocusPrompt) == Some("从回滚区回到提示输入框，继续打字。\nTab / i / 空格均可；在输入框内 Tab 则切到回滚区。"@) && spec_hint_key_display(ActionId::FocusPrompt) is None,
        spec_label(ActionId::FocusScrollback) == "回滚"@ && spec_description(ActionId::FocusScrollback) == "聚焦回滚区"@ && spec_long_help(ActionId::FocusScrollback) == Some("焦点从提示框移到回滚区，以便浏览对话记录。\n普通与 vim 回滚模式下 Tab 均可。\nEsc 留给清空草稿 / 回退策略，不用于切换焦点。"@) && spec_hint_key_display(ActionId::FocusScrollback) is None,
        spec_label(ActionId::CancelTurn) == "取消"@ && spec_description(ActionId::CancelTurn) == "取消回合"@ && spec_long_help(ActionId::CancelTurn) == Some("中断当前代理回合并停止生成，会话保持打开。\n空提示时 Ctrl+C 取消回合；有草稿时先清空草稿。\n只停回合不停应用；退出请用退出快捷键。"@) && spec_hint_key_display(ActionId::CancelTurn) is None,
        spec_label(ActionId::CycleMode) == "模式"@ && spec_description(ActionId::CycleMode) == "切换模式（普通/计划/始终批准）"@ && spec_long_help(ActionId::CycleMode) == Some("循环切换会话模式：普通 → 计划 → 始终批准 → 普通。\n计划模式先规划且不写文件；始终批准不经确认直接跑工具。\nCtrl+O 可直接开关自动批准。"@) && spec_hint_key_display(ActionId::CycleMode) == Some("Shift+Tab"@),
        spec_label(ActionId::ToggleTodos) == "待办"@ && spec_description(ActionId::ToggleTodos) == "切换待办面板"@ && spec_long_help(ActionId::ToggleTodos) == Some("显示或隐藏待办面板：代理当前工作的实时任务清单。\n可边跑边看计划与剩余项。\n侧栏面板，关掉可腾出宽度。"@) && spec_hint_key_display(ActionId::ToggleTodos) is None,
        spec_label(ActionId::ToggleTasks) == "任务"@ && spec_description(ActionId::ToggleTasks) == "切换任务面板"@ && spec_long_help(ActionId::ToggleTasks) == Some("显示或隐藏任务面板，列出后台任务及其状态。\n用于监视或回到用 Ctrl+G 转后台的工作。\n侧栏面板，关掉可腾出宽度。"@) && spec_hint_key_display(ActionId::ToggleTasks) is None,
        spec_label(ActionId::ToggleQueue) == "队列"@ && spec_description(ActionId::ToggleQueue) == "切换提示队列"@ && spec_long_help(ActionId::ToggleQueue) == Some("显示或隐藏提示队列。\n回合进行中可把后续提示排入队列，代理结束后自动依次发送。\n本机 macOS VS Code 系：主键 Ctrl+4（备用 Ctrl+; / Ctrl+'）；其他环境主键 Ctrl+;，备用 Ctrl+'。"@) && spec_hint_key_display(ActionId::ToggleQueue) is None,
        spec_label(ActionId::OpenSessions) == "会话"@ && spec_description(ActionId::OpenSessions) == "打开会话列表"@ && spec_long_help(ActionId::OpenSessions) == Some("打开会话浏览器，恢复或切换过去的对话。\n选中一项即可接回完整历史。\n与代理仪表盘（Ctrl+\\）不同：仪表盘同时管理多个在线代理。"@) && spec_hint_key_display(ActionId::OpenSessions) is None,
        spec_label(ActionId::OpenExtensions) == "扩展"@ && spec_description(ActionId::OpenExtensions) == "打开扩展"@ && spec_long_help(ActionId::OpenExtensions) == Some("打开扩展管理：MCP 服务器与插件，查看已连接项及其提供的工具。\n用于确认集成是否加载或浏览可用工具。\n与设置不同：设置放的是通用应用选项。"@) && spec_hint_key_display(ActionId::OpenExtensions) is None,
        spec_label(ActionId::SendToBackground) == "转后台"@ && spec_description(ActionId::SendToBackground) == "将运行中任务转到后台"@ && spec_long_help(ActionId::SendToBackground) == Some("将正在进行的回合拆到后台继续跑，同时你可阅读、排队提示或开别的事。\n在任务面板（Ctrl+B）跟踪与接回。\n仅在确实有回合在跑时有意义。"@) && spec_hint_key_display(ActionId::SendToBackground) is None,
        spec_label(ActionId::InterjectPrompt) == "立即发送"@ && spec_description(ActionId::InterjectPrompt) == "运行中立即发送（会取消当前回合）"@ && spec_long_help(ActionId::InterjectPrompt) == Some("在回合进行中把消息交给代理且不取消当前回合（插话），便于边跑边纠偏或补充上下文。\n进行中普通 Enter 会排队稍后发送；本快捷键把编辑器内容并入当前回合。\n编辑器为空时，裸 Enter（或本键）会从提示框强制发送队列顶部的后续项——无需聚焦队列面板。在队列面板上，本键强制发送选中行。\n用于不丢进度地改方向。"@) && spec_hint_key_display(ActionId::InterjectPrompt) is None,
        spec_label(ActionId::EnableVoiceMode) == "语音"@ && spec_description(ActionId::EnableVoiceMode) == "开始语音听写（Ctrl+Space / F8）"@ && spec_long_help(ActionId::EnableVoiceMode) == Some("开始语音听写模式。\n实际开/关麦克风用 Ctrl+Space 或 F8（见「麦克风」项）。"@) && spec_hint_key_display(ActionId::EnableVoiceMode) is None,
        spec_label(ActionId::VoiceToggle) == "麦克风"@ && spec_description(ActionId::VoiceToggle) == "语音听写（Ctrl+Space / F8）"@ && spec_long_help(ActionId::VoiceToggle) == Some("麦克风听写，绑定 Ctrl+Space（或 F8——Ctrl+Space 被占用时，如 macOS 输入法切换；笔记本可用 Fn+F8）。\n行为跟随「语音捕获」设置：切换（再按停止）或按住说话（松开关闭；按住需 Kitty 协议终端，否则回退为切换）。`/voice` 处处可切换。\n语音会直接转录进提示框。"@) && spec_hint_key_display(ActionId::VoiceToggle) == Some("Ctrl+Space / F8"@),
        spec_label(ActionId::ToggleMultiline) == "多行"@ && spec_description(ActionId::ToggleMultiline) == "切换多行"@ && spec_long_help(ActionId::ToggleMultiline) == Some("切换持久多行提示，编辑器保持展开以便写更长消息。\n用 Shift+Enter 或 Alt+Enter（或行尾反斜杠）换行；裸 Enter 仍为发送。\n在提示框内 Ctrl+M 切多行；焦点不在提示框时 Ctrl+M 打开模型选择器。"@) && spec_hint_key_display(ActionId::ToggleMultiline) is None,
        spec_label(ActionId::BashMode) == "Shell"@ && spec_description(ActionId::BashMode) == "Shell 模式（空输入时输入 !）"@ && spec_long_help(ActionId::BashMode) == Some("不离开聊天即可跑 shell：在空提示开头输入 !，再接命令。\n命令输出会写入回滚区。\n删掉开头的 ! 即回到普通提示。"@) && spec_hint_key_display(ActionId::BashMode) == Some("!"@),
        spec_label(ActionId::ToggleYolo) == "始终批准"@ && spec_description(ActionId::ToggleYolo) == "切换始终批准"@ && spec_long_help(ActionId::ToggleYolo) == Some("为本会话打开或关闭自动批准（YOLO）。\n开启后代理的每次工具调用（编辑、shell、删除）都不再逐项确认。\n与 Shift+Tab 循环中的「始终批准」同一状态；请谨慎使用。"@) && spec_hint_key_display(ActionId::ToggleYolo) is None,
        spec_label(ActionId::NewSession) == "新建"@ && spec_description(ActionId::NewSession) == "新会话"@ && spec_long_help(ActionId::NewSession) == Some("开启空白回滚与上下文的新会话。\n需确认：连按两次（第一次预武装，第二次真正新建），\n避免误触丢掉当前对话。"@) && spec_hint_key_display(ActionId::NewSession) is None,
        spec_label(ActionId::Quit) == "退出"@ && spec_description(ActionId::Quit) == "退出"@ && spec_long_help(ActionId::Quit) == Some("退出应用。需确认：短时间内连按两次；单次按键视为误触并忽略。\n绑定 Ctrl+Q，Ctrl+D 为别名（VS Code 终端下 Ctrl+D 为主键）。"@) && spec_hint_key_display(ActionId::Quit) is None,
        spec_label(ActionId::CommandPalette) == "命令"@ && spec_description(ActionId::CommandPalette) == "命令面板"@ && spec_long_help(ActionId::CommandPalette) == Some("模糊搜索全部动作与斜杠命令，按名称执行。\n记不住快捷键时很有用。\n回滚区聚焦时也可按 ? 打开。"@) && spec_hint_key_display(ActionId::CommandPalette) == Some("?"@),
        spec_label(ActionId::ShortcutsHelp) == "快捷键"@ && spec_description(ActionId::ShortcutsHelp) == "键盘快捷键"@ && spec_long_help(ActionId::ShortcutsHelp) == Some("打开本键盘速查表。\nj/k 浏览，e 展开行内说明，Enter 打开某快捷键的完整详情页。\n同时绑定 Ctrl+. 与 Ctrl+X；底栏会显示当前终端更可靠的那一个。"@) && spec_hint_key_display(ActionId::ShortcutsHelp) is None,
        spec_label(ActionId::ModelPicker) == "模型"@ && spec_description(ActionId::ModelPicker) == "选择模型"@ && spec_long_help(ActionId::ModelPicker) == Some("打开模型选择器，切换本会话模型；选择对后续回合生效。\n绑定 Ctrl+M，但焦点在提示框时该键改为切换多行。\n可从回滚区或命令面板进入。"@) && spec_hint_key_display(ActionId::ModelPicker) is None,
        spec_label(ActionId::OpenSettings) == "设置"@ && spec_description(ActionId::OpenSettings) == "打开设置"@ && spec_long_help(ActionId::OpenSettings) == Some("打开应用设置（主题、语音、权限等常规选项）。\nF2 或 Ctrl+,（macOS 也可用 Cmd+,）。"@) && spec_hint_key_display(ActionId::OpenSettings) is None,
        spec_label(ActionId::ToggleMouseCapture) == "鼠标上报"@ && spec_description(ActionId::ToggleMouseCapture) == "切换鼠标上报（原生复制粘贴）"@ && spec_long_help(ActionId::ToggleMouseCapture) == Some("开关终端鼠标上报（鼠标捕获）。\n关闭后把选区交给终端原生拖选复制；再开则恢复应用内鼠标。\n仅回滚区 Ctrl+R；需在 config.toml 启用 mouse_reporting_toggle。"@) && spec_hint_key_display(ActionId::ToggleMouseCapture) == Some("Ctrl+r"@),
        spec_label(ActionId::OpenDashboard) == "仪表盘"@ && spec_description(ActionId::OpenDashboard) == "打开代理仪表盘"@ && spec_long_help(ActionId::OpenDashboard) == Some("打开代理仪表盘：列出全部运行中与最近代理，便于监视与切换。\n欢迎页、会话内等任意位置可用。\n可在此派发、附着、停止、分组与重排代理。"@) && spec_hint_key_display(ActionId::OpenDashboard) == Some("Ctrl+\\"@),
        spec_label(ActionId::DashboardSelectNext) == "下一行"@ && spec_description(ActionId::DashboardSelectNext) == "选择下一行"@ && spec_long_help(ActionId::DashboardSelectNext) == Some("仪表盘列表选中下一行代理。\n↓ / j 向下；↑ / k 向上。"@) && spec_hint_key_display(ActionId::DashboardSelectNext) == Some("\u{2191}\u{2193}"@),
        spec_label(ActionId::DashboardSelectPrev) == "上一行"@ && spec_description(ActionId::DashboardSelectPrev) == "选择上一行"@ && spec_long_help(ActionId::DashboardSelectPrev) == Some("仪表盘列表选中上一行代理。\n↑ / k 向上；↓ / j 向下。"@) && spec_hint_key_display(ActionId::DashboardSelectPrev) is None,
        spec_label(ActionId::DashboardTogglePin) == "固定"@ && spec_description(ActionId::DashboardTogglePin) == "固定/取消固定代理"@ && spec_long_help(ActionId::DashboardTogglePin) == Some("固定或取消固定选中代理，使其不受排序/分组影响而留在列表顶部。\n关心的代理可一直可见。\n固定状态跨仪表盘会话保留。"@) && spec_hint_key_display(ActionId::DashboardTogglePin) is None,
        spec_label(ActionId::DashboardBeginRename) == "重命名"@ && spec_description(ActionId::DashboardBeginRename) == "重命名代理"@ && spec_long_help(ActionId::DashboardBeginRename) == Some("为选中代理重命名显示名称。\n便于在多代理列表中辨认。"@) && spec_hint_key_display(ActionId::DashboardBeginRename) is None,
        spec_label(ActionId::DashboardStop) == "停止"@ && spec_description(ActionId::DashboardStop) == "停止/关闭代理"@ && spec_long_help(ActionId::DashboardStop) == Some("停止选中代理并从仪表盘移除该行；若有进行中的回合会先中断。\n无需附着即可清理已结束或不需要的代理。\n浮层内的等价操作（Ctrl+X）停止前需确认。"@) && spec_hint_key_display(ActionId::DashboardStop) is None,
        spec_label(ActionId::DashboardCycleMode) == "模式"@ && spec_description(ActionId::DashboardCycleMode) == "切换派发模式"@ && spec_long_help(ActionId::DashboardCycleMode) == Some("循环切换从仪表盘派发新代理时的模式：普通 → 计划 → 始终批准。\n计划让新代理先规划再改文件；始终批准不提示直接跑工具。\n与会话内 Shift+Tab 循环一致，作用于新派发。"@) && spec_hint_key_display(ActionId::DashboardCycleMode) == Some("Shift+Tab"@),
        spec_label(ActionId::DashboardToggleGrouping) == "分组"@ && spec_description(ActionId::DashboardToggleGrouping) == "切换行分组"@ && spec_long_help(ActionId::DashboardToggleGrouping) == Some("在扁平列表与按状态分组（如工作中 / 空闲）之间切换仪表盘。\n分组突出需要关注的代理；扁平列表顺序更稳。\n选择会跨会话保留。"@) && spec_hint_key_display(ActionId::DashboardToggleGrouping) is None,
        spec_label(ActionId::DashboardReorderUp) == "上移"@ && spec_description(ActionId::DashboardReorderUp) == "代理上移"@ && spec_long_help(ActionId::DashboardReorderUp) == Some("将选中代理在列表中上移一行。\nShift+↓ 下移。"@) && spec_hint_key_display(ActionId::DashboardReorderUp) == Some("Shift+\u{2191}"@),
        spec_label(ActionId::DashboardReorderDown) == "下移"@ && spec_description(ActionId::DashboardReorderDown) == "代理下移"@ && spec_long_help(ActionId::DashboardReorderDown) == Some("将选中代理在列表中下移一行。\nShift+↑ 上移。"@) && spec_hint_key_display(ActionId::DashboardReorderDown) is None,
        spec_label(ActionId::DashboardShortcutsHelp) == "快捷键"@ && spec_description(ActionId::DashboardShortcutsHelp) == "显示快捷键浮层"@ && spec_long_help(ActionId::DashboardShortcutsHelp) == Some("显示仪表盘快捷键说明浮层。\n绑定 Ctrl+. 与 ?（主键视终端可靠性而定）。\n注意：仪表盘上 Ctrl+X 是停止，不是速查表。"@) && spec_hint_key_display(ActionId::DashboardShortcutsHelp) is None,
        spec_label(ActionId::DashboardExit) == "退出"@ && spec_description(ActionId::DashboardExit) == "关闭仪表盘"@ && spec_long_help(ActionId::DashboardExit) == Some("关闭仪表盘并回到先前位置。\nEsc 为级联：先关掉 peek 或清空过滤器，无挂起项时才真正退出。\n若把本动作重绑到其他键，则可直接退出。"@) && spec_hint_key_display(ActionId::DashboardExit) == Some("Esc"@),
        spec_label(ActionId::DashboardToggleAutoApprove) == "始终批准"@ && spec_description(ActionId::DashboardToggleAutoApprove) == "切换始终批准"@ && spec_long_help(ActionId::DashboardToggleAutoApprove) == Some("不附着会话即可在仪表盘为选中代理开关自动批准（YOLO）。\n开启后该代理每次工具调用都不再确认。\n会话内等价操作为 Ctrl+O。"@) && spec_hint_key_display(ActionId::DashboardToggleAutoApprove) == Some("Ctrl+O"@),
        spec_label(ActionId::DashboardOpenLocationPicker) == "位置"@ && spec_description(ActionId::DashboardOpenLocationPicker) == "更改新代理工作目录"@ && spec_long_help(ActionId::DashboardOpenLocationPicker) == Some("打开选择器，设置仪表盘新派发代理的工作目录。\n无需离开仪表盘即可对另一仓库或目录启动代理。\n只影响新派发，不影响已在运行的代理。"@) && spec_hint_key_display(ActionId::DashboardOpenLocationPicker) == Some("Ctrl+l"@),
        spec_label(ActionId::DashboardToggleWorktree) == "工作树"@ && spec_description(ActionId::DashboardToggleWorktree) == "切换新代理的 worktree 模式"@ && spec_long_help(ActionId::DashboardToggleWorktree) == Some("使下一次从仪表盘派发的代理在全新 git worktree 中启动，隔离到独立检出。\n仅当工作目录是 git 仓库时生效。\n只影响新派发，不影响已在运行的代理。"@) && spec_hint_key_display(ActionId::DashboardToggleWorktree) == Some("Ctrl+w"@),
        spec_label(ActionId::DashboardOverlayExit) == "关闭浮层"@ && spec_description(ActionId::DashboardOverlayExit) == "返回仪表盘"@ && spec_long_help(ActionId::DashboardOverlayExit) == Some("离开已附着的会话浮层回到仪表盘列表，不停止代理。\n也可在回滚区按 q、中性状态下 Esc，或点关闭按钮。\n若要停止代理而不只是分离，用 Ctrl+X。"@) && spec_hint_key_display(ActionId::DashboardOverlayExit) == Some("Ctrl+\\"@),
        spec_label(ActionId::DashboardOverlayPrev) == "上一会话"@ && spec_description(ActionId::DashboardOverlayPrev) == "上一会话"@ && spec_long_help(ActionId::DashboardOverlayPrev) == Some("在仪表盘会话浮层中切换到上一会话。\nCtrl+] 为下一会话。"@) && spec_hint_key_display(ActionId::DashboardOverlayPrev) == Some("Ctrl+["@),
        spec_label(ActionId::DashboardOverlayNext) == "下一会话"@ && spec_description(ActionId::DashboardOverlayNext) == "下一会话"@ && spec_long_help(ActionId::DashboardOverlayNext) == Some("在仪表盘会话浮层中切换到下一会话。\nCtrl+[ 为上一会话。"@) && spec_hint_key_display(ActionId::DashboardOverlayNext) == Some("Ctrl+]"@),
        spec_label(ActionId::DashboardOverlayStop) == "停止"@ && spec_description(ActionId::DashboardOverlayStop) == "停止代理并关闭会话（返回仪表盘）"@ && spec_long_help(ActionId::DashboardOverlayStop) == Some("在会话浮层内停止已附着的代理并关闭，回到仪表盘列表。\n需确认：连按两次 Ctrl+X。\n此处 Ctrl+. 仍打开速查表；仅 Ctrl+X 被停止占用。"@) && spec_hint_key_display(ActionId::DashboardOverlayStop) == Some("Ctrl+x"@),
{
}

} // verus!
