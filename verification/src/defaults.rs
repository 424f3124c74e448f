//! The default key map: the ordered list of actions registered at start-up.

use vstd::prelude::*;

use crate::actions::{action_def, spec_action, ActionDef, ActionId, ActionSpec};
use crate::terminal::TerminalEnv;

verus! {

/// The actions registered in every configuration, in cheatsheet order.
pub open spec fn spec_core_ids() -> Seq<ActionId> {
    seq![
        ActionId::SelectNext,
        ActionId::SelectPrev,
        ActionId::NextTurn,
        ActionId::PrevTurn,
        ActionId::NextResponse,
        ActionId::PrevResponse,
        ActionId::GotoTop,
        ActionId::GotoBottom,
        ActionId::ScrollUp,
        ActionId::ScrollDown,
        ActionId::HalfPageUp,
        ActionId::HalfPageDown,
        ActionId::PageUp,
        ActionId::PageDown,
        ActionId::Collapse,
        ActionId::Expand,
        ActionId::ToggleFold,
        ActionId::ToggleExpandAll,
        ActionId::ExpandAllThinking,
        ActionId::ToggleRaw,
        ActionId::CopyBlockContent,
        ActionId::CopyBlockMeta,
        ActionId::OpenBlockViewer,
        ActionId::OpenNextLink,
        ActionId::OpenPrevLink,
        ActionId::Rewind,
        ActionId::KillBgTask,
        ActionId::SendPrompt,
        ActionId::FocusPrompt,
        ActionId::FocusScrollback,
        ActionId::CancelTurn,
        ActionId::CycleMode,
        ActionId::ToggleTodos,
        ActionId::ToggleTasks,
        ActionId::ToggleQueue,
        ActionId::OpenSessions,
        ActionId::OpenExtensions,
        ActionId::SendToBackground,
        ActionId::InterjectPrompt,
        ActionId::EnableVoiceMode,
        ActionId::VoiceToggle,
        ActionId::ToggleMultiline,
        ActionId::BashMode,
        ActionId::ToggleYolo,
        ActionId::NewSession,
        ActionId::Quit,
        ActionId::CommandPalette,
        ActionId::ShortcutsHelp,
        ActionId::ModelPicker,
        ActionId::OpenSettings,
    ]
}

/// The agent-dashboard actions, registered after all others.
pub open spec fn spec_dashboard_ids() -> Seq<ActionId> {
    seq![
        ActionId::OpenDashboard,
        ActionId::DashboardSelectNext,
        ActionId::DashboardSelectPrev,
        ActionId::DashboardTogglePin,
        ActionId::DashboardBeginRename,
        ActionId::DashboardStop,
        ActionId::DashboardCycleMode,
        ActionId::DashboardToggleGrouping,
        ActionId::DashboardReorderUp,
        ActionId::DashboardReorderDown,
        ActionId::DashboardShortcutsHelp,
        ActionId::DashboardExit,
        ActionId::DashboardToggleAutoApprove,
        ActionId::DashboardOpenLocationPicker,
        ActionId::DashboardToggleWorktree,
        ActionId::DashboardOverlayExit,
        ActionId::DashboardOverlayPrev,
        ActionId::DashboardOverlayNext,
        ActionId::DashboardOverlayStop,
    ]
}

/// The ids of the default actions, in order. The opt-in mouse-capture
/// toggle stands between the core actions and the dashboard actions.
pub open spec fn spec_action_ids(mouse_reporting_toggle_enabled: bool) -> Seq<ActionId> {
    spec_core_ids() + (if mouse_reporting_toggle_enabled {
        seq![ActionId::ToggleMouseCapture]
    } else {
        Seq::empty()
    }) + spec_dashboard_ids()
}

/// The default action table for the given opt-in flag and environment.
pub open spec fn spec_default_actions(
    mouse_reporting_toggle_enabled: bool,
    env: TerminalEnv,
) -> Seq<ActionSpec> {
    spec_action_ids(mouse_reporting_toggle_enabled).map_values(|id: ActionId| spec_action(id, env))
}

fn core_ids() -> (r: Vec<ActionId>)
    ensures
        r@ == spec_core_ids(),
{
    vec![
        ActionId::SelectNext,
        ActionId::SelectPrev,
        ActionId::NextTurn,
        ActionId::PrevTurn,
        ActionId::NextResponse,
        ActionId::PrevResponse,
        ActionId::GotoTop,
        ActionId::GotoBottom,
        ActionId::ScrollUp,
        ActionId::ScrollDown,
        ActionId::HalfPageUp,
        ActionId::HalfPageDown,
        ActionId::PageUp,
        ActionId::PageDown,
        ActionId::Collapse,
        ActionId::Expand,
        ActionId::ToggleFold,
        ActionId::ToggleExpandAll,
        ActionId::ExpandAllThinking,
        ActionId::ToggleRaw,
        ActionId::CopyBlockContent,
        ActionId::CopyBlockMeta,
        ActionId::OpenBlockViewer,
        ActionId::OpenNextLink,
        ActionId::OpenPrevLink,
        ActionId::Rewind,
        ActionId::KillBgTask,
        ActionId::SendPrompt,
        ActionId::FocusPrompt,
        ActionId::FocusScrollback,
        ActionId::CancelTurn,
        ActionId::CycleMode,
        ActionId::ToggleTodos,
        ActionId::ToggleTasks,
        ActionId::ToggleQueue,
        ActionId::OpenSessions,
        ActionId::OpenExtensions,
        ActionId::SendToBackground,
        ActionId::InterjectPrompt,
        ActionId::EnableVoiceMode,
        ActionId::VoiceToggle,
        ActionId::ToggleMultiline,
        ActionId::BashMode,
        ActionId::ToggleYolo,
        ActionId::NewSession,
        ActionId::Quit,
        ActionId::CommandPalette,
        ActionId::ShortcutsHelp,
        ActionId::ModelPicker,
        ActionId::OpenSettings,
    ]
}

fn dashboard_ids() -> (r: Vec<ActionId>)
    ensures
        r@ == spec_dashboard_ids(),
{
    vec![
        ActionId::OpenDashboard,
        ActionId::DashboardSelectNext,
        ActionId::DashboardSelectPrev,
        ActionId::DashboardTogglePin,
        ActionId::DashboardBeginRename,
        ActionId::DashboardStop,
        ActionId::DashboardCycleMode,
        ActionId::DashboardToggleGrouping,
        ActionId::DashboardReorderUp,
        ActionId::DashboardReorderDown,
        ActionId::DashboardShortcutsHelp,
        ActionId::DashboardExit,
        ActionId::DashboardToggleAutoApprove,
        ActionId::DashboardOpenLocationPicker,
        ActionId::DashboardToggleWorktree,
        ActionId::DashboardOverlayExit,
        ActionId::DashboardOverlayPrev,
        ActionId::DashboardOverlayNext,
        ActionId::DashboardOverlayStop,
    ]
}

/// Appends the entries of `ids`, in order, to `actions`.
fn push_actions(actions: &mut Vec<ActionDef>, ids: &Vec<ActionId>, env: &TerminalEnv)
    ensures
        final(actions)@.len() == old(actions)@.len() + ids@.len(),
        forall|i: int| 0 <= i < old(actions)@.len() ==> final(actions)@[i] == old(actions)@[i],
        forall|i: int|
            0 <= i < ids@.len() ==> (#[trigger] final(actions)@[old(actions)@.len() + i])@
                == spec_action(ids@[i], *env),
{
    let n = ids.len();
    for k in 0..n
        invariant
            n == ids@.len(),
            actions@.len() == old(actions)@.len() + k,
            forall|i: int| 0 <= i < old(actions)@.len() ==> actions@[i] == old(actions)@[i],
            forall|i: int|
                0 <= i < k ==> (#[trigger] actions@[old(actions)@.len() + i])@ == spec_action(
                    ids@[i],
                    *env,
                ),
    {
        actions.push(action_def(ids[k], env));
    }
}

/// Builds the default action definitions.
///
/// `mouse_reporting_toggle_enabled` gates the opt-in `ToggleMouseCapture`
/// shortcut; pass `false` for the standard set.
pub fn default_actions(mouse_reporting_toggle_enabled: bool, env: &TerminalEnv) -> (r: Vec<
    ActionDef,
>)
    ensures
        r@.len() == spec_action_ids(mouse_reporting_toggle_enabled).len(),
        forall|i: int|
            0 <= i < r@.len() ==> (#[trigger] r@[i])@ == spec_default_actions(
                mouse_reporting_toggle_enabled,
                *env,
            )[i],
{
    let mut actions: Vec<ActionDef> = Vec::new();
    push_actions(&mut actions, &core_ids(), env);
    let ghost after_core = actions@;
    if mouse_reporting_toggle_enabled {
        actions.push(action_def(ActionId::ToggleMouseCapture, env));
    }
    let ghost before_dashboard = actions@;
    push_actions(&mut actions, &dashboard_ids(), env);
    let ghost ids = spec_action_ids(mouse_reporting_toggle_enabled);
    let ghost c = spec_core_ids().len() as int;
    let ghost m: int = if mouse_reporting_toggle_enabled { 1 } else { 0 };
    assert forall|i: int| 0 <= i < actions@.len() implies (#[trigger] actions@[i])@
        == spec_action(ids[i], *env) by {
        if i < c {
            assert(after_core[0 + i] == after_core[i]);
            assert(before_dashboard[i] == after_core[i]);
            assert(ids[i] == spec_core_ids()[i]);
        } else if i < c + m {
            assert(ids[i] == ActionId::ToggleMouseCapture);
        } else {
            assert(actions@[c + m + (i - c - m)] == actions@[i]);
            assert(ids[i] == spec_dashboard_ids()[i - c - m]);
        }
    }
    actions
}

} // verus!
