//! Slash commands: what a command may ask of the app, and the commands
//! `/mcps` and `/rename`.

use vstd::prelude::*;

use crate::text::{
    all_white_space, is_white_space, lemma_trim_bounds, lemma_trim_idempotent, lemma_trim_ignores_surrounding_white_space, spec_trim,
    trim,
};

verus! {

/// The tabs of the extensions modal.
#[derive(Clone, Copy, Debug, PartialEq, Eq, Structural)]
pub enum ExtensionsTab {
    McpServers,
}

/// How the extensions modal was opened, as reported to telemetry.
#[derive(Clone, Copy, Debug, PartialEq, Eq, Structural)]
pub enum ExtensionsModalTrigger {
    SlashCommand,
}

/// An action that a slash command asks the app to perform.
#[derive(Clone, Debug)]
pub enum Action {
    OpenExtensionsModal { tab: ExtensionsTab, trigger: ExtensionsModalTrigger },
    RenameSession { title: String },
}

/// What running a slash command produced.
#[derive(Clone, Debug)]
pub enum CommandResult {
    /// Perform this action.
    Action(Action),
    /// Show this error to the user.
    Error(String),
    /// Show this message to the user.
    Message(String),
}

/// The mathematical value of an [`Action`].
pub enum ActionView {
    OpenExtensionsModal { tab: ExtensionsTab, trigger: ExtensionsModalTrigger },
    RenameSession { title: Seq<char> },
}

/// The mathematical value of a [`CommandResult`].
pub enum CommandResultView {
    Action(ActionView),
    Error(Seq<char>),
    Message(Seq<char>),
}

impl View for Action {
    type V = ActionView;

    open spec fn view(&self) -> ActionView {
        match self {
            Action::OpenExtensionsModal { tab, trigger } => ActionView::OpenExtensionsModal {
                tab: *tab,
                trigger: *trigger,
            },
            Action::RenameSession { title } => ActionView::RenameSession { title: title@ },
        }
    }
}

impl View for CommandResult {
    type V = CommandResultView;

    open spec fn view(&self) -> CommandResultView {
        match self {
            CommandResult::Action(a) => CommandResultView::Action(a@),
            CommandResult::Error(m) => CommandResultView::Error(m@),
            CommandResult::Message(m) => CommandResultView::Message(m@),
        }
    }
}

/// What a slash command may read of the running app.
#[derive(Clone, Debug)]
pub struct CommandExecCtx {
    /// The current session, if one is active.
    pub session_id: Option<String>,
    /// Whether the pager runs in its full-screen mode.
    pub fullscreen: bool,
}

/// `/mcps`: shows the status of the MCP servers.
pub struct McpsCommand;

impl McpsCommand {
    pub fn name(&self) -> (r: &'static str)
        ensures
            r@ == "mcps"@,
    {
        "mcps"
    }

    pub fn description(&self) -> (r: &'static str)
        ensures
            r@ == "显示 MCP 服务器状态"@,
    {
        "显示 MCP 服务器状态"
    }

    pub fn usage(&self) -> (r: &'static str)
        ensures
            r@ == "/mcps"@,
    {
        "/mcps"
    }

    /// Opens the extensions modal on its MCP-servers tab; the arguments are
    /// ignored and the context is left as it was.
    pub fn run(&self, ctx: &mut CommandExecCtx, args: &str) -> (r: CommandResult)
        ensures
            *final(ctx) == *old(ctx),
            r@ == CommandResultView::Action(
                ActionView::OpenExtensionsModal {
                    tab: ExtensionsTab::McpServers,
                    trigger: ExtensionsModalTrigger::SlashCommand,
                },
            ),
    {
        CommandResult::Action(
            Action::OpenExtensionsModal {
                tab: ExtensionsTab::McpServers,
                trigger: ExtensionsModalTrigger::SlashCommand,
            },
        )
    }
}

/// What `/rename` produces for a context with or without an active
/// session and the argument text `args`.
pub open spec fn spec_rename_result(has_session: bool, args: Seq<char>) -> CommandResultView {
    if !has_session {
        CommandResultView::Error("No active session"@)
    } else if spec_trim(args).len() == 0 {
        CommandResultView::Error("Usage: /rename <new title>"@)
    } else {
        CommandResultView::Action(ActionView::RenameSession { title: spec_trim(args) })
    }
}

/// White space around the arguments of `/rename` does not change its
/// result, and renaming to a title that `/rename` produced gives the same
/// title again.
pub proof fn lemma_rename_ignores_surrounding_white_space(
    has_session: bool,
    p: Seq<char>,
    args: Seq<char>,
    q: Seq<char>,
)
    requires
        all_white_space(p),
        all_white_space(q),
    ensures
        spec_rename_result(has_session, p + args + q) == spec_rename_result(has_session, args),
        spec_rename_result(has_session, args) matches CommandResultView::Action(
            ActionView::RenameSession { title },
        ) ==> spec_rename_result(has_session, title) == spec_rename_result(has_session, args),
{
    lemma_trim_ignores_surrounding_white_space(p, args, q);
    lemma_trim_idempotent(args);
}

/// What `/rename` produces: without a session, the "No active session"
/// error; with one, the usage error exactly when the arguments are nothing
/// but white space, and otherwise a rename to the arguments with their
/// surrounding white space removed, whatever their length.
pub proof fn lemma_rename_outcomes(has_session: bool, args: Seq<char>)
    ensures
        !has_session ==> spec_rename_result(has_session, args) == CommandResultView::Error(
            "No active session"@,
        ),
        has_session && spec_trim(args).len() == 0 ==> spec_rename_result(has_session, args)
            == CommandResultView::Error("Usage: /rename <new title>"@),
        has_session && spec_trim(args).len() > 0 ==> spec_rename_result(has_session, args)
            == CommandResultView::Action(ActionView::RenameSession { title: spec_trim(args) }),
        has_session && !all_white_space(args) ==> (spec_rename_result(has_session, args) matches
            CommandResultView::Action(ActionView::RenameSession { title }) && title.len() > 0),
{
    let r = lemma_trim_bounds(args);
    if has_session && !all_white_space(args) && spec_trim(args).len() == 0 {
        assert forall|k: int| 0 <= k < args.len() implies is_white_space(#[trigger] args[k]) by {
            if k < r.0 {
                assert(args.subrange(0, r.0)[k] == args[k]);
            } else {
                assert(args.subrange(r.1, args.len() as int)[k - r.1] == args[k]);
            }
        }
    }
}

/// `/rename` (alias `/title`): renames the current session.
pub struct RenameCommand;

impl RenameCommand {
    pub fn name(&self) -> (r: &'static str)
        ensures
            r@ == "rename"@,
    {
        "rename"
    }

    pub fn aliases(&self) -> (r: &'static [&'static str])
        ensures
            r@.len() == 1,
            r@[0]@ == "title"@,
    {
        &["title"]
    }

    pub fn description(&self) -> (r: &'static str)
        ensures
            r@ == "重命名当前会话"@,
    {
        "重命名当前会话"
    }

    /// The command acts on the current session.
    pub fn session_scoped(&self) -> (r: bool)
        ensures
            r,
    {
        true
    }

    pub fn usage(&self) -> (r: &'static str)
        ensures
            r@ == "/rename <title>"@,
    {
        "/rename <title>"
    }

    pub fn takes_args(&self) -> (r: bool)
        ensures
            r,
    {
        true
    }

    pub fn args_required(&self) -> (r: bool)
        ensures
            r,
    {
        true
    }

    pub fn arg_placeholder(&self) -> (r: Option<&'static str>)
        ensures
            r matches Some(p) && p@ == "<title>"@,
    {
        Some("<title>")
    }

    /// Asks the app to rename the active session to the trimmed arguments;
    /// fails when no session is active or the trimmed title is empty.
    pub fn run(&self, ctx: &mut CommandExecCtx, args: &str) -> (r: CommandResult)
        ensures
            *final(ctx) == *old(ctx),
            r@ == spec_rename_result(old(ctx).session_id is Some, args@),
    {
        if ctx.session_id.is_none() {
            return CommandResult::Error("No active session".to_owned());
        }
        let title = trim(args);
        if title.is_empty() {
            return CommandResult::Error("Usage: /rename <new title>".to_owned());
        }
        CommandResult::Action(Action::RenameSession { title: title.to_owned() })
    }
}

} // verus!
