//! What the key map reads of the terminal and the host it runs on.

use vstd::prelude::*;

verus! {

/// Facts about the terminal and host, as detected at start-up.
#[derive(Clone, Copy, Debug, PartialEq, Eq, Structural)]
pub struct TerminalEnv {
    /// The terminal is VS Code or another xterm.js embed of its family.
    pub vscode_family: bool,
    /// The terminal is macOS Terminal.app.
    pub apple_terminal: bool,
    /// The session runs over SSH.
    pub ssh: bool,
    /// The binary was built for macOS.
    pub macos: bool,
    /// The binary was built for Windows.
    pub windows: bool,
    /// The console identifies as a known terminal brand (not an unknown,
    /// plain host console).
    pub branded_console: bool,
    /// A Linux binary running inside WSL.
    pub wsl: bool,
    /// The terminal context itself reports that Ctrl+. may not arrive
    /// (no Kitty keyboard protocol, tmux without extended keys, screen,
    /// unknown host).
    pub terminal_ctrl_dot_unreliable: bool,
}

/// Ctrl+. is unreliable when the terminal context says so, for a native
/// Windows build on a console that is not a known terminal brand, or for a
/// Linux binary inside WSL.
pub open spec fn spec_ctrl_dot_unreliable(env: TerminalEnv) -> bool {
    env.terminal_ctrl_dot_unreliable || (env.windows && !env.branded_console) || env.wsl
}

/// True when `Ctrl+.` is not a reliable shortcuts-cheatsheet primary:
/// the terminal context reports it (any Kitty keyboard protocol skip), or
/// the host is native Windows on a non-branded console, or WSL.
///
/// Callers then advertise an alternate primary; both keys stay registered
/// either way, this only chooses which the UI advertises.
pub fn ctrl_dot_unreliable(env: &TerminalEnv) -> (r: bool)
    ensures
        r == spec_ctrl_dot_unreliable(*env),
{
    env.terminal_ctrl_dot_unreliable || (env.windows && !env.branded_console) || env.wsl
}

/// Each signal alone makes Ctrl+. unreliable, whatever the other facts
/// (SSH, brand, platform); without any of them it is reliable.
pub proof fn lemma_ctrl_dot_signals(env: TerminalEnv)
    ensures
        env.terminal_ctrl_dot_unreliable ==> spec_ctrl_dot_unreliable(env),
        env.windows && !env.branded_console ==> spec_ctrl_dot_unreliable(env),
        env.wsl ==> spec_ctrl_dot_unreliable(env),
        !env.terminal_ctrl_dot_unreliable && (!env.windows || env.branded_console) && !env.wsl
            ==> !spec_ctrl_dot_unreliable(env),
{
}

} // verus!
