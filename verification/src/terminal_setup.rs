//! `/terminal-setup`: the report on terminal, colour, keyboard and
//! clipboard set-up, formatted from the diagnostics that were gathered.

use vstd::prelude::*;

use crate::slash::{CommandExecCtx, CommandResult, CommandResultView};
use crate::text::{decimal, to_decimal};

verus! {

/// One problem found in the environment, with an optional fix.
#[derive(Debug)]
pub struct Warning {
    pub message: String,
    /// A command or configuration line that fixes the problem.
    pub fix: Option<String>,
    /// The file the fix is to be written to, when it is a configuration line.
    pub config_path: Option<String>,
    /// Further explanation.
    pub note: Option<String>,
}

/// Everything the report reads of the environment, gathered before it is
/// formatted.
#[derive(Debug)]
pub struct TerminalSetupFacts {
    /// The terminal's name as displayed.
    pub brand: String,
    /// The terminal was identified as a VTE-based terminal.
    pub brand_is_vte: bool,
    /// The terminal is VS Code, Cursor, Windsurf or Zed.
    pub brand_is_xterm_js: bool,
    /// The version the terminal reported for itself, if any.
    pub terminal_version: Option<String>,
    /// The multiplexer as displayed.
    pub multiplexer: String,
    /// The byobu backend, when running under byobu.
    pub byobu: Option<String>,
    /// The session runs over SSH.
    pub ssh: bool,
    /// The colour-support line of the environment section, newline included.
    pub color_env_line: String,
    /// The themes line of the environment section, newline included.
    pub themes_env_line: String,
    /// Modifier delivery benefits from rescue, or Enter needs it.
    pub keyboard_needs_rescue: bool,
    /// The label of the keyboard's modifier delivery.
    pub keyboard_label: String,
    /// The binary was built for macOS, where the system rescue exists.
    pub macos: bool,
    /// The terminal cannot tell Shift+Enter from Enter.
    pub shift_enter_unavailable: bool,
    /// The VTE version, when known.
    pub vte_version: Option<String>,
    /// Which clipboard routes are enabled.
    pub clipboard_native: bool,
    pub clipboard_tmux_buffer: bool,
    pub clipboard_osc52: bool,
    /// The name of the native clipboard tool.
    pub native_tool_name: String,
    /// The label of the Wayland data-control route.
    pub data_control_label: String,
    /// The start-up diagnostics.
    pub startup_warnings: Vec<Warning>,
    /// The live Wayland data-control check.
    pub wayland_warning: Option<Warning>,
    /// WezTerm without the Kitty keyboard protocol.
    pub wezterm_warning: Option<Warning>,
    /// Colour support on this terminal.
    pub color_warning: Option<Warning>,
}

/// `prefix`, the value and a newline, when there is a value.
pub open spec fn opt_line(prefix: Seq<char>, value: Option<String>) -> Seq<char> {
    match value {
        Some(v) => prefix + v@ + "\n"@,
        None => Seq::empty(),
    }
}

pub open spec fn yes_no(b: bool) -> Seq<char> {
    if b {
        "是"@
    } else {
        "否"@
    }
}

pub open spec fn enabled_label(b: bool) -> Seq<char> {
    if b {
        "启用"@
    } else {
        "关闭"@
    }
}

/// Whether the system rescues keyboard input on this platform.
pub open spec fn rescue_label(macos: bool) -> Seq<char> {
    if macos {
        "系统补救已启用"@
    } else {
        "本平台无系统补救"@
    }
}

/// Why Shift+Enter cannot be used, pointing at the terminal's limitation.
pub open spec fn spec_shift_enter_detail(f: TerminalSetupFacts) -> Seq<char> {
    if f.vte_version is Some || f.brand_is_vte {
        match f.vte_version {
            Some(v) => "VTE "@ + v@ + "；Shift+Enter 需要 >= 8200"@,
            None => "旧版 VTE；Shift+Enter 需要 VTE >= 0.82"@,
        }
    } else if f.brand_is_xterm_js {
        f.brand@ + "：xterm.js 无法区分 Shift+Enter"@
    } else {
        "无 Kitty 键盘协议；Shift+Enter 等同 Enter"@
    }
}

/// The environment section. The Alt+Enter hint is left out when the
/// WezTerm warning fired, whose advice it would contradict.
pub open spec fn spec_environment_section(f: TerminalSetupFacts) -> Seq<char> {
    "环境\n"@ + ("  终端         "@ + f.brand@ + "\n"@) + opt_line("  终端版本     "@, f.terminal_version)
        + ("  多路复用     "@ + f.multiplexer@ + "\n"@) + opt_line("  Byobu        "@, f.byobu) + (
    "  ssh          "@ + yes_no(f.ssh) + "\n"@) + f.color_env_line@ + f.themes_env_line@ + (
    if f.keyboard_needs_rescue {
        "  键盘         "@ + f.keyboard_label@ + " ("@ + rescue_label(f.macos) + ")\n"@
    } else {
        Seq::empty()
    }) + (if f.shift_enter_unavailable && f.wezterm_warning is None {
        "  换行         Alt+Enter（"@ + spec_shift_enter_detail(f) + "）\n"@
    } else {
        Seq::empty()
    })
}

/// The clipboard section.
pub open spec fn spec_clipboard_section(f: TerminalSetupFacts) -> Seq<char> {
    "\n剪贴板路径\n"@ + ("  native       "@ + enabled_label(f.clipboard_native) + "  (工具: "@
        + f.native_tool_name@ + ")\n"@) + ("  tmux buffer  "@ + enabled_label(
        f.clipboard_tmux_buffer,
    ) + "\n"@) + ("  osc 52       "@ + enabled_label(f.clipboard_osc52) + "\n"@) + (
    "  data-control "@ + f.data_control_label@ + "\n"@)
}

/// The lines that describe one problem.
pub open spec fn spec_warning_block(w: Warning) -> Seq<char> {
    "\n  [!] "@ + w.message@ + "\n"@ + match (w.fix, w.config_path) {
        (Some(fix), Some(path)) => "      修复：将 `"@ + fix@ + "` 写入 "@ + path@ + "\n"@,
        (Some(fix), None) => "      修复：运行 `"@ + fix@ + "`\n"@,
        _ => Seq::empty(),
    } + match w.note {
        Some(note) => "      说明："@ + note@ + "\n"@,
        None => Seq::empty(),
    }
}

/// The blocks of all problems in `ws`, in order.
pub open spec fn spec_warning_blocks(ws: Seq<Warning>) -> Seq<char>
    decreases ws.len(),
{
    if ws.len() == 0 {
        Seq::empty()
    } else {
        spec_warning_blocks(ws.drop_last()) + spec_warning_block(ws.last())
    }
}

/// The warning, as a sequence of zero or one problems.
pub open spec fn opt_warnings(w: Option<Warning>) -> Seq<Warning> {
    match w {
        Some(w) => seq![w],
        None => Seq::empty(),
    }
}

/// All problems, in report order: start-up, Wayland, WezTerm, colour.
pub open spec fn spec_all_warnings(f: TerminalSetupFacts) -> Seq<Warning> {
    f.startup_warnings@ + opt_warnings(f.wayland_warning) + opt_warnings(f.wezterm_warning)
        + opt_warnings(f.color_warning)
}

/// The diagnostics section: either that nothing was found, or the number
/// of problems followed by each of them.
pub open spec fn spec_diagnostics_section(ws: Seq<Warning>) -> Seq<char> {
    if ws.len() == 0 {
        "\n未发现问题。\n"@
    } else {
        "\n"@ + decimal(ws.len()) + " 个问题\n"@ + spec_warning_blocks(ws)
    }
}

/// The whole report.
pub open spec fn spec_terminal_setup_report(f: TerminalSetupFacts) -> Seq<char> {
    spec_environment_section(f) + spec_clipboard_section(f) + spec_diagnostics_section(
        spec_all_warnings(f),
    )
}

fn shift_enter_detail(f: &TerminalSetupFacts) -> (r: String)
    ensures
        r@ == spec_shift_enter_detail(*f),
{
    if f.vte_version.is_some() || f.brand_is_vte {
        match &f.vte_version {
            Some(v) => {
                let mut s = "VTE ".to_owned();
                s.append(v.as_str());
                s.append("；Shift+Enter 需要 >= 8200");
                s
            },
            None => "旧版 VTE；Shift+Enter 需要 VTE >= 0.82".to_owned(),
        }
    } else if f.brand_is_xterm_js {
        let mut s = f.brand.clone();
        s.append("：xterm.js 无法区分 Shift+Enter");
        s
    } else {
        "无 Kitty 键盘协议；Shift+Enter 等同 Enter".to_owned()
    }
}

fn append_opt_line(out: &mut String, prefix: &str, value: &Option<String>)
    ensures
        final(out)@ == old(out)@ + opt_line(prefix@, *value),
{
    if let Some(v) = value {
        out.append(prefix);
        out.append(v.as_str());
        out.append("\n");
    }
}

fn environment_section(f: &TerminalSetupFacts) -> (r: String)
    ensures
        r@ == spec_environment_section(*f),
{
    let mut out = "环境\n".to_owned();
    out.append("  终端         ");
    out.append(f.brand.as_str());
    out.append("\n");
    append_opt_line(&mut out, "  终端版本     ", &f.terminal_version);
    out.append("  多路复用     ");
    out.append(f.multiplexer.as_str());
    out.append("\n");
    append_opt_line(&mut out, "  Byobu        ", &f.byobu);
    out.append("  ssh          ");
    out.append(if f.ssh { "是" } else { "否" });
    out.append("\n");
    out.append(f.color_env_line.as_str());
    out.append(f.themes_env_line.as_str());
    if f.keyboard_needs_rescue {
        out.append("  键盘         ");
        out.append(f.keyboard_label.as_str());
        out.append(" (");
        out.append(if f.macos { "系统补救已启用" } else { "本平台无系统补救" });
        out.append(")\n");
    }
    if f.shift_enter_unavailable && f.wezterm_warning.is_none() {
        let detail = shift_enter_detail(f);
        out.append("  换行         Alt+Enter（");
        out.append(detail.as_str());
        out.append("）\n");
    }
    out
}

fn clipboard_section(f: &TerminalSetupFacts) -> (r: String)
    ensures
        r@ == spec_clipboard_section(*f),
{
    let mut out = "\n剪贴板路径\n".to_owned();
    out.append("  native       ");
    out.append(if f.clipboard_native { "启用" } else { "关闭" });
    out.append("  (工具: ");
    out.append(f.native_tool_name.as_str());
    out.append(")\n");
    out.append("  tmux buffer  ");
    out.append(if f.clipboard_tmux_buffer { "启用" } else { "关闭" });
    out.append("\n");
    out.append("  osc 52       ");
    out.append(if f.clipboard_osc52 { "启用" } else { "关闭" });
    out.append("\n");
    out.append("  data-control ");
    out.append(f.data_control_label.as_str());
    out.append("\n");
    out
}

fn append_warning_block(out: &mut String, w: &Warning)
    ensures
        final(out)@ == old(out)@ + spec_warning_block(*w),
{
    out.append("\n  [!] ");
    out.append(w.message.as_str());
    out.append("\n");
    match (&w.fix, &w.config_path) {
        (Some(fix), Some(path)) => {
            out.append("      修复：将 `");
            out.append(fix.as_str());
            out.append("` 写入 ");
            out.append(path.as_str());
            out.append("\n");
        },
        (Some(fix), None) => {
            out.append("      修复：运行 `");
            out.append(fix.as_str());
            out.append("`\n");
        },
        _ => {},
    }
    if let Some(note) = &w.note {
        out.append("      说明：");
        out.append(note.as_str());
        out.append("\n");
    }
}

fn diagnostics_section(warnings: &Vec<Warning>) -> (r: String)
    ensures
        r@ == spec_diagnostics_section(warnings@),
{
    if warnings.len() == 0 {
        return "\n未发现问题。\n".to_owned();
    }
    let mut out = "\n".to_owned();
    out.append(to_decimal(warnings.len()).as_str());
    out.append(" 个问题\n");
    let ghost head = out@;
    let n = warnings.len();
    assert(warnings@.take(0) =~= Seq::<Warning>::empty());
    for i in 0..n
        invariant
            n == warnings@.len(),
            out@ == head + spec_warning_blocks(warnings@.take(i as int)),
    {
        append_warning_block(&mut out, &warnings[i]);
        assert(warnings@.take(i + 1).drop_last() =~= warnings@.take(i as int));
    }
    assert(warnings@.take(n as int) =~= warnings@);
    out
}

/// `/terminal-setup` (aliases `/terminal-check`, `/terminal-info`):
/// diagnoses terminal, colour/theme and clipboard set-up.
pub struct TerminalSetupCommand;

impl TerminalSetupCommand {
    pub fn name(&self) -> (r: &'static str)
        ensures
            r@ == "terminal-setup"@,
    {
        "terminal-setup"
    }

    pub fn aliases(&self) -> (r: &'static [&'static str])
        ensures
            r@.len() == 2,
            r@[0]@ == "terminal-check"@,
            r@[1]@ == "terminal-info"@,
    {
        &["terminal-check", "terminal-info"]
    }

    pub fn description(&self) -> (r: &'static str)
        ensures
            r@ == "检查终端、颜色与剪贴板设置"@,
    {
        "检查终端、颜色与剪贴板设置"
    }

    pub fn usage(&self) -> (r: &'static str)
        ensures
            r@ == "/terminal-setup"@,
    {
        "/terminal-setup"
    }

    /// Formats the gathered diagnostics as a message: the environment, the
    /// clipboard routes, and every problem found with its fix. The
    /// arguments are ignored and the context is left as it was.
    pub fn run(&self, ctx: &mut CommandExecCtx, args: &str, facts: TerminalSetupFacts) -> (r:
        CommandResult)
        ensures
            *final(ctx) == *old(ctx),
            r@ == CommandResultView::Message(spec_terminal_setup_report(facts)),
    {
        let mut out = environment_section(&facts);
        out.append(clipboard_section(&facts).as_str());
        let TerminalSetupFacts {
            startup_warnings,
            wayland_warning,
            wezterm_warning,
            color_warning,
            ..
        } = facts;
        let mut warnings = startup_warnings;
        if let Some(w) = wayland_warning {
            warnings.push(w);
        }
        if let Some(w) = wezterm_warning {
            warnings.push(w);
        }
        if let Some(w) = color_warning {
            warnings.push(w);
        }
        assert(warnings@ =~= spec_all_warnings(facts));
        out.append(diagnostics_section(&warnings).as_str());
        CommandResult::Message(out)
    }
}

} // verus!
