use xai_grok_pager::slash::{CommandExecCtx, CommandResult};
use xai_grok_pager::terminal_setup::{TerminalSetupCommand, TerminalSetupFacts, Warning};

fn facts() -> TerminalSetupFacts {
    TerminalSetupFacts {
        brand: "VS Code".to_string(),
        brand_is_vte: false,
        brand_is_xterm_js: true,
        terminal_version: None,
        multiplexer: "none".to_string(),
        byobu: None,
        ssh: false,
        color_env_line: "  颜色         truecolor\n".to_string(),
        themes_env_line: "  主题         全部\n".to_string(),
        keyboard_needs_rescue: false,
        keyboard_label: String::new(),
        macos: true,
        shift_enter_unavailable: false,
        vte_version: None,
        clipboard_native: true,
        clipboard_tmux_buffer: false,
        clipboard_osc52: true,
        native_tool_name: "pbcopy".to_string(),
        data_control_label: "n/a".to_string(),
        startup_warnings: vec![],
        wayland_warning: None,
        wezterm_warning: None,
        color_warning: None,
    }
}

fn run(f: TerminalSetupFacts) -> String {
    let mut ctx = CommandExecCtx { session_id: None, fullscreen: true };
    match TerminalSetupCommand.run(&mut ctx, "", f) {
        CommandResult::Message(m) => m,
        other => panic!("unexpected {:?}", other),
    }
}

#[test]
fn terminal_setup_metadata() {
    let c = TerminalSetupCommand;
    assert_eq!(c.name(), "terminal-setup");
    assert_eq!(c.aliases(), &["terminal-check", "terminal-info"]);
    assert_eq!(c.usage(), "/terminal-setup");
}

#[test]
fn clean_report() {
    let out = run(facts());
    let expected = "环境\n  终端         VS Code\n  多路复用     none\n  ssh          否\n  颜色         truecolor\n  主题         全部\n\n剪贴板路径\n  native       启用  (工具: pbcopy)\n  tmux buffer  关闭\n  osc 52       启用\n  data-control n/a\n\n未发现问题。\n";
    assert_eq!(out, expected);
}

#[test]
fn report_with_problems_and_newline_hint() {
    let mut f = facts();
    f.ssh = true;
    f.terminal_version = Some("1.90".to_string());
    f.byobu = Some("tmux".to_string());
    f.keyboard_needs_rescue = true;
    f.keyboard_label = "legacy".to_string();
    f.shift_enter_unavailable = true;
    f.startup_warnings = vec![Warning {
        message: "tmux extended keys off".to_string(),
        fix: Some("set -s extended-keys on".to_string()),
        config_path: Some("~/.tmux.conf".to_string()),
        note: Some("restart tmux".to_string()),
    }];
    f.color_warning = Some(Warning {
        message: "256 colours only".to_string(),
        fix: Some("export COLORTERM=truecolor".to_string()),
        config_path: None,
        note: None,
    });
    let out = run(f);
    assert!(out.contains("  终端版本     1.90\n"));
    assert!(out.contains("  Byobu        tmux\n"));
    assert!(out.contains("  ssh          是\n"));
    assert!(out.contains("  键盘         legacy (系统补救已启用)\n"));
    assert!(out.contains("  换行         Alt+Enter（VS Code：xterm.js 无法区分 Shift+Enter）\n"));
    assert!(out.ends_with("\n2 个问题\n\n  [!] tmux extended keys off\n      修复：将 `set -s extended-keys on` 写入 ~/.tmux.conf\n      说明：restart tmux\n\n  [!] 256 colours only\n      修复：运行 `export COLORTERM=truecolor`\n"));
}

#[test]
fn wezterm_warning_suppresses_alt_enter_hint() {
    let mut f = facts();
    f.shift_enter_unavailable = true;
    f.brand_is_xterm_js = false;
    f.vte_version = Some("7600".to_string());
    let out = run(f);
    assert!(out.contains("  换行         Alt+Enter（VTE 7600；Shift+Enter 需要 >= 8200）\n"));
    let mut f = facts();
    f.shift_enter_unavailable = true;
    f.wezterm_warning = Some(Warning { message: "WezTerm without KKP".to_string(), fix: None, config_path: None, note: None });
    let out = run(f);
    assert!(!out.contains("换行"));
    assert!(out.ends_with("\n1 个问题\n\n  [!] WezTerm without KKP\n"));
}

#[test]
fn old_vte_and_plain_terminal_details() {
    let mut f = facts();
    f.shift_enter_unavailable = true;
    f.brand_is_xterm_js = false;
    f.brand_is_vte = true;
    assert!(run(f).contains("（旧版 VTE；Shift+Enter 需要 VTE >= 0.82）"));
    let mut f = facts();
    f.shift_enter_unavailable = true;
    f.brand_is_xterm_js = false;
    assert!(run(f).contains("（无 Kitty 键盘协议；Shift+Enter 等同 Enter）"));
}
