use xai_grok_pager::actions::{ActionDef, ActionId, Category, When};
use xai_grok_pager::defaults::default_actions;
use xai_grok_pager::keys::{shift_tab_keys, KeyBinding, KeyCode, CONTROL, NONE, SHIFT};
use xai_grok_pager::terminal::{ctrl_dot_unreliable, TerminalEnv};

fn plain_env() -> TerminalEnv {
    TerminalEnv {
        vscode_family: false,
        apple_terminal: false,
        ssh: false,
        macos: false,
        windows: false,
        branded_console: false,
        wsl: false,
        terminal_ctrl_dot_unreliable: false,
    }
}

fn ctrl(c: char) -> KeyBinding {
    KeyBinding::new(KeyCode::Char(c), CONTROL)
}

fn ch(c: char) -> KeyBinding {
    KeyBinding::plain(KeyCode::Char(c))
}

fn find(actions: &[ActionDef], id: ActionId) -> &ActionDef {
    actions.iter().find(|a| a.id == id).expect("action registered")
}

fn bindings(a: &ActionDef) -> Vec<KeyBinding> {
    let mut v = vec![a.default_key];
    v.extend(a.alt_keys.iter().copied());
    v
}

#[test]
fn ctrl_dot_unreliable_signals() {
    let mut env = plain_env();
    assert!(!ctrl_dot_unreliable(&env));
    env.windows = true;
    assert!(ctrl_dot_unreliable(&env));
    env.branded_console = true;
    assert!(!ctrl_dot_unreliable(&env));
    env.windows = false;
    env.branded_console = false;
    env.wsl = true;
    assert!(ctrl_dot_unreliable(&env));
    env.wsl = false;
    env.terminal_ctrl_dot_unreliable = true;
    assert!(ctrl_dot_unreliable(&env));
}

#[test]
fn standard_table_has_sixty_nine_actions_in_order() {
    let actions = default_actions(false, &plain_env());
    assert_eq!(actions.len(), 69);
    assert_eq!(actions[0].id, ActionId::SelectNext);
    assert_eq!(actions[49].id, ActionId::OpenSettings);
    assert_eq!(actions[50].id, ActionId::OpenDashboard);
    assert_eq!(actions[68].id, ActionId::DashboardOverlayStop);
    assert!(actions.iter().all(|a| a.id != ActionId::ToggleMouseCapture));
}

#[test]
fn mouse_toggle_is_inserted_before_the_dashboard() {
    let without = default_actions(false, &plain_env());
    let with = default_actions(true, &plain_env());
    assert_eq!(with.len(), 70);
    assert_eq!(with[50].id, ActionId::ToggleMouseCapture);
    assert_eq!(with[50].default_key, ctrl('r'));
    assert_eq!(with[50].context, When::ScrollbackFocused);
    assert_eq!(with[50].category, Category::Panels);
    let rest: Vec<ActionId> = with.iter().map(|a| a.id).filter(|id| *id != ActionId::ToggleMouseCapture).collect();
    let base: Vec<ActionId> = without.iter().map(|a| a.id).collect();
    assert_eq!(rest, base);
}

#[test]
fn each_action_registered_once() {
    let actions = default_actions(true, &plain_env());
    for (i, a) in actions.iter().enumerate() {
        for b in &actions[i + 1..] {
            assert_ne!(a.id, b.id);
        }
    }
}

#[test]
fn no_two_actions_share_a_key_in_one_context() {
    let mut envs = Vec::new();
    for bits in 0u32..256 {
        envs.push(TerminalEnv {
            vscode_family: bits & 1 != 0,
            apple_terminal: bits & 2 != 0,
            ssh: bits & 4 != 0,
            macos: bits & 8 != 0,
            windows: bits & 16 != 0,
            branded_console: bits & 128 != 0,
            wsl: bits & 32 != 0,
            terminal_ctrl_dot_unreliable: bits & 64 != 0,
        });
    }
    for env in &envs {
        let actions = default_actions(true, env);
        for (i, a) in actions.iter().enumerate() {
            for b in &actions[i + 1..] {
                if a.context != b.context {
                    continue;
                }
                for k in bindings(a) {
                    if k.code != KeyCode::Null {
                        assert!(!bindings(b).contains(&k), "{:?} and {:?} share {:?}", a.id, b.id, k);
                    }
                }
            }
        }
    }
}

#[test]
fn shortcuts_help_keeps_both_keys() {
    let mut env = plain_env();
    let reliable = default_actions(false, &env);
    let help = find(&reliable, ActionId::ShortcutsHelp);
    assert_eq!(help.default_key, ctrl('.'));
    assert_eq!(help.alt_keys, vec![ctrl('x')]);
    let dash = find(&reliable, ActionId::DashboardShortcutsHelp);
    assert_eq!(dash.default_key, ctrl('.'));
    assert_eq!(dash.alt_keys, vec![ch('?')]);
    env.wsl = true;
    let unreliable = default_actions(false, &env);
    let help = find(&unreliable, ActionId::ShortcutsHelp);
    assert_eq!(help.default_key, ctrl('x'));
    assert_eq!(help.alt_keys, vec![ctrl('.')]);
    let dash = find(&unreliable, ActionId::DashboardShortcutsHelp);
    assert_eq!(dash.default_key, ch('?'));
    assert_eq!(dash.alt_keys, vec![ctrl('.')]);
}

#[test]
fn vscode_family_bindings() {
    let mut env = plain_env();
    env.vscode_family = true;
    let actions = default_actions(false, &env);
    assert_eq!(find(&actions, ActionId::HalfPageDown).default_key, ch('D'));
    let quit = find(&actions, ActionId::Quit);
    assert_eq!(quit.default_key, ctrl('d'));
    assert!(quit.alt_keys.is_empty());
    assert_eq!(find(&actions, ActionId::OpenExtensions).default_key.code, KeyCode::Null);
    let interject = find(&actions, ActionId::InterjectPrompt);
    assert_eq!(interject.default_key, ctrl('l'));
    assert!(interject.alt_keys.is_empty());
    for a in &actions {
        if bindings(a).contains(&ctrl('d')) {
            assert_eq!(a.id, ActionId::Quit);
        }
    }
}

#[test]
fn other_terminal_bindings() {
    let actions = default_actions(false, &plain_env());
    assert_eq!(find(&actions, ActionId::HalfPageDown).default_key, ctrl('d'));
    let quit = find(&actions, ActionId::Quit);
    assert_eq!(quit.default_key, ctrl('q'));
    assert_eq!(quit.alt_keys, vec![ctrl('d')]);
    assert_eq!(find(&actions, ActionId::OpenExtensions).default_key, ctrl('l'));
    let interject = find(&actions, ActionId::InterjectPrompt);
    assert_eq!(interject.default_key, KeyBinding::new(KeyCode::Enter, CONTROL));
    assert_eq!(interject.alt_keys, vec![ctrl('i')]);
    let queue = find(&actions, ActionId::ToggleQueue);
    assert_eq!(queue.default_key, ctrl(';'));
    assert_eq!(queue.alt_keys, vec![ctrl('\'')]);
}

#[test]
fn apple_terminal_interject_uses_ctrl_o() {
    let mut env = plain_env();
    env.apple_terminal = true;
    let actions = default_actions(false, &env);
    let interject = find(&actions, ActionId::InterjectPrompt);
    assert_eq!(interject.default_key, ctrl('o'));
    assert_eq!(interject.alt_keys, vec![KeyBinding::new(KeyCode::Enter, CONTROL), ctrl('i')]);
}

#[test]
fn local_mac_vscode_queue_uses_ctrl_4() {
    let mut env = plain_env();
    env.vscode_family = true;
    env.macos = true;
    let actions = default_actions(false, &env);
    let queue = find(&actions, ActionId::ToggleQueue);
    assert_eq!(queue.default_key, ctrl('4'));
    assert_eq!(queue.alt_keys, vec![ctrl(';'), ctrl('\'')]);
    env.ssh = true;
    let actions = default_actions(false, &env);
    assert_eq!(find(&actions, ActionId::ToggleQueue).default_key, ctrl(';'));
}

#[test]
fn cycle_mode_binds_every_shift_tab_encoding() {
    let keys = shift_tab_keys();
    assert_eq!(keys[0], KeyBinding::plain(KeyCode::BackTab));
    assert!(keys[1..].iter().all(|k| k.modifiers & SHIFT != 0));
    let actions = default_actions(false, &plain_env());
    for id in [ActionId::CycleMode, ActionId::DashboardCycleMode] {
        assert_eq!(bindings(find(&actions, id)), keys);
    }
}

#[test]
fn confirmation_needed_only_for_destructive_actions() {
    let actions = default_actions(true, &plain_env());
    let confirmed: Vec<ActionId> = actions.iter().filter(|a| a.requires_confirmation).map(|a| a.id).collect();
    assert_eq!(confirmed, vec![ActionId::NewSession, ActionId::Quit, ActionId::DashboardOverlayStop]);
}

#[test]
fn select_next_entry() {
    let actions = default_actions(false, &plain_env());
    let a = &actions[0];
    assert_eq!(a.label, "导航");
    assert_eq!(a.description, "选择下一项");
    assert_eq!(a.default_key, ch('j'));
    assert_eq!(a.alt_keys, vec![KeyBinding::plain(KeyCode::Down)]);
    assert_eq!(a.hint_priority, Some(0));
    assert_eq!(a.hint_key_display, Some("j/k"));
    assert_eq!(a.category, Category::ConversationNav);
    assert!(a.long_help.unwrap().starts_with("在回滚区选中下一项"));
    let voice = find(&actions, ActionId::VoiceToggle);
    assert_eq!(voice.default_key, KeyBinding::new(KeyCode::Char(' '), CONTROL));
    assert_eq!(voice.alt_keys, vec![KeyBinding::plain(KeyCode::F(8))]);
    assert_eq!(voice.context, When::Always);
    assert_eq!(voice.hint_priority, Some(11));
    let settings = find(&actions, ActionId::OpenSettings);
    assert_eq!(settings.default_key, KeyBinding::plain(KeyCode::F(2)));
    assert_eq!(settings.alt_keys[1].modifiers, xai_grok_pager::keys::SUPER);
    assert_eq!(NONE, 0);
}

#[test]
fn branded_windows_console_advertises_ctrl_dot() {
    let mut env = plain_env();
    env.windows = true;
    env.branded_console = true;
    let actions = default_actions(false, &env);
    assert_eq!(find(&actions, ActionId::ShortcutsHelp).default_key, ctrl('.'));
    assert_eq!(find(&actions, ActionId::DashboardShortcutsHelp).default_key, ctrl('.'));
    env.branded_console = false;
    let actions = default_actions(false, &env);
    assert_eq!(find(&actions, ActionId::ShortcutsHelp).default_key, ctrl('x'));
    assert_eq!(find(&actions, ActionId::DashboardShortcutsHelp).default_key, ch('?'));
}
