use xai_grok_pager::settings::{
    default_settings, CatalogSources, ChoiceName, ContextualHintsDefaults, ScrollMode, SettingKind, SettingMeta,
    SettingOwner, UiDefaults, MAX_THOUGHTS_WIDTH_KEY, MAX_THOUGHTS_WIDTH_MAX, MAX_THOUGHTS_WIDTH_MIN,
};

fn ui() -> UiDefaults {
    UiDefaults {
        compact_mode: false,
        show_timestamps: None,
        show_timeline: false,
        simple_mode: None,
        vim_mode: None,
        remember_tool_approvals: None,
        max_thoughts_width: 120,
        show_thinking_blocks: None,
        prompt_suggestions: None,
        group_tool_verbs: None,
        collapsed_edit_blocks: None,
        display_refresh_auto_cadence: None,
        scroll_speed: None,
        scroll_mode: None,
        scroll_lines: None,
        invert_scroll: None,
        contextual_hints: ContextualHintsDefaults {
            undo: None,
            plan_mode: None,
            image_input: None,
            send_now: None,
            small_screen: None,
            word_select: None,
        },
    }
}

fn sources(ui: UiDefaults) -> CatalogSources {
    CatalogSources {
        ui,
        respect_manual_folds: true,
        ask_user_question_timeout_enabled: false,
        word_select_canonical: "word_select",
        permission_always_allow_all_sessions: ChoiceName { canonical: "always_allow_all_sessions", display: "所有会话始终允许" },
        permission_allow_command_always: ChoiceName { canonical: "allow_command_always", display: "始终允许" },
        permission_allow_once: ChoiceName { canonical: "allow_once", display: "允许一次" },
        permission_reject: ChoiceName { canonical: "reject", display: "拒绝" },
    }
}

fn get<'a>(all: &'a [SettingMeta], key: &str) -> &'a SettingMeta {
    all.iter().find(|s| s.key == key).expect("registered")
}

fn bool_default(s: &SettingMeta) -> bool {
    match s.kind {
        SettingKind::Bool { default } => default,
        ref k => panic!("not bool: {:?}", k),
    }
}

#[test]
fn catalog_order_and_size() {
    let all = default_settings(&sources(ui()));
    assert_eq!(all.len(), 43);
    assert_eq!(all[0].key, "compact_mode");
    assert_eq!(all[14].key, MAX_THOUGHTS_WIDTH_KEY);
    assert_eq!(all[42].key, "fork_secondary_model");
    for (i, a) in all.iter().enumerate() {
        for b in &all[i + 1..] {
            assert_ne!(a.key, b.key);
        }
    }
}

#[test]
fn unset_options_take_documented_defaults() {
    let all = default_settings(&sources(ui()));
    assert!(bool_default(get(&all, "show_timestamps")));
    assert!(bool_default(get(&all, "simple_mode")));
    assert!(!bool_default(get(&all, "vim_mode")));
    assert!(!bool_default(get(&all, "remember_tool_approvals")));
    assert!(bool_default(get(&all, "show_thinking_blocks")));
    assert!(!bool_default(get(&all, "collapsed_edit_blocks")));
    assert!(!bool_default(get(&all, "display_refresh_auto_cadence")));
    assert!(bool_default(get(&all, "contextual_hints.word_select")));
    assert!(bool_default(get(&all, "respect_manual_folds")));
    assert!(!bool_default(get(&all, "toolset.ask_user_question.timeout_enabled")));
    match get(&all, "scroll_speed").kind {
        SettingKind::Int { default, min, max } => assert_eq!((default, min, max), (50, 1, 100)),
        _ => panic!(),
    }
    match get(&all, "scroll_lines").kind {
        SettingKind::Int { default, min, max } => assert_eq!((default, min, max), (3, 1, 10)),
        _ => panic!(),
    }
    match get(&all, "max_thoughts_width").kind {
        SettingKind::Int { default, min, max } => {
            assert_eq!((default, min, max), (120, MAX_THOUGHTS_WIDTH_MIN, MAX_THOUGHTS_WIDTH_MAX))
        }
        _ => panic!(),
    }
}

#[test]
fn configured_values_win() {
    let mut u = ui();
    u.vim_mode = Some(true);
    u.show_timestamps = Some(false);
    u.scroll_speed = Some(80);
    u.scroll_lines = Some(5);
    u.scroll_mode = Some("trackpad".to_string());
    u.contextual_hints.undo = Some(false);
    let all = default_settings(&sources(u));
    assert!(bool_default(get(&all, "vim_mode")));
    assert!(!bool_default(get(&all, "show_timestamps")));
    assert!(!bool_default(get(&all, "contextual_hints.undo")));
    match get(&all, "scroll_speed").kind {
        SettingKind::Int { default, .. } => assert_eq!(default, 80),
        _ => panic!(),
    }
    match get(&all, "scroll_lines").kind {
        SettingKind::Int { default, .. } => assert_eq!(default, 5),
        _ => panic!(),
    }
    match &get(&all, "scroll_mode").kind {
        SettingKind::Enum { default, .. } => assert_eq!(*default, "trackpad"),
        _ => panic!(),
    }
}

#[test]
fn unknown_scroll_mode_falls_back_to_auto() {
    let mut u = ui();
    u.scroll_mode = Some("joystick".to_string());
    let all = default_settings(&sources(u));
    match &get(&all, "scroll_mode").kind {
        SettingKind::Enum { default, choices, .. } => {
            assert_eq!(*default, "auto");
            let names: Vec<&str> = choices.iter().map(|c| c.canonical).collect();
            assert_eq!(names, vec!["auto", "wheel", "trackpad"]);
        }
        _ => panic!(),
    }
    assert_eq!(ScrollMode::from_canonical("wheel"), Some(ScrollMode::Wheel));
    assert_eq!(ScrollMode::from_canonical("Wheel"), None);
    assert_eq!(ScrollMode::default().as_canonical(), "auto");
}

#[test]
fn enum_defaults_are_choices() {
    let all = default_settings(&sources(ui()));
    for s in &all {
        if let SettingKind::Enum { default, choices, .. } = &s.kind {
            assert!(choices.iter().any(|c| c.canonical == *default), "{}", s.key);
        }
    }
    match &get(&all, "default_selected_permission").kind {
        SettingKind::Enum { default, choices, supports_preview } => {
            assert_eq!(*default, "always_allow_all_sessions");
            assert_eq!(choices.len(), 4);
            assert_eq!(choices[3].display, "拒绝");
            assert!(!supports_preview);
        }
        _ => panic!(),
    }
}

#[test]
fn theme_pickers() {
    let all = default_settings(&sources(ui()));
    let (theme, dark) = match (&get(&all, "theme").kind, &get(&all, "auto_dark_theme").kind) {
        (SettingKind::Enum { choices: a, supports_preview: true, .. }, SettingKind::Enum { choices: b, .. }) => (a.clone(), b.clone()),
        _ => panic!(),
    };
    assert_eq!(theme[0].canonical, "auto");
    let rest: Vec<&str> = theme[1..].iter().map(|c| c.canonical).collect();
    let concrete: Vec<&str> = dark.iter().map(|c| c.canonical).collect();
    assert_eq!(rest, concrete);
    assert!(get(&all, "theme").hidden_in_minimal);
}

#[test]
fn contextual_hints_group() {
    let all = default_settings(&sources(ui()));
    let group = get(&all, "contextual_hints");
    assert_eq!(group.owner, SettingOwner::Shell);
    match group.kind {
        SettingKind::Group { children } => {
            assert_eq!(children.len(), 6);
            for c in children {
                assert!(matches!(get(&all, c).kind, SettingKind::Bool { .. }));
            }
        }
        _ => panic!(),
    }
}

#[test]
fn restart_and_stt_catalog() {
    let all = default_settings(&sources(ui()));
    assert!(get(&all, "screen_mode").restart_required);
    assert!(!get(&all, "theme").restart_required);
    match &get(&all, "voice_stt_language").kind {
        SettingKind::Enum { default, choices, .. } => {
            assert_eq!(*default, "en");
            assert_eq!(choices.len(), 26);
            assert_eq!(choices[1].canonical, "auto");
        }
        _ => panic!(),
    }
}

#[test]
fn enum_choice_names_distinct() {
    let all = default_settings(&sources(ui()));
    for s in &all {
        if let SettingKind::Enum { choices, .. } = &s.kind {
            for (i, a) in choices.iter().enumerate() {
                for b in &choices[i + 1..] {
                    assert_ne!(a.canonical, b.canonical, "{}", s.key);
                }
            }
        }
    }
}
