use xai_grok_pager::slash::{Action, CommandExecCtx, CommandResult, ExtensionsModalTrigger, ExtensionsTab, McpsCommand, RenameCommand};
use xai_grok_pager::text::{to_decimal, trim};

fn ctx(session: bool) -> CommandExecCtx {
    CommandExecCtx { session_id: if session { Some("s-1".to_string()) } else { None }, fullscreen: true }
}

#[test]
fn mcps_opens_mcp_tab() {
    let cmd = McpsCommand;
    assert_eq!(cmd.name(), "mcps");
    assert_eq!(cmd.usage(), "/mcps");
    let mut c = ctx(false);
    match cmd.run(&mut c, "ignored") {
        CommandResult::Action(Action::OpenExtensionsModal { tab, trigger }) => {
            assert_eq!(tab, ExtensionsTab::McpServers);
            assert_eq!(trigger, ExtensionsModalTrigger::SlashCommand);
        }
        other => panic!("unexpected {:?}", other),
    }
}

#[test]
fn rename_metadata() {
    let cmd = RenameCommand;
    assert_eq!(cmd.name(), "rename");
    assert_eq!(cmd.aliases(), &["title"]);
    assert!(cmd.session_scoped());
    assert!(cmd.takes_args());
    assert!(cmd.args_required());
    assert_eq!(cmd.arg_placeholder(), Some("<title>"));
    assert_eq!(cmd.usage(), "/rename <title>");
}

#[test]
fn rename_without_session_fails() {
    let mut c = ctx(false);
    match RenameCommand.run(&mut c, "new name") {
        CommandResult::Error(m) => assert_eq!(m, "No active session"),
        other => panic!("unexpected {:?}", other),
    }
}

#[test]
fn rename_with_blank_title_fails() {
    let mut c = ctx(true);
    match RenameCommand.run(&mut c, " \t\u{3000} ") {
        CommandResult::Error(m) => assert_eq!(m, "Usage: /rename <new title>"),
        other => panic!("unexpected {:?}", other),
    }
}

#[test]
fn rename_trims_title() {
    let mut c = ctx(true);
    match RenameCommand.run(&mut c, "  我的 会话\n") {
        CommandResult::Action(Action::RenameSession { title }) => assert_eq!(title, "我的 会话"),
        other => panic!("unexpected {:?}", other),
    }
    assert_eq!(c.session_id.as_deref(), Some("s-1"));
}

#[test]
fn trim_matches_std() {
    for s in ["", " ", "a", "  a b  ", "\u{2003}x\u{205F}", "\u{85}y", "z\u{200B}"] {
        assert_eq!(trim(s), s.trim());
    }
}

#[test]
fn decimal_numerals() {
    assert_eq!(to_decimal(0), "0");
    assert_eq!(to_decimal(7), "7");
    assert_eq!(to_decimal(10), "10");
    assert_eq!(to_decimal(1203), "1203");
}

#[test]
fn rename_ignores_surrounding_white_space() {
    let mut c = ctx(true);
    let a = RenameCommand.run(&mut c, "title");
    let b = RenameCommand.run(&mut c, "\u{2003} \ttitle\n ");
    match (a, b) {
        (CommandResult::Action(Action::RenameSession { title: x }), CommandResult::Action(Action::RenameSession { title: y })) => {
            assert_eq!(x, y);
            match RenameCommand.run(&mut c, &x) {
                CommandResult::Action(Action::RenameSession { title }) => assert_eq!(title, x),
                other => panic!("unexpected {:?}", other),
            }
        }
        other => panic!("unexpected {:?}", other),
    }
}
