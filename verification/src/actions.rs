//! The default action table: one entry per action, giving its label,
//! description, key bindings, category, context and help text.

use vstd::prelude::*;

use crate::keys::{
    ch, ctrl, kb, shift_tab_keys, spec_shift_tab_keys, KeyBinding, KeyCode, CONTROL, NONE, SHIFT, SUPER,
};
use crate::terminal::{ctrl_dot_unreliable, spec_ctrl_dot_unreliable, TerminalEnv};

verus! {

/// Every action that the key map can dispatch.
#[derive(Clone, Copy, Debug, PartialEq, Eq, Structural, Hash)]
pub enum ActionId {
    SelectNext,
    SelectPrev,
    NextTurn,
    PrevTurn,
    NextResponse,
    PrevResponse,
    GotoTop,
    GotoBottom,
    ScrollUp,
    ScrollDown,
    HalfPageUp,
    HalfPageDown,
    PageUp,
    PageDown,
    Collapse,
    Expand,
    ToggleFold,
    ToggleExpandAll,
    ExpandAllThinking,
    ToggleRaw,
    CopyBlockContent,
    CopyBlockMeta,
    OpenBlockViewer,
    OpenNextLink,
    OpenPrevLink,
    Rewind,
    KillBgTask,
    SendPrompt,
    FocusPrompt,
    FocusScrollback,
    CancelTurn,
    CycleMode,
    ToggleTodos,
    ToggleTasks,
    ToggleQueue,
    OpenSessions,
    OpenExtensions,
    SendToBackground,
    InterjectPrompt,
    EnableVoiceMode,
    VoiceToggle,
    ToggleMultiline,
    BashMode,
    ToggleYolo,
    NewSession,
    Quit,
    CommandPalette,
    ShortcutsHelp,
    ModelPicker,
    OpenSettings,
    ToggleMouseCapture,
    OpenDashboard,
    DashboardSelectNext,
    DashboardSelectPrev,
    DashboardTogglePin,
    DashboardBeginRename,
    DashboardStop,
    DashboardCycleMode,
    DashboardToggleGrouping,
    DashboardReorderUp,
    DashboardReorderDown,
    DashboardShortcutsHelp,
    DashboardExit,
    DashboardToggleAutoApprove,
    DashboardOpenLocationPicker,
    DashboardToggleWorktree,
    DashboardOverlayExit,
    DashboardOverlayPrev,
    DashboardOverlayNext,
    DashboardOverlayStop,
}

/// The cheatsheet section an action is listed under.
#[derive(Clone, Copy, Debug, PartialEq, Eq, Structural, Hash)]
pub enum Category {
    ConversationNav,
    ConversationAction,
    GettingStarted,
    Panels,
    Input,
    Session,
    Dashboard,
}

/// The focus context in which a binding is looked up.
#[derive(Clone, Copy, Debug, PartialEq, Eq, Structural, Hash)]
pub enum When {
    Always,
    AgentScreen,
    ScrollbackFocused,
    PromptFocused,
    DashboardFocused,
    DashboardOverlay,
}

/// One registered action with its default bindings and help text.
#[derive(Clone, Debug)]
pub struct ActionDef {
    pub id: ActionId,
    pub label: &'static str,
    pub description: &'static str,
    pub default_key: KeyBinding,
    pub alt_keys: Vec<KeyBinding>,
    pub category: Category,
    pub context: When,
    pub hint_priority: Option<u8>,
    pub hint_key_display: Option<&'static str>,
    pub requires_confirmation: bool,
    pub long_help: Option<&'static str>,
}

/// The mathematical value of an [`ActionDef`]: its texts as character
/// sequences and its alternate keys as a sequence.
#[verifier::ext_equal]
pub struct ActionSpec {
    pub id: ActionId,
    pub label: Seq<char>,
    pub description: Seq<char>,
    pub default_key: KeyBinding,
    pub alt_keys: Seq<KeyBinding>,
    pub category: Category,
    pub context: When,
    pub hint_priority: Option<u8>,
    pub hint_key_display: Option<Seq<char>>,
    pub requires_confirmation: bool,
    pub long_help: Option<Seq<char>>,
}

/// The characters of an optional static text.
pub open spec fn opt_text(o: Option<&'static str>) -> Option<Seq<char>> {
    match o {
        Some(s) => Some(s@),
        None => None,
    }
}

impl View for ActionDef {
    type V = ActionSpec;

    open spec fn view(&self) -> ActionSpec {
        ActionSpec {
            id: self.id,
            label: self.label@,
            description: self.description@,
            default_key: self.default_key,
            alt_keys: self.alt_keys@,
            category: self.category,
            context: self.context,
            hint_priority: self.hint_priority,
            hint_key_display: opt_text(self.hint_key_display),
            requires_confirmation: self.requires_confirmation,
            long_help: opt_text(self.long_help),
        }
    }
}

/// A local VS Code-family terminal on macOS, where Ctrl+; and Ctrl+' often
/// never arrive.
pub open spec fn spec_local_mac_vscode(env: TerminalEnv) -> bool {
    env.vscode_family && !env.ssh && env.macos
}

/// The short label of an action.
pub open spec fn spec_label(id: ActionId) -> Seq<char> {
    match id {
        ActionId::SelectNext => "导航"@,
        ActionId::SelectPrev => "导航"@,
        ActionId::NextTurn => "回合"@,
        ActionId::PrevTurn => "回合"@,
        ActionId::NextResponse => "回复"@,
        ActionId::PrevResponse => "回复"@,
        ActionId::GotoTop => "顶/底"@,
        ActionId::GotoBottom => "底部"@,
        ActionId::ScrollUp => "上滚"@,
        ActionId::ScrollDown => "下滚"@,
        ActionId::HalfPageUp => "上半页"@,
        ActionId::HalfPageDown => "下半页"@,
        ActionId::PageUp => "上页"@,
        ActionId::PageDown => "下页"@,
        ActionId::Collapse => "折叠"@,
        ActionId::Expand => "折叠"@,
        ActionId::ToggleFold => "折叠"@,
        ActionId::ToggleExpandAll => "全部"@,
        ActionId::ExpandAllThinking => "展开/折叠思考"@,
        ActionId::ToggleRaw => "原始"@,
        ActionId::CopyBlockContent => "复制"@,
        ActionId::CopyBlockMeta => "复制命令"@,
        ActionId::OpenBlockViewer => "查看"@,
        ActionId::OpenNextLink => "链接"@,
        ActionId::OpenPrevLink => "链接"@,
        ActionId::Rewind => "回退"@,
        ActionId::KillBgTask => "终止"@,
        ActionId::SendPrompt => "发送"@,
        ActionId::FocusPrompt => "输入"@,
        ActionId::FocusScrollback => "回滚"@,
        ActionId::CancelTurn => "取消"@,
        ActionId::CycleMode => "模式"@,
        ActionId::ToggleTodos => "待办"@,
        ActionId::ToggleTasks => "任务"@,
        ActionId::ToggleQueue => "队列"@,
        ActionId::OpenSessions => "会话"@,
        ActionId::OpenExtensions => "扩展"@,
        ActionId::SendToBackground => "转后台"@,
        ActionId::InterjectPrompt => "立即发送"@,
        ActionId::EnableVoiceMode => "语音"@,
        ActionId::VoiceToggle => "麦克风"@,
        ActionId::ToggleMultiline => "多行"@,
        ActionId::BashMode => "Shell"@,
        ActionId::ToggleYolo => "始终批准"@,
        ActionId::NewSession => "新建"@,
        ActionId::Quit => "退出"@,
        ActionId::CommandPalette => "命令"@,
        ActionId::ShortcutsHelp => "快捷键"@,
        ActionId::ModelPicker => "模型"@,
        ActionId::OpenSettings => "设置"@,
        ActionId::ToggleMouseCapture => "鼠标上报"@,
        ActionId::OpenDashboard => "仪表盘"@,
        ActionId::DashboardSelectNext => "下一行"@,
        ActionId::DashboardSelectPrev => "上一行"@,
        ActionId::DashboardTogglePin => "固定"@,
        ActionId::DashboardBeginRename => "重命名"@,
        ActionId::DashboardStop => "停止"@,
        ActionId::DashboardCycleMode => "模式"@,
        ActionId::DashboardToggleGrouping => "分组"@,
        ActionId::DashboardReorderUp => "上移"@,
        ActionId::DashboardReorderDown => "下移"@,
        ActionId::DashboardShortcutsHelp => "快捷键"@,
        ActionId::DashboardExit => "退出"@,
        ActionId::DashboardToggleAutoApprove => "始终批准"@,
        ActionId::DashboardOpenLocationPicker => "位置"@,
        ActionId::DashboardToggleWorktree => "工作树"@,
        ActionId::DashboardOverlayExit => "关闭浮层"@,
        ActionId::DashboardOverlayPrev => "上一会话"@,
        ActionId::DashboardOverlayNext => "下一会话"@,
        ActionId::DashboardOverlayStop => "停止"@,
    }
}

/// The one-line description of an action.
pub open spec fn spec_description(id: ActionId) -> Seq<char> {
    match id {
        ActionId::SelectNext => "选择下一项"@,
        ActionId::SelectPrev => "选择上一项"@,
        ActionId::NextTurn => "下一回合"@,
        ActionId::PrevTurn => "上一回合"@,
        ActionId::NextResponse => "下一条回复"@,
        ActionId::PrevResponse => "上一条回复"@,
        ActionId::GotoTop => "跳到顶部"@,
        ActionId::GotoBottom => "跳到底部"@,
        ActionId::ScrollUp => "向上滚动一行"@,
        ActionId::ScrollDown => "向下滚动一行"@,
        ActionId::HalfPageUp => "向上半页"@,
        ActionId::HalfPageDown => "向下半页"@,
        ActionId::PageUp => "向上一页"@,
        ActionId::PageDown => "向下一页"@,
        ActionId::Collapse => "折叠选中项"@,
        ActionId::Expand => "展开选中项"@,
        ActionId::ToggleFold => "展开/折叠"@,
        ActionId::ToggleExpandAll => "全部展开/折叠"@,
        ActionId::ExpandAllThinking => "切换全部思考块"@,
        ActionId::ToggleRaw => "切换原始 Markdown"@,
        ActionId::CopyBlockContent => "复制内容"@,
        ActionId::CopyBlockMeta => "复制命令/路径"@,
        ActionId::OpenBlockViewer => "在查看器中打开"@,
        ActionId::OpenNextLink => "下一个链接"@,
        ActionId::OpenPrevLink => "上一个链接"@,
        ActionId::Rewind => "回退到选中回合"@,
        ActionId::KillBgTask => "终止后台任务"@,
        ActionId::SendPrompt => "发送"@,
        ActionId::FocusPrompt => "聚焦输入框"@,
        ActionId::FocusScrollback => "聚焦回滚区"@,
        ActionId::CancelTurn => "取消回合"@,
        ActionId::CycleMode => "切换模式（普通/计划/始终批准）"@,
        ActionId::ToggleTodos => "切换待办面板"@,
        ActionId::ToggleTasks => "切换任务面板"@,
        ActionId::ToggleQueue => "切换提示队列"@,
        ActionId::OpenSessions => "打开会话列表"@,
        ActionId::OpenExtensions => "打开扩展"@,
        ActionId::SendToBackground => "将运行中任务转到后台"@,
        ActionId::InterjectPrompt => "运行中立即发送（会取消当前回合）"@,
        ActionId::EnableVoiceMode => "开始语音听写（Ctrl+Space / F8）"@,
        ActionId::VoiceToggle => "语音听写（Ctrl+Space / F8）"@,
        ActionId::ToggleMultiline => "切换多行"@,
        ActionId::BashMode => "Shell 模式（空输入时输入 !）"@,
        ActionId::ToggleYolo => "切换始终批准"@,
        ActionId::NewSession => "新会话"@,
        ActionId::Quit => "退出"@,
        ActionId::CommandPalette => "命令面板"@,
        ActionId::ShortcutsHelp => "键盘快捷键"@,
        ActionId::ModelPicker => "选择模型"@,
        ActionId::OpenSettings => "打开设置"@,
        ActionId::ToggleMouseCapture => "切换鼠标上报（原生复制粘贴）"@,
        ActionId::OpenDashboard => "打开代理仪表盘"@,
        ActionId::DashboardSelectNext => "选择下一行"@,
        ActionId::DashboardSelectPrev => "选择上一行"@,
        ActionId::DashboardTogglePin => "固定/取消固定代理"@,
        ActionId::DashboardBeginRename => "重命名代理"@,
        ActionId::DashboardStop => "停止/关闭代理"@,
        ActionId::DashboardCycleMode => "切换派发模式"@,
        ActionId::DashboardToggleGrouping => "切换行分组"@,
        ActionId::DashboardReorderUp => "代理上移"@,
        ActionId::DashboardReorderDown => "代理下移"@,
        ActionId::DashboardShortcutsHelp => "显示快捷键浮层"@,
        ActionId::DashboardExit => "关闭仪表盘"@,
        ActionId::DashboardToggleAutoApprove => "切换始终批准"@,
        ActionId::DashboardOpenLocationPicker => "更改新代理工作目录"@,
        ActionId::DashboardToggleWorktree => "切换新代理的 worktree 模式"@,
        ActionId::DashboardOverlayExit => "返回仪表盘"@,
        ActionId::DashboardOverlayPrev => "上一会话"@,
        ActionId::DashboardOverlayNext => "下一会话"@,
        ActionId::DashboardOverlayStop => "停止代理并关闭会话（返回仪表盘）"@,
    }
}

/// The primary binding of an action in the environment `env`.
pub open spec fn spec_default_key(id: ActionId, env: TerminalEnv) -> KeyBinding {
    match id {
        ActionId::SelectNext => ch('j'),
        ActionId::SelectPrev => ch('k'),
        ActionId::NextTurn => ch('L'),
        ActionId::PrevTurn => ch('H'),
        ActionId::NextResponse => ch('J'),
        ActionId::PrevResponse => ch('K'),
        ActionId::GotoTop => ch('g'),
        ActionId::GotoBottom => ch('G'),
        ActionId::ScrollUp => ctrl('k'),
        ActionId::ScrollDown => ctrl('j'),
        ActionId::HalfPageUp => ctrl('u'),
        ActionId::HalfPageDown => if env.vscode_family { ch('D') } else { ctrl('d') },
        ActionId::PageUp => kb(KeyCode::PageUp, NONE),
        ActionId::PageDown => kb(KeyCode::PageDown, NONE),
        ActionId::Collapse => ch('h'),
        ActionId::Expand => ch('l'),
        ActionId::ToggleFold => ch('e'),
        ActionId::ToggleExpandAll => ch('E'),
        ActionId::ExpandAllThinking => ctrl('e'),
        ActionId::ToggleRaw => ch('r'),
        ActionId::CopyBlockContent => ch('y'),
        ActionId::CopyBlockMeta => ch('Y'),
        ActionId::OpenBlockViewer => kb(KeyCode::Enter, NONE),
        ActionId::OpenNextLink => ch('o'),
        ActionId::OpenPrevLink => ch('O'),
        ActionId::Rewind => kb(KeyCode::Null, NONE),
        ActionId::KillBgTask => ch('x'),
        ActionId::SendPrompt => kb(KeyCode::Enter, NONE),
        ActionId::FocusPrompt => kb(KeyCode::Tab, NONE),
        ActionId::FocusScrollback => kb(KeyCode::Tab, NONE),
        ActionId::CancelTurn => ctrl('c'),
        ActionId::CycleMode => spec_shift_tab_keys()[0],
        ActionId::ToggleTodos => ctrl('t'),
        ActionId::ToggleTasks => ctrl('b'),
        ActionId::ToggleQueue => if spec_local_mac_vscode(env) { ctrl('4') } else { ctrl(';') },
        ActionId::OpenSessions => ctrl('s'),
        ActionId::OpenExtensions => if env.vscode_family { kb(KeyCode::Null, NONE) } else { ctrl('l') },
        ActionId::SendToBackground => ctrl('g'),
        ActionId::InterjectPrompt => if env.apple_terminal { ctrl('o') } else if env.vscode_family { ctrl('l') } else { kb(KeyCode::Enter, CONTROL) },
        ActionId::EnableVoiceMode => kb(KeyCode::Null, NONE),
        ActionId::VoiceToggle => ctrl(' '),
        ActionId::ToggleMultiline => ctrl('m'),
        ActionId::BashMode => ch('!'),
        ActionId::ToggleYolo => ctrl('o'),
        ActionId::NewSession => ctrl('n'),
        ActionId::Quit => if env.vscode_family { ctrl('d') } else { ctrl('q') },
        ActionId::CommandPalette => ctrl('p'),
        ActionId::ShortcutsHelp => if spec_ctrl_dot_unreliable(env) { ctrl('x') } else { ctrl('.') },
        ActionId::ModelPicker => ctrl('m'),
        ActionId::OpenSettings => kb(KeyCode::F(2), NONE),
        ActionId::ToggleMouseCapture => ctrl('r'),
        ActionId::OpenDashboard => ctrl('\\'),
        ActionId::DashboardSelectNext => kb(KeyCode::Down, NONE),
        ActionId::DashboardSelectPrev => kb(KeyCode::Up, NONE),
        ActionId::DashboardTogglePin => ctrl('t'),
        ActionId::DashboardBeginRename => ctrl('r'),
        ActionId::DashboardStop => ctrl('x'),
        ActionId::DashboardCycleMode => spec_shift_tab_keys()[0],
        ActionId::DashboardToggleGrouping => ctrl('g'),
        ActionId::DashboardReorderUp => kb(KeyCode::Up, SHIFT),
        ActionId::DashboardReorderDown => kb(KeyCode::Down, SHIFT),
        ActionId::DashboardShortcutsHelp => if spec_ctrl_dot_unreliable(env) { ch('?') } else { ctrl('.') },
        ActionId::DashboardExit => kb(KeyCode::Esc, NONE),
        ActionId::DashboardToggleAutoApprove => ctrl('o'),
        ActionId::DashboardOpenLocationPicker => ctrl('l'),
        ActionId::DashboardToggleWorktree => ctrl('w'),
        ActionId::DashboardOverlayExit => ctrl('\\'),
        ActionId::DashboardOverlayPrev => ctrl('['),
        ActionId::DashboardOverlayNext => ctrl(']'),
        ActionId::DashboardOverlayStop => ctrl('x'),
    }
}

/// The alternate bindings of an action in the environment `env`.
pub open spec fn spec_alt_keys(id: ActionId, env: TerminalEnv) -> Seq<KeyBinding> {
    match id {
        ActionId::SelectNext => seq![kb(KeyCode::Down, NONE)],
        ActionId::SelectPrev => seq![kb(KeyCode::Up, NONE)],
        ActionId::NextTurn => seq![kb(KeyCode::Right, SHIFT)],
        ActionId::PrevTurn => seq![kb(KeyCode::Left, SHIFT)],
        ActionId::NextResponse => seq![],
        ActionId::PrevResponse => seq![],
        ActionId::GotoTop => seq![],
        ActionId::GotoBottom => seq![],
        ActionId::ScrollUp => seq![],
        ActionId::ScrollDown => seq![],
        ActionId::HalfPageUp => seq![],
        ActionId::HalfPageDown => seq![],
        ActionId::PageUp => seq![],
        ActionId::PageDown => seq![],
        ActionId::Collapse => seq![kb(KeyCode::Left, NONE)],
        ActionId::Expand => seq![kb(KeyCode::Right, NONE)],
        ActionId::ToggleFold => seq![],
        ActionId::ToggleExpandAll => seq![],
        ActionId::ExpandAllThinking => seq![],
        ActionId::ToggleRaw => seq![],
        ActionId::CopyBlockContent => seq![],
        ActionId::CopyBlockMeta => seq![],
        ActionId::OpenBlockViewer => seq![ctrl('f')],
        ActionId::OpenNextLink => seq![],
        ActionId::OpenPrevLink => seq![],
        ActionId::Rewind => seq![],
        ActionId::KillBgTask => seq![],
        ActionId::SendPrompt => seq![],
        ActionId::FocusPrompt => seq![ch('i'), ch(' ')],
        ActionId::FocusScrollback => seq![],
        ActionId::CancelTurn => seq![],
        ActionId::CycleMode => spec_shift_tab_keys().drop_first(),
        ActionId::ToggleTodos => seq![],
        ActionId::ToggleTasks => seq![],
        ActionId::ToggleQueue => if spec_local_mac_vscode(env) { seq![ctrl(';'), ctrl('\'')] } else { seq![ctrl('\'')] },
        ActionId::OpenSessions => seq![],
        ActionId::OpenExtensions => seq![],
        ActionId::SendToBackground => seq![],
        ActionId::InterjectPrompt => if env.apple_terminal { seq![kb(KeyCode::Enter, CONTROL), ctrl('i')] } else if env.vscode_family { seq![] } else { seq![ctrl('i')] },
        ActionId::EnableVoiceMode => seq![],
        ActionId::VoiceToggle => seq![kb(KeyCode::F(8), NONE)],
        ActionId::ToggleMultiline => seq![],
        ActionId::BashMode => seq![],
        ActionId::ToggleYolo => seq![],
        ActionId::NewSession => seq![],
        ActionId::Quit => if env.vscode_family { seq![] } else { seq![ctrl('d')] },
        ActionId::CommandPalette => seq![ch('?')],
        ActionId::ShortcutsHelp => seq![if spec_ctrl_dot_unreliable(env) { ctrl('.') } else { ctrl('x') }],
        ActionId::ModelPicker => seq![],
        ActionId::OpenSettings => seq![ctrl(','), kb(KeyCode::Char(','), SUPER)],
        ActionId::ToggleMouseCapture => seq![],
        ActionId::OpenDashboard => seq![],
        ActionId::DashboardSelectNext => seq![ch('j')],
        ActionId::DashboardSelectPrev => seq![ch('k')],
        ActionId::DashboardTogglePin => seq![],
        ActionId::DashboardBeginRename => seq![],
        ActionId::DashboardStop => seq![],
        ActionId::DashboardCycleMode => spec_shift_tab_keys().drop_first(),
        ActionId::DashboardToggleGrouping => seq![],
        ActionId::DashboardReorderUp => seq![],
        ActionId::DashboardReorderDown => seq![],
        ActionId::DashboardShortcutsHelp => seq![if spec_ctrl_dot_unreliable(env) { ctrl('.') } else { ch('?') }],
        ActionId::DashboardExit => seq![],
        ActionId::DashboardToggleAutoApprove => seq![],
        ActionId::DashboardOpenLocationPicker => seq![],
        ActionId::DashboardToggleWorktree => seq![],
        ActionId::DashboardOverlayExit => seq![],
        ActionId::DashboardOverlayPrev => seq![],
        ActionId::DashboardOverlayNext => seq![],
        ActionId::DashboardOverlayStop => seq![],
    }
}

/// The cheatsheet section of an action.
pub open spec fn spec_category(id: ActionId) -> Category {
    match id {
        ActionId::SelectNext => Category::ConversationNav,
        ActionId::SelectPrev => Category::ConversationNav,
        ActionId::NextTurn => Category::ConversationNav,
        ActionId::PrevTurn => Category::ConversationNav,
        ActionId::NextResponse => Category::ConversationNav,
        ActionId::PrevResponse => Category::ConversationNav,
        ActionId::GotoTop => Category::ConversationNav,
        ActionId::GotoBottom => Category::ConversationNav,
        ActionId::ScrollUp => Category::ConversationNav,
        ActionId::ScrollDown => Category::ConversationNav,
        ActionId::HalfPageUp => Category::ConversationNav,
        ActionId::HalfPageDown => Category::ConversationNav,
        ActionId::PageUp => Category::ConversationNav,
        ActionId::PageDown => Category::ConversationNav,
        ActionId::Collapse => Category::ConversationAction,
        ActionId::Expand => Category::ConversationAction,
        ActionId::ToggleFold => Category::ConversationAction,
        ActionId::ToggleExpandAll => Category::ConversationAction,
        ActionId::ExpandAllThinking => Category::ConversationAction,
        ActionId::ToggleRaw => Category::ConversationAction,
        ActionId::CopyBlockContent => Category::ConversationAction,
        ActionId::CopyBlockMeta => Category::ConversationAction,
        ActionId::OpenBlockViewer => Category::ConversationAction,
        ActionId::OpenNextLink => Category::ConversationNav,
        ActionId::OpenPrevLink => Category::ConversationNav,
        ActionId::Rewind => Category::ConversationAction,
        ActionId::KillBgTask => Category::ConversationAction,
        ActionId::SendPrompt => Category::GettingStarted,
        ActionId::FocusPrompt => Category::GettingStarted,
        ActionId::FocusScrollback => Category::GettingStarted,
        ActionId::CancelTurn => Category::GettingStarted,
        ActionId::CycleMode => Category::GettingStarted,
        ActionId::ToggleTodos => Category::Panels,
        ActionId::ToggleTasks => Category::Panels,
        ActionId::ToggleQueue => Category::Panels,
        ActionId::OpenSessions => Category::Panels,
        ActionId::OpenExtensions => Category::Panels,
        ActionId::SendToBackground => Category::Panels,
        ActionId::InterjectPrompt => Category::Input,
        ActionId::EnableVoiceMode => Category::Input,
        ActionId::VoiceToggle => Category::Input,
        ActionId::ToggleMultiline => Category::Input,
        ActionId::BashMode => Category::Input,
        ActionId::ToggleYolo => Category::Session,
        ActionId::NewSession => Category::Session,
        ActionId::Quit => Category::GettingStarted,
        ActionId::CommandPalette => Category::GettingStarted,
        ActionId::ShortcutsHelp => Category::GettingStarted,
        ActionId::ModelPicker => Category::Session,
        ActionId::OpenSettings => Category::GettingStarted,
        ActionId::ToggleMouseCapture => Category::Panels,
        ActionId::OpenDashboard => Category::Dashboard,
        ActionId::DashboardSelectNext => Category::Dashboard,
        ActionId::DashboardSelectPrev => Category::Dashboard,
        ActionId::DashboardTogglePin => Category::Dashboard,
        ActionId::DashboardBeginRename => Category::Dashboard,
        ActionId::DashboardStop => Category::Dashboard,
        ActionId::DashboardCycleMode => Category::Dashboard,
        ActionId::DashboardToggleGrouping => Category::Dashboard,
        ActionId::DashboardReorderUp => Category::Dashboard,
        ActionId::DashboardReorderDown => Category::Dashboard,
        ActionId::DashboardShortcutsHelp => Category::Dashboard,
        ActionId::DashboardExit => Category::Dashboard,
        ActionId::DashboardToggleAutoApprove => Category::Dashboard,
        ActionId::DashboardOpenLocationPicker => Category::Dashboard,
        ActionId::DashboardToggleWorktree => Category::Dashboard,
        ActionId::DashboardOverlayExit => Category::Dashboard,
        ActionId::DashboardOverlayPrev => Category::Dashboard,
        ActionId::DashboardOverlayNext => Category::Dashboard,
        ActionId::DashboardOverlayStop => Category::Dashboard,
    }
}

/// The context in which the bindings of an action apply.
pub open spec fn spec_context(id: ActionId) -> When {
    match id {
        ActionId::SelectNext => When::ScrollbackFocused,
        ActionId::SelectPrev => When::ScrollbackFocused,
        ActionId::NextTurn => When::ScrollbackFocused,
        ActionId::PrevTurn => When::ScrollbackFocused,
        ActionId::NextResponse => When::ScrollbackFocused,
        ActionId::PrevResponse => When::ScrollbackFocused,
        ActionId::GotoTop => When::ScrollbackFocused,
        ActionId::GotoBottom => When::ScrollbackFocused,
        ActionId::ScrollUp => When::ScrollbackFocused,
        ActionId::ScrollDown => When::ScrollbackFocused,
        ActionId::HalfPageUp => When::ScrollbackFocused,
        ActionId::HalfPageDown => When::ScrollbackFocused,
        ActionId::PageUp => When::ScrollbackFocused,
        ActionId::PageDown => When::ScrollbackFocused,
        ActionId::Collapse => When::ScrollbackFocused,
        ActionId::Expand => When::ScrollbackFocused,
        ActionId::ToggleFold => When::ScrollbackFocused,
        ActionId::ToggleExpandAll => When::ScrollbackFocused,
        ActionId::ExpandAllThinking => When::ScrollbackFocused,
        ActionId::ToggleRaw => When::ScrollbackFocused,
        ActionId::CopyBlockContent => When::ScrollbackFocused,
        ActionId::CopyBlockMeta => When::ScrollbackFocused,
        ActionId::OpenBlockViewer => When::ScrollbackFocused,
        ActionId::OpenNextLink => When::ScrollbackFocused,
        ActionId::OpenPrevLink => When::ScrollbackFocused,
        ActionId::Rewind => When::ScrollbackFocused,
        ActionId::KillBgTask => When::ScrollbackFocused,
        ActionId::SendPrompt => When::PromptFocused,
        ActionId::FocusPrompt => When::ScrollbackFocused,
        ActionId::FocusScrollback => When::PromptFocused,
        ActionId::CancelTurn => When::AgentScreen,
        ActionId::CycleMode => When::PromptFocused,
        ActionId::ToggleTodos => When::AgentScreen,
        ActionId::ToggleTasks => When::AgentScreen,
        ActionId::ToggleQueue => When::AgentScreen,
        ActionId::OpenSessions => When::AgentScreen,
        ActionId::OpenExtensions => When::AgentScreen,
        ActionId::SendToBackground => When::AgentScreen,
        ActionId::InterjectPrompt => When::PromptFocused,
        ActionId::EnableVoiceMode => When::AgentScreen,
        ActionId::VoiceToggle => When::Always,
        ActionId::ToggleMultiline => When::PromptFocused,
        ActionId::BashMode => When::PromptFocused,
        ActionId::ToggleYolo => When::AgentScreen,
        ActionId::NewSession => When::Always,
        ActionId::Quit => When::Always,
        ActionId::CommandPalette => When::AgentScreen,
        ActionId::ShortcutsHelp => When::AgentScreen,
        ActionId::ModelPicker => When::AgentScreen,
        ActionId::OpenSettings => When::AgentScreen,
        ActionId::ToggleMouseCapture => When::ScrollbackFocused,
        ActionId::OpenDashboard => When::Always,
        ActionId::DashboardSelectNext => When::DashboardFocused,
        ActionId::DashboardSelectPrev => When::DashboardFocused,
        ActionId::DashboardTogglePin => When::DashboardFocused,
        ActionId::DashboardBeginRename => When::DashboardFocused,
        ActionId::DashboardStop => When::DashboardFocused,
        ActionId::DashboardCycleMode => When::DashboardFocused,
        ActionId::DashboardToggleGrouping => When::DashboardFocused,
        ActionId::DashboardReorderUp => When::DashboardFocused,
        ActionId::DashboardReorderDown => When::DashboardFocused,
        ActionId::DashboardShortcutsHelp => When::DashboardFocused,
        ActionId::DashboardExit => When::DashboardFocused,
        ActionId::DashboardToggleAutoApprove => When::DashboardFocused,
        ActionId::DashboardOpenLocationPicker => When::DashboardFocused,
        ActionId::DashboardToggleWorktree => When::DashboardFocused,
        ActionId::DashboardOverlayExit => When::DashboardOverlay,
        ActionId::DashboardOverlayPrev => When::DashboardOverlay,
        ActionId::DashboardOverlayNext => When::DashboardOverlay,
        ActionId::DashboardOverlayStop => When::DashboardOverlay,
    }
}

/// The position of an action in the hint bar, if it is shown there.
pub open spec fn spec_hint_priority(id: ActionId) -> Option<u8> {
    match id {
        ActionId::SelectNext => Some(0u8),
        ActionId::SelectPrev => None,
        ActionId::NextTurn => Some(1u8),
        ActionId::PrevTurn => None,
        ActionId::NextResponse => None,
        ActionId::PrevResponse => None,
        ActionId::GotoTop => Some(4u8),
        ActionId::GotoBottom => None,
        ActionId::ScrollUp => None,
        ActionId::ScrollDown => None,
        ActionId::HalfPageUp => None,
        ActionId::HalfPageDown => None,
        ActionId::PageUp => None,
        ActionId::PageDown => None,
        ActionId::Collapse => None,
        ActionId::Expand => None,
        ActionId::ToggleFold => Some(3u8),
        ActionId::ToggleExpandAll => None,
        ActionId::ExpandAllThinking => Some(3u8),
        ActionId::ToggleRaw => None,
        ActionId::CopyBlockContent => None,
        ActionId::CopyBlockMeta => None,
        ActionId::OpenBlockViewer => None,
        ActionId::OpenNextLink => None,
        ActionId::OpenPrevLink => None,
        ActionId::Rewind => None,
        ActionId::KillBgTask => None,
        ActionId::SendPrompt => None,
        ActionId::FocusPrompt => None,
        ActionId::FocusScrollback => None,
        ActionId::CancelTurn => None,
        ActionId::CycleMode => None,
        ActionId::ToggleTodos => None,
        ActionId::ToggleTasks => None,
        ActionId::ToggleQueue => None,
        ActionId::OpenSessions => None,
        ActionId::OpenExtensions => None,
        ActionId::SendToBackground => None,
        ActionId::InterjectPrompt => None,
        ActionId::EnableVoiceMode => None,
        ActionId::VoiceToggle => Some(11u8),
        ActionId::ToggleMultiline => None,
        ActionId::BashMode => None,
        ActionId::ToggleYolo => None,
        ActionId::NewSession => None,
        ActionId::Quit => Some(10u8),
        ActionId::CommandPalette => Some(5u8),
        ActionId::ShortcutsHelp => None,
        ActionId::ModelPicker => None,
        ActionId::OpenSettings => None,
        ActionId::ToggleMouseCapture => None,
        ActionId::OpenDashboard => None,
        ActionId::DashboardSelectNext => None,
        ActionId::DashboardSelectPrev => None,
        ActionId::DashboardTogglePin => None,
        ActionId::DashboardBeginRename => None,
        ActionId::DashboardStop => None,
        ActionId::DashboardCycleMode => None,
        ActionId::DashboardToggleGrouping => None,
        ActionId::DashboardReorderUp => None,
        ActionId::DashboardReorderDown => None,
        ActionId::DashboardShortcutsHelp => None,
        ActionId::DashboardExit => None,
        ActionId::DashboardToggleAutoApprove => None,
        ActionId::DashboardOpenLocationPicker => None,
        ActionId::DashboardToggleWorktree => None,
        ActionId::DashboardOverlayExit => None,
        ActionId::DashboardOverlayPrev => None,
        ActionId::DashboardOverlayNext => None,
        ActionId::DashboardOverlayStop => None,
    }
}

/// The key text shown in the hint bar in place of the binding, if any.
pub open spec fn spec_hint_key_display(id: ActionId) -> Option<Seq<char>> {
    match id {
        ActionId::SelectNext => Some("j/k"@),
        ActionId::SelectPrev => None,
        ActionId::NextTurn => None,
        ActionId::PrevTurn => None,
        ActionId::NextResponse => None,
        ActionId::PrevResponse => None,
        ActionId::GotoTop => None,
        ActionId::GotoBottom => None,
        ActionId::ScrollUp => None,
        ActionId::ScrollDown => None,
        ActionId::HalfPageUp => None,
        ActionId::HalfPageDown => None,
        ActionId::PageUp => None,
        ActionId::PageDown => None,
        ActionId::Collapse => None,
        ActionId::Expand => None,
        ActionId::ToggleFold => None,
        ActionId::ToggleExpandAll => None,
        ActionId::ExpandAllThinking => None,
        ActionId::ToggleRaw => None,
        ActionId::CopyBlockContent => None,
        ActionId::CopyBlockMeta => None,
        ActionId::OpenBlockViewer => None,
        ActionId::OpenNextLink => None,
        ActionId::OpenPrevLink => None,
        ActionId::Rewind => None,
        ActionId::KillBgTask => None,
        ActionId::SendPrompt => None,
        ActionId::FocusPrompt => None,
        ActionId::FocusScrollback => None,
        ActionId::CancelTurn => None,
        ActionId::CycleMode => Some("Shift+Tab"@),
        ActionId::ToggleTodos => None,
        ActionId::ToggleTasks => None,
        ActionId::ToggleQueue => None,
        ActionId::OpenSessions => None,
        ActionId::OpenExtensions => None,
        ActionId::SendToBackground => None,
        ActionId::InterjectPrompt => None,
        ActionId::EnableVoiceMode => None,
        ActionId::VoiceToggle => Some("Ctrl+Space / F8"@),
        ActionId::ToggleMultiline => None,
        ActionId::BashMode => Some("!"@),
        ActionId::ToggleYolo => None,
        ActionId::NewSession => None,
        ActionId::Quit => None,
        ActionId::CommandPalette => Some("?"@),
        ActionId::ShortcutsHelp => None,
        ActionId::ModelPicker => None,
        ActionId::OpenSettings => None,
        ActionId::ToggleMouseCapture => Some("Ctrl+r"@),
        ActionId::OpenDashboard => Some("Ctrl+\\"@),
        ActionId::DashboardSelectNext => Some("\u{2191}\u{2193}"@),
        ActionId::DashboardSelectPrev => None,
        ActionId::DashboardTogglePin => None,
        ActionId::DashboardBeginRename => None,
        ActionId::DashboardStop => None,
        ActionId::DashboardCycleMode => Some("Shift+Tab"@),
        ActionId::DashboardToggleGrouping => None,
        ActionId::DashboardReorderUp => Some("Shift+\u{2191}"@),
        ActionId::DashboardReorderDown => None,
        ActionId::DashboardShortcutsHelp => None,
        ActionId::DashboardExit => Some("Esc"@),
        ActionId::DashboardToggleAutoApprove => Some("Ctrl+O"@),
        ActionId::DashboardOpenLocationPicker => Some("Ctrl+l"@),
        ActionId::DashboardToggleWorktree => Some("Ctrl+w"@),
        ActionId::DashboardOverlayExit => Some("Ctrl+\\"@),
        ActionId::DashboardOverlayPrev => Some("Ctrl+["@),
        ActionId::DashboardOverlayNext => Some("Ctrl+]"@),
        ActionId::DashboardOverlayStop => Some("Ctrl+x"@),
    }
}

/// Whether the action must be pressed twice to take effect.
pub open spec fn spec_requires_confirmation(id: ActionId) -> bool {
    match id {
        ActionId::SelectNext => false,
        ActionId::SelectPrev => false,
        ActionId::NextTurn => false,
        ActionId::PrevTurn => false,
        ActionId::NextResponse => false,
        ActionId::PrevResponse => false,
        ActionId::GotoTop => false,
        ActionId::GotoBottom => false,
        ActionId::ScrollUp => false,
        ActionId::ScrollDown => false,
        ActionId::HalfPageUp => false,
        ActionId::HalfPageDown => false,
        ActionId::PageUp => false,
        ActionId::PageDown => false,
        ActionId::Collapse => false,
        ActionId::Expand => false,
        ActionId::ToggleFold => false,
        ActionId::ToggleExpandAll => false,
        ActionId::ExpandAllThinking => false,
        ActionId::ToggleRaw => false,
        ActionId::CopyBlockContent => false,
        ActionId::CopyBlockMeta => false,
        ActionId::OpenBlockViewer => false,
        ActionId::OpenNextLink => false,
        ActionId::OpenPrevLink => false,
        ActionId::Rewind => false,
        ActionId::KillBgTask => false,
        ActionId::SendPrompt => false,
        ActionId::FocusPrompt => false,
        ActionId::FocusScrollback => false,
        ActionId::CancelTurn => false,
        ActionId::CycleMode => false,
        ActionId::ToggleTodos => false,
        ActionId::ToggleTasks => false,
        ActionId::ToggleQueue => false,
        ActionId::OpenSessions => false,
        ActionId::OpenExtensions => false,
        ActionId::SendToBackground => false,
        ActionId::InterjectPrompt => false,
        ActionId::EnableVoiceMode => false,
        ActionId::VoiceToggle => false,
        ActionId::ToggleMultiline => false,
        ActionId::BashMode => false,
        ActionId::ToggleYolo => false,
        ActionId::NewSession => true,
        ActionId::Quit => true,
        ActionId::CommandPalette => false,
        ActionId::ShortcutsHelp => false,
        ActionId::ModelPicker => false,
        ActionId::OpenSettings => false,
        ActionId::ToggleMouseCapture => false,
        ActionId::OpenDashboard => false,
        ActionId::DashboardSelectNext => false,
        ActionId::DashboardSelectPrev => false,
        ActionId::DashboardTogglePin => false,
        ActionId::DashboardBeginRename => false,
        ActionId::DashboardStop => false,
        ActionId::DashboardCycleMode => false,
        ActionId::DashboardToggleGrouping => false,
        ActionId::DashboardReorderUp => false,
        ActionId::DashboardReorderDown => false,
        ActionId::DashboardShortcutsHelp => false,
        ActionId::DashboardExit => false,
        ActionId::DashboardToggleAutoApprove => false,
        ActionId::DashboardOpenLocationPicker => false,
        ActionId::DashboardToggleWorktree => false,
        ActionId::DashboardOverlayExit => false,
        ActionId::DashboardOverlayPrev => false,
        ActionId::DashboardOverlayNext => false,
        ActionId::DashboardOverlayStop => true,
    }
}

/// The detailed help text of an action.
pub open spec fn spec_long_help(id: ActionId) -> Option<Seq<char>> {
    match id {
        ActionId::SelectNext => Some("在回滚区选中下一项（消息、工具输出等）。\nj / ↓ 向下移动；k / ↑ 向上。\n配合折叠、复制、查看器等操作使用。"@),
        ActionId::SelectPrev => Some("在回滚区选中上一项。\nk / ↑ 向上；j / ↓ 向下。\n用于在长对话中定位要折叠、复制或查看的块。"@),
        ActionId::NextTurn => Some("跳到下一个用户/代理回合边界。\n适合快速翻阅多轮对话，而不逐条扫消息。\nShift+H / Shift+← 为上一回合。"@),
        ActionId::PrevTurn => Some("跳到上一个用户/代理回合边界。\n与 Shift+L 配对，便于在多轮之间来回对照。"@),
        ActionId::NextResponse => Some("跳到下一条代理回复（跳过中间的工具块等）。\n想只看回答时比逐行 j 更快。"@),
        ActionId::PrevResponse => Some("跳到上一条代理回复。\n与 J 配对，便于对比相邻回答。"@),
        ActionId::GotoTop => Some("跳到回滚区顶部（对话最开始）。\nG 跳到底部（最新内容）。"@),
        ActionId::GotoBottom => Some("跳到回滚区底部（最新消息）。\ng 跳到顶部。"@),
        ActionId::ScrollUp => Some("回滚区向上滚动一行（视口移动，不一定改选中项）。\nCtrl+j 向下；半页/整页另有快捷键。"@),
        ActionId::ScrollDown => Some("回滚区向下滚动一行。\nCtrl+k 向上；Ctrl+u / Ctrl+d 为半页。"@),
        ActionId::HalfPageUp => Some("回滚区向上滚动约半屏。\n比逐行滚动更适合长输出；Ctrl+d（或 VS Code 下 D）向下半页。"@),
        ActionId::HalfPageDown => Some("回滚区向下滚动约半屏。\nVS Code 系终端用 D（避免与 Ctrl+D 退出冲突）；其他终端为 Ctrl+d。"@),
        ActionId::PageUp => Some("回滚区向上翻一整页（PageUp）。\nPageDown 向下。"@),
        ActionId::PageDown => Some("回滚区向下翻一整页（PageDown）。\nPageUp 向上。"@),
        ActionId::Collapse => Some("折叠当前选中条目，只保留标题/摘要行。\nh 或 ← 折叠；l 或 → 展开。\ne 可一键切换展开/折叠。"@),
        ActionId::Expand => Some("展开当前选中条目的完整正文。\nl 或 → 展开；h 或 ← 折叠。"@),
        ActionId::ToggleFold => Some("折叠或展开当前选中的回滚条目，隐藏或显示完整正文。\n适合浏览长工具输出或推理内容。\n相关：E 折叠/展开全部条目，Ctrl+E 切换全部思考块。"@),
        ActionId::ToggleExpandAll => Some("一次折叠或展开回滚区全部条目；e 只切换当前行。\n可先收起长对话扫标题，再全部展开。\n思考块另有 Ctrl+E 专用切换。"@),
        ActionId::ExpandAllThinking => Some("一键显示或隐藏整段对话中的代理思考（推理）块。\n需要看推理过程时展开，只需结果时收起。\n与 E 不同：E 会折叠任意类型的条目。"@),
        ActionId::ToggleRaw => Some("在渲染后的 Markdown 与原始源文本之间切换当前条目。\n便于复制精确 Markdown、查看链接目标或渲染器隐藏的格式。\n再按一次回到渲染视图。"@),
        ActionId::CopyBlockContent => Some("将选中块的正文复制到剪贴板：消息文本、完整工具输出或代码块内容。\n仅在支持复制的块上提供。\n只要命令行或文件路径时用 Y。"@),
        ActionId::CopyBlockMeta => Some("只复制块的标识：工具调用的命令行或文件块的路径，不含正文。\n便于重跑命令或把路径粘贴到别处。\n完整内容请用小写 y。"@),
        ActionId::OpenBlockViewer => Some("在可滚动的全屏查看器中打开选中块。\n适合长工具输出、大文件或需要离开周围对话单独阅读的代码。\nEsc 返回对话。"@),
        ActionId::OpenNextLink => Some("跳到并打开/高亮回滚中的下一个链接。\nO 为上一个。"@),
        ActionId::OpenPrevLink => Some("跳到并打开/高亮回滚中的上一个链接。\no 为下一个。"@),
        ActionId::Rewind => Some("将对话回退到更早的回合，恢复当时的文件快照并丢弃之后的变更。\n从列表选回合并选择恢复范围（全部、仅对话或仅文件）；若有进行中的回合会先提示取消，冲突或错误在结束后报告。\n破坏性操作：之后的回合会被丢弃。\n空闲且提示为空时也可 Esc Esc（800ms 内），等同 `/rewind`。"@),
        ActionId::KillBgTask => Some("终止选中任务块对应的后台进程（例如已转到后台的长 shell 命令）。\n用于停掉失控或不再需要的进程。\n仅对仍在运行的任务有效；已结束的不受影响。"@),
        ActionId::SendPrompt => Some("将当前提示发送给代理。\n空闲时 Enter 立即发送；回合进行中 Enter 会把内容排入队列，等当前回合结束后再发。\n要在运行中立刻打断并发送，用「立即发送」快捷键。"@),
        ActionId::FocusPrompt => Some("从回滚区回到提示输入框，继续打字。\nTab / i / 空格均可；在输入框内 Tab 则切到回滚区。"@),
        ActionId::FocusScrollback => Some("焦点从提示框移到回滚区，以便浏览对话记录。\n普通与 vim 回滚模式下 Tab 均可。\nEsc 留给清空草稿 / 回退策略，不用于切换焦点。"@),
        ActionId::CancelTurn => Some("中断当前代理回合并停止生成，会话保持打开。\n空提示时 Ctrl+C 取消回合；有草稿时先清空草稿。\n只停回合不停应用；退出请用退出快捷键。"@),
        ActionId::CycleMode => Some("循环切换会话模式：普通 → 计划 → 始终批准 → 普通。\n计划模式先规划且不写文件；始终批准不经确认直接跑工具。\nCtrl+O 可直接开关自动批准。"@),
        ActionId::ToggleTodos => Some("显示或隐藏待办面板：代理当前工作的实时任务清单。\n可边跑边看计划与剩余项。\n侧栏面板，关掉可腾出宽度。"@),
        ActionId::ToggleTasks => Some("显示或隐藏任务面板，列出后台任务及其状态。\n用于监视或回到用 Ctrl+G 转后台的工作。\n侧栏面板，关掉可腾出宽度。"@),
        ActionId::ToggleQueue => Some("显示或隐藏提示队列。\n回合进行中可把后续提示排入队列，代理结束后自动依次发送。\n本机 macOS VS Code 系：主键 Ctrl+4（备用 Ctrl+; / Ctrl+'）；其他环境主键 Ctrl+;，备用 Ctrl+'。"@),
        ActionId::OpenSessions => Some("打开会话浏览器，恢复或切换过去的对话。\n选中一项即可接回完整历史。\n与代理仪表盘（Ctrl+\\）不同：仪表盘同时管理多个在线代理。"@),
        ActionId::OpenExtensions => Some("打开扩展管理：MCP 服务器与插件，查看已连接项及其提供的工具。\n用于确认集成是否加载或浏览可用工具。\n与设置不同：设置放的是通用应用选项。"@),
        ActionId::SendToBackground => Some("将正在进行的回合拆到后台继续跑，同时你可阅读、排队提示或开别的事。\n在任务面板（Ctrl+B）跟踪与接回。\n仅在确实有回合在跑时有意义。"@),
        ActionId::InterjectPrompt => Some("在回合进行中把消息交给代理且不取消当前回合（插话），便于边跑边纠偏或补充上下文。\n进行中普通 Enter 会排队稍后发送；本快捷键把编辑器内容并入当前回合。\n编辑器为空时，裸 Enter（或本键）会从提示框强制发送队列顶部的后续项——无需聚焦队列面板。在队列面板上，本键强制发送选中行。\n用于不丢进度地改方向。"@),
        ActionId::EnableVoiceMode => Some("开始语音听写模式。\n实际开/关麦克风用 Ctrl+Space 或 F8（见「麦克风」项）。"@),
        ActionId::VoiceToggle => Some("麦克风听写，绑定 Ctrl+Space（或 F8——Ctrl+Space 被占用时，如 macOS 输入法切换；笔记本可用 Fn+F8）。\n行为跟随「语音捕获」设置：切换（再按停止）或按住说话（松开关闭；按住需 Kitty 协议终端，否则回退为切换）。`/voice` 处处可切换。\n语音会直接转录进提示框。"@),
        ActionId::ToggleMultiline => Some("切换持久多行提示，编辑器保持展开以便写更长消息。\n用 Shift+Enter 或 Alt+Enter（或行尾反斜杠）换行；裸 Enter 仍为发送。\n在提示框内 Ctrl+M 切多行；焦点不在提示框时 Ctrl+M 打开模型选择器。"@),
        ActionId::BashMode => Some("不离开聊天即可跑 shell：在空提示开头输入 !，再接命令。\n命令输出会写入回滚区。\n删掉开头的 ! 即回到普通提示。"@),
        ActionId::ToggleYolo => Some("为本会话打开或关闭自动批准（YOLO）。\n开启后代理的每次工具调用（编辑、shell、删除）都不再逐项确认。\n与 Shift+Tab 循环中的「始终批准」同一状态；请谨慎使用。"@),
        ActionId::NewSession => Some("开启空白回滚与上下文的新会话。\n需确认：连按两次（第一次预武装，第二次真正新建），\n避免误触丢掉当前对话。"@),
        ActionId::Quit => Some("退出应用。需确认：短时间内连按两次；单次按键视为误触并忽略。\n绑定 Ctrl+Q，Ctrl+D 为别名（VS Code 终端下 Ctrl+D 为主键）。"@),
        ActionId::CommandPalette => Some("模糊搜索全部动作与斜杠命令，按名称执行。\n记不住快捷键时很有用。\n回滚区聚焦时也可按 ? 打开。"@),
        ActionId::ShortcutsHelp => Some("打开本键盘速查表。\nj/k 浏览，e 展开行内说明，Enter 打开某快捷键的完整详情页。\n同时绑定 Ctrl+. 与 Ctrl+X；底栏会显示当前终端更可靠的那一个。"@),
        ActionId::ModelPicker => Some("打开模型选择器，切换本会话模型；选择对后续回合生效。\n绑定 Ctrl+M，但焦点在提示框时该键改为切换多行。\n可从回滚区或命令面板进入。"@),
        ActionId::OpenSettings => Some("打开应用设置（主题、语音、权限等常规选项）。\nF2 或 Ctrl+,（macOS 也可用 Cmd+,）。"@),
        ActionId::ToggleMouseCapture => Some("开关终端鼠标上报（鼠标捕获）。\n关闭后把选区交给终端原生拖选复制；再开则恢复应用内鼠标。\n仅回滚区 Ctrl+R；需在 config.toml 启用 mouse_reporting_toggle。"@),
        ActionId::OpenDashboard => Some("打开代理仪表盘：列出全部运行中与最近代理，便于监视与切换。\n欢迎页、会话内等任意位置可用。\n可在此派发、附着、停止、分组与重排代理。"@),
        ActionId::DashboardSelectNext => Some("仪表盘列表选中下一行代理。\n↓ / j 向下；↑ / k 向上。"@),
        ActionId::DashboardSelectPrev => Some("仪表盘列表选中上一行代理。\n↑ / k 向上；↓ / j 向下。"@),
        ActionId::DashboardTogglePin => Some("固定或取消固定选中代理，使其不受排序/分组影响而留在列表顶部。\n关心的代理可一直可见。\n固定状态跨仪表盘会话保留。"@),
        ActionId::DashboardBeginRename => Some("为选中代理重命名显示名称。\n便于在多代理列表中辨认。"@),
        ActionId::DashboardStop => Some("停止选中代理并从仪表盘移除该行；若有进行中的回合会先中断。\n无需附着即可清理已结束或不需要的代理。\n浮层内的等价操作（Ctrl+X）停止前需确认。"@),
        ActionId::DashboardCycleMode => Some("循环切换从仪表盘派发新代理时的模式：普通 → 计划 → 始终批准。\n计划让新代理先规划再改文件；始终批准不提示直接跑工具。\n与会话内 Shift+Tab 循环一致，作用于新派发。"@),
        ActionId::DashboardToggleGrouping => Some("在扁平列表与按状态分组（如工作中 / 空闲）之间切换仪表盘。\n分组突出需要关注的代理；扁平列表顺序更稳。\n选择会跨会话保留。"@),
        ActionId::DashboardReorderUp => Some("将选中代理在列表中上移一行。\nShift+↓ 下移。"@),
        ActionId::DashboardReorderDown => Some("将选中代理在列表中下移一行。\nShift+↑ 上移。"@),
        ActionId::DashboardShortcutsHelp => Some("显示仪表盘快捷键说明浮层。\n绑定 Ctrl+. 与 ?（主键视终端可靠性而定）。\n注意：仪表盘上 Ctrl+X 是停止，不是速查表。"@),
        ActionId::DashboardExit => Some("关闭仪表盘并回到先前位置。\nEsc 为级联：先关掉 peek 或清空过滤器，无挂起项时才真正退出。\n若把本动作重绑到其他键，则可直接退出。"@),
        ActionId::DashboardToggleAutoApprove => Some("不附着会话即可在仪表盘为选中代理开关自动批准（YOLO）。\n开启后该代理每次工具调用都不再确认。\n会话内等价操作为 Ctrl+O。"@),
        ActionId::DashboardOpenLocationPicker => Some("打开选择器，设置仪表盘新派发代理的工作目录。\n无需离开仪表盘即可对另一仓库或目录启动代理。\n只影响新派发，不影响已在运行的代理。"@),
        ActionId::DashboardToggleWorktree => Some("使下一次从仪表盘派发的代理在全新 git worktree 中启动，隔离到独立检出。\n仅当工作目录是 git 仓库时生效。\n只影响新派发，不影响已在运行的代理。"@),
        ActionId::DashboardOverlayExit => Some("离开已附着的会话浮层回到仪表盘列表，不停止代理。\n也可在回滚区按 q、中性状态下 Esc，或点关闭按钮。\n若要停止代理而不只是分离，用 Ctrl+X。"@),
        ActionId::DashboardOverlayPrev => Some("在仪表盘会话浮层中切换到上一会话。\nCtrl+] 为下一会话。"@),
        ActionId::DashboardOverlayNext => Some("在仪表盘会话浮层中切换到下一会话。\nCtrl+[ 为上一会话。"@),
        ActionId::DashboardOverlayStop => Some("在会话浮层内停止已附着的代理并关闭，回到仪表盘列表。\n需确认：连按两次 Ctrl+X。\n此处 Ctrl+. 仍打开速查表；仅 Ctrl+X 被停止占用。"@),
    }
}

/// The complete entry of `id` in the environment `env`.
pub open spec fn spec_action(id: ActionId, env: TerminalEnv) -> ActionSpec {
    ActionSpec {
        id,
        label: spec_label(id),
        description: spec_description(id),
        default_key: spec_default_key(id, env),
        alt_keys: spec_alt_keys(id, env),
        category: spec_category(id),
        context: spec_context(id),
        hint_priority: spec_hint_priority(id),
        hint_key_display: spec_hint_key_display(id),
        requires_confirmation: spec_requires_confirmation(id),
        long_help: spec_long_help(id),
    }
}

/// Builds the entry of `id` for the environment `env`.
pub fn action_def(id: ActionId, env: &TerminalEnv) -> (a: ActionDef)
    ensures
        a@ == spec_action(id, *env),
{
    let unreliable = ctrl_dot_unreliable(env);
    let local_mac_vscode = env.vscode_family && !env.ssh && env.macos;
    match id {
        ActionId::SelectNext => {
            ActionDef {
                id: ActionId::SelectNext,
                label: "导航",
                description: "选择下一项",
                default_key: KeyBinding::plain(KeyCode::Char('j')),
                alt_keys: vec![KeyBinding::plain(KeyCode::Down)],
                category: Category::ConversationNav,
                context: When::ScrollbackFocused,
                hint_priority: Some(0u8),
                hint_key_display: Some("j/k"),
                requires_confirmation: false,
                long_help: Some("在回滚区选中下一项（消息、工具输出等）。\nj / ↓ 向下移动；k / ↑ 向上。\n配合折叠、复制、查看器等操作使用。"),
            }
        },
        ActionId::SelectPrev => {
            ActionDef {
                id: ActionId::SelectPrev,
                label: "导航",
                description: "选择上一项",
                default_key: KeyBinding::plain(KeyCode::Char('k')),
                alt_keys: vec![KeyBinding::plain(KeyCode::Up)],
                category: Category::ConversationNav,
                context: When::ScrollbackFocused,
                hint_priority: None,
                hint_key_display: None,
                requires_confirmation: false,
                long_help: Some("在回滚区选中上一项。\nk / ↑ 向上；j / ↓ 向下。\n用于在长对话中定位要折叠、复制或查看的块。"),
            }
        },
        ActionId::NextTurn => {
            ActionDef {
                id: ActionId::NextTurn,
                label: "回合",
                description: "下一回合",
                default_key: KeyBinding::plain(KeyCode::Char('L')),
                alt_keys: vec![KeyBinding::new(KeyCode::Right, SHIFT)],
                category: Category::ConversationNav,
                context: When::ScrollbackFocused,
                hint_priority: Some(1u8),
                hint_key_display: None,
                requires_confirmation: false,
                long_help: Some("跳到下一个用户/代理回合边界。\n适合快速翻阅多轮对话，而不逐条扫消息。\nShift+H / Shift+← 为上一回合。"),
            }
        },
        ActionId::PrevTurn => {
            ActionDef {
                id: ActionId::PrevTurn,
                label: "回合",
                description: "上一回合",
                default_key: KeyBinding::plain(KeyCode::Char('H')),
                alt_keys: vec![KeyBinding::new(KeyCode::Left, SHIFT)],
                category: Category::ConversationNav,
                context: When::ScrollbackFocused,
                hint_priority: None,
                hint_key_display: None,
                requires_confirmation: false,
                long_help: Some("跳到上一个用户/代理回合边界。\n与 Shift+L 配对，便于在多轮之间来回对照。"),
            }
        },
        ActionId::NextResponse => {
            ActionDef {
                id: ActionId::NextResponse,
                label: "回复",
                description: "下一条回复",
                default_key: KeyBinding::plain(KeyCode::Char('J')),
                alt_keys: vec![],
                category: Category::ConversationNav,
                context: When::ScrollbackFocused,
                hint_priority: None,
                hint_key_display: None,
                requires_confirmation: false,
                long_help: Some("跳到下一条代理回复（跳过中间的工具块等）。\n想只看回答时比逐行 j 更快。"),
            }
        },
        ActionId::PrevResponse => {
            ActionDef {
                id: ActionId::PrevResponse,
                label: "回复",
                description: "上一条回复",
                default_key: KeyBinding::plain(KeyCode::Char('K')),
                alt_keys: vec![],
                category: Category::ConversationNav,
                context: When::ScrollbackFocused,
                hint_priority: None,
                hint_key_display: None,
                requires_confirmation: false,
                long_help: Some("跳到上一条代理回复。\n与 J 配对，便于对比相邻回答。"),
            }
        },
        ActionId::GotoTop => {
            ActionDef {
                id: ActionId::GotoTop,
                label: "顶/底",
                description: "跳到顶部",
                default_key: KeyBinding::plain(KeyCode::Char('g')),
                alt_keys: vec![],
                category: Category::ConversationNav,
                context: When::ScrollbackFocused,
                hint_priority: Some(4u8),
                hint_key_display: None,
                requires_confirmation: false,
                long_help: Some("跳到回滚区顶部（对话最开始）。\nG 跳到底部（最新内容）。"),
            }
        },
        ActionId::GotoBottom => {
            ActionDef {
                id: ActionId::GotoBottom,
                label: "底部",
                description: "跳到底部",
                default_key: KeyBinding::plain(KeyCode::Char('G')),
                alt_keys: vec![],
                category: Category::ConversationNav,
                context: When::ScrollbackFocused,
                hint_priority: None,
                hint_key_display: None,
                requires_confirmation: false,
                long_help: Some("跳到回滚区底部（最新消息）。\ng 跳到顶部。"),
            }
        },
        ActionId::ScrollUp => {
            ActionDef {
                id: ActionId::ScrollUp,
                label: "上滚",
                description: "向上滚动一行",
                default_key: KeyBinding::new(KeyCode::Char('k'), CONTROL),
                alt_keys: vec![],
                category: Category::ConversationNav,
                context: When::ScrollbackFocused,
                hint_priority: None,
                hint_key_display: None,
                requires_confirmation: false,
                long_help: Some("回滚区向上滚动一行（视口移动，不一定改选中项）。\nCtrl+j 向下；半页/整页另有快捷键。"),
            }
        },
        ActionId::ScrollDown => {
            ActionDef {
                id: ActionId::ScrollDown,
                label: "下滚",
                description: "向下滚动一行",
                default_key: KeyBinding::new(KeyCode::Char('j'), CONTROL),
                alt_keys: vec![],
                category: Category::ConversationNav,
                context: When::ScrollbackFocused,
                hint_priority: None,
                hint_key_display: None,
                requires_confirmation: false,
                long_help: Some("回滚区向下滚动一行。\nCtrl+k 向上；Ctrl+u / Ctrl+d 为半页。"),
            }
        },
        ActionId::HalfPageUp => {
            ActionDef {
                id: ActionId::HalfPageUp,
                label: "上半页",
                description: "向上半页",
                default_key: KeyBinding::new(KeyCode::Char('u'), CONTROL),
                alt_keys: vec![],
                category: Category::ConversationNav,
                context: When::ScrollbackFocused,
                hint_priority: None,
                hint_key_display: None,
                requires_confirmation: false,
                long_help: Some("回滚区向上滚动约半屏。\n比逐行滚动更适合长输出；Ctrl+d（或 VS Code 下 D）向下半页。"),
            }
        },
        ActionId::HalfPageDown => {
            ActionDef {
                id: ActionId::HalfPageDown,
                label: "下半页",
                description: "向下半页",
                default_key: if env.vscode_family { KeyBinding::plain(KeyCode::Char('D')) } else { KeyBinding::new(KeyCode::Char('d'), CONTROL) },
                alt_keys: vec![],
                category: Category::ConversationNav,
                context: When::ScrollbackFocused,
                hint_priority: None,
                hint_key_display: None,
                requires_confirmation: false,
                long_help: Some("回滚区向下滚动约半屏。\nVS Code 系终端用 D（避免与 Ctrl+D 退出冲突）；其他终端为 Ctrl+d。"),
            }
        },
        ActionId::PageUp => {
            ActionDef {
                id: ActionId::PageUp,
                label: "上页",
                description: "向上一页",
                default_key: KeyBinding::plain(KeyCode::PageUp),
                alt_keys: vec![],
                category: Category::ConversationNav,
                context: When::ScrollbackFocused,
                hint_priority: None,
                hint_key_display: None,
                requires_confirmation: false,
                long_help: Some("回滚区向上翻一整页（PageUp）。\nPageDown 向下。"),
            }
        },
        ActionId::PageDown => {
            ActionDef {
                id: ActionId::PageDown,
                label: "下页",
                description: "向下一页",
                default_key: KeyBinding::plain(KeyCode::PageDown),
                alt_keys: vec![],
                category: Category::ConversationNav,
                context: When::ScrollbackFocused,
                hint_priority: None,
                hint_key_display: None,
                requires_confirmation: false,
                long_help: Some("回滚区向下翻一整页（PageDown）。\nPageUp 向上。"),
            }
        },
        ActionId::Collapse => {
            ActionDef {
                id: ActionId::Collapse,
                label: "折叠",
                description: "折叠选中项",
                default_key: KeyBinding::plain(KeyCode::Char('h')),
                alt_keys: vec![KeyBinding::plain(KeyCode::Left)],
                category: Category::ConversationAction,
                context: When::ScrollbackFocused,
                hint_priority: None,
                hint_key_display: None,
                requires_confirmation: false,
                long_help: Some("折叠当前选中条目，只保留标题/摘要行。\nh 或 ← 折叠；l 或 → 展开。\ne 可一键切换展开/折叠。"),
            }
        },
        ActionId::Expand => {
            ActionDef {
                id: ActionId::Expand,
                label: "折叠",
                description: "展开选中项",
                default_key: KeyBinding::plain(KeyCode::Char('l')),
                alt_keys: vec![KeyBinding::plain(KeyCode::Right)],
                category: Category::ConversationAction,
                context: When::ScrollbackFocused,
                hint_priority: None,
                hint_key_display: None,
                requires_confirmation: false,
                long_help: Some("展开当前选中条目的完整正文。\nl 或 → 展开；h 或 ← 折叠。"),
            }
        },
        ActionId::ToggleFold => {
            ActionDef {
                id: ActionId::ToggleFold,
                label: "折叠",
                description: "展开/折叠",
                default_key: KeyBinding::plain(KeyCode::Char('e')),
                alt_keys: vec![],
                category: Category::ConversationAction,
                context: When::ScrollbackFocused,
                hint_priority: Some(3u8),
                hint_key_display: None,
                requires_confirmation: false,
                long_help: Some("折叠或展开当前选中的回滚条目，隐藏或显示完整正文。\n适合浏览长工具输出或推理内容。\n相关：E 折叠/展开全部条目，Ctrl+E 切换全部思考块。"),
            }
        },
        ActionId::ToggleExpandAll => {
            ActionDef {
                id: ActionId::ToggleExpandAll,
                label: "全部",
                description: "全部展开/折叠",
                default_key: KeyBinding::plain(KeyCode::Char('E')),
                alt_keys: vec![],
                category: Category::ConversationAction,
                context: When::ScrollbackFocused,
                hint_priority: None,
                hint_key_display: None,
                requires_confirmation: false,
                long_help: Some("一次折叠或展开回滚区全部条目；e 只切换当前行。\n可先收起长对话扫标题，再全部展开。\n思考块另有 Ctrl+E 专用切换。"),
            }
        },
        ActionId::ExpandAllThinking => {
            ActionDef {
                id: ActionId::ExpandAllThinking,
                label: "展开/折叠思考",
                description: "切换全部思考块",
                default_key: KeyBinding::new(KeyCode::Char('e'), CONTROL),
                alt_keys: vec![],
                category: Category::ConversationAction,
                context: When::ScrollbackFocused,
                hint_priority: Some(3u8),
                hint_key_display: None,
                requires_confirmation: false,
                long_help: Some("一键显示或隐藏整段对话中的代理思考（推理）块。\n需要看推理过程时展开，只需结果时收起。\n与 E 不同：E 会折叠任意类型的条目。"),
            }
        },
        ActionId::ToggleRaw => {
            ActionDef {
                id: ActionId::ToggleRaw,
                label: "原始",
                description: "切换原始 Markdown",
                default_key: KeyBinding::plain(KeyCode::Char('r')),
                alt_keys: vec![],
                category: Category::ConversationAction,
                context: When::ScrollbackFocused,
                hint_priority: None,
                hint_key_display: None,
                requires_confirmation: false,
                long_help: Some("在渲染后的 Markdown 与原始源文本之间切换当前条目。\n便于复制精确 Markdown、查看链接目标或渲染器隐藏的格式。\n再按一次回到渲染视图。"),
            }
        },
        ActionId::CopyBlockContent => {
            ActionDef {
                id: ActionId::CopyBlockContent,
                label: "复制",
                description: "复制内容",
                default_key: KeyBinding::plain(KeyCode::Char('y')),
                alt_keys: vec![],
                category: Category::ConversationAction,
                context: When::ScrollbackFocused,
                hint_priority: None,
                hint_key_display: None,
                requires_confirmation: false,
                long_help: Some("将选中块的正文复制到剪贴板：消息文本、完整工具输出或代码块内容。\n仅在支持复制的块上提供。\n只要命令行或文件路径时用 Y。"),
            }
        },
        ActionId::CopyBlockMeta => {
            ActionDef {
                id: ActionId::CopyBlockMeta,
                label: "复制命令",
                description: "复制命令/路径",
                default_key: KeyBinding::plain(KeyCode::Char('Y')),
                alt_keys: vec![],
                category: Category::ConversationAction,
                context: When::ScrollbackFocused,
                hint_priority: None,
                hint_key_display: None,
                requires_confirmation: false,
                long_help: Some("只复制块的标识：工具调用的命令行或文件块的路径，不含正文。\n便于重跑命令或把路径粘贴到别处。\n完整内容请用小写 y。"),
            }
        },
        ActionId::OpenBlockViewer => {
            ActionDef {
                id: ActionId::OpenBlockViewer,
                label: "查看",
                description: "在查看器中打开",
                default_key: KeyBinding::plain(KeyCode::Enter),
                alt_keys: vec![KeyBinding::new(KeyCode::Char('f'), CONTROL)],
                category: Category::ConversationAction,
                context: When::ScrollbackFocused,
                hint_priority: None,
                hint_key_display: None,
                requires_confirmation: false,
                long_help: Some("在可滚动的全屏查看器中打开选中块。\n适合长工具输出、大文件或需要离开周围对话单独阅读的代码。\nEsc 返回对话。"),
            }
        },
        ActionId::OpenNextLink => {
            ActionDef {
                id: ActionId::OpenNextLink,
                label: "链接",
                description: "下一个链接",
                default_key: KeyBinding::plain(KeyCode::Char('o')),
                alt_keys: vec![],
                category: Category::ConversationNav,
                context: When::ScrollbackFocused,
                hint_priority: None,
                hint_key_display: None,
                requires_confirmation: false,
                long_help: Some("跳到并打开/高亮回滚中的下一个链接。\nO 为上一个。"),
            }
        },
        ActionId::OpenPrevLink => {
            ActionDef {
                id: ActionId::OpenPrevLink,
                label: "链接",
                description: "上一个链接",
                default_key: KeyBinding::plain(KeyCode::Char('O')),
                alt_keys: vec![],
                category: Category::ConversationNav,
                context: When::ScrollbackFocused,
                hint_priority: None,
                hint_key_display: None,
                requires_confirmation: false,
                long_help: Some("跳到并打开/高亮回滚中的上一个链接。\no 为下一个。"),
            }
        },
        ActionId::Rewind => {
            ActionDef {
                id: ActionId::Rewind,
                label: "回退",
                description: "回退到选中回合",
                default_key: KeyBinding::plain(KeyCode::Null),
                alt_keys: vec![],
                category: Category::ConversationAction,
                context: When::ScrollbackFocused,
                hint_priority: None,
                hint_key_display: None,
                requires_confirmation: false,
                long_help: Some("将对话回退到更早的回合，恢复当时的文件快照并丢弃之后的变更。\n从列表选回合并选择恢复范围（全部、仅对话或仅文件）；若有进行中的回合会先提示取消，冲突或错误在结束后报告。\n破坏性操作：之后的回合会被丢弃。\n空闲且提示为空时也可 Esc Esc（800ms 内），等同 `/rewind`。"),
            }
        },
        ActionId::KillBgTask => {
            ActionDef {
                id: ActionId::KillBgTask,
                label: "终止",
                description: "终止后台任务",
                default_key: KeyBinding::plain(KeyCode::Char('x')),
                alt_keys: vec![],
                category: Category::ConversationAction,
                context: When::ScrollbackFocused,
                hint_priority: None,
                hint_key_display: None,
                requires_confirmation: false,
                long_help: Some("终止选中任务块对应的后台进程（例如已转到后台的长 shell 命令）。\n用于停掉失控或不再需要的进程。\n仅对仍在运行的任务有效；已结束的不受影响。"),
            }
        },
        ActionId::SendPrompt => {
            ActionDef {
                id: ActionId::SendPrompt,
                label: "发送",
                description: "发送",
                default_key: KeyBinding::plain(KeyCode::Enter),
                alt_keys: vec![],
                category: Category::GettingStarted,
                context: When::PromptFocused,
                hint_priority: None,
                hint_key_display: None,
                requires_confirmation: false,
                long_help: Some("将当前提示发送给代理。\n空闲时 Enter 立即发送；回合进行中 Enter 会把内容排入队列，等当前回合结束后再发。\n要在运行中立刻打断并发送，用「立即发送」快捷键。"),
            }
        },
        ActionId::FocusPrompt => {
            ActionDef {
                id: ActionId::FocusPrompt,
                label: "输入",
                description: "聚焦输入框",
                default_key: KeyBinding::plain(KeyCode::Tab),
                alt_keys: vec![KeyBinding::plain(KeyCode::Char('i')), KeyBinding::plain(KeyCode::Char(' '))],
                category: Category::GettingStarted,
                context: When::ScrollbackFocused,
                hint_priority: None,
                hint_key_display: None,
                requires_confirmation: false,
                long_help: Some("从回滚区回到提示输入框，继续打字。\nTab / i / 空格均可；在输入框内 Tab 则切到回滚区。"),
            }
        },
        ActionId::FocusScrollback => {
            ActionDef {
                id: ActionId::FocusScrollback,
                label: "回滚",
                description: "聚焦回滚区",
                default_key: KeyBinding::plain(KeyCode::Tab),
                alt_keys: vec![],
                category: Category::GettingStarted,
                context: When::PromptFocused,
                hint_priority: None,
                hint_key_display: None,
                requires_confirmation: false,
                long_help: Some("焦点从提示框移到回滚区，以便浏览对话记录。\n普通与 vim 回滚模式下 Tab 均可。\nEsc 留给清空草稿 / 回退策略，不用于切换焦点。"),
            }
        },
        ActionId::CancelTurn => {
            ActionDef {
                id: ActionId::CancelTurn,
                label: "取消",
                description: "取消回合",
                default_key: KeyBinding::new(KeyCode::Char('c'), CONTROL),
                alt_keys: vec![],
                category: Category::GettingStarted,
                context: When::AgentScreen,
                hint_priority: None,
                hint_key_display: None,
                requires_confirmation: false,
                long_help: Some("中断当前代理回合并停止生成，会话保持打开。\n空提示时 Ctrl+C 取消回合；有草稿时先清空草稿。\n只停回合不停应用；退出请用退出快捷键。"),
            }
        },
        ActionId::CycleMode => {
            // Every Shift+Tab encoding: the first as primary, the SHIFT-bearing ones as alternates.
            let mut alt_keys = shift_tab_keys();
            let default_key = alt_keys.remove(0);
            ActionDef {
                id: ActionId::CycleMode,
                label: "模式",
                description: "切换模式（普通/计划/始终批准）",
                default_key: default_key,
                alt_keys: alt_keys,
                category: Category::GettingStarted,
                context: When::PromptFocused,
                hint_priority: None,
                hint_key_display: Some("Shift+Tab"),
                requires_confirmation: false,
                long_help: Some("循环切换会话模式：普通 → 计划 → 始终批准 → 普通。\n计划模式先规划且不写文件；始终批准不经确认直接跑工具。\nCtrl+O 可直接开关自动批准。"),
            }
        },
        ActionId::ToggleTodos => {
            ActionDef {
                id: ActionId::ToggleTodos,
                label: "待办",
                description: "切换待办面板",
                default_key: KeyBinding::new(KeyCode::Char('t'), CONTROL),
                alt_keys: vec![],
                category: Category::Panels,
                context: When::AgentScreen,
                hint_priority: None,
                hint_key_display: None,
                requires_confirmation: false,
                long_help: Some("显示或隐藏待办面板：代理当前工作的实时任务清单。\n可边跑边看计划与剩余项。\n侧栏面板，关掉可腾出宽度。"),
            }
        },
        ActionId::ToggleTasks => {
            ActionDef {
                id: ActionId::ToggleTasks,
                label: "任务",
                description: "切换任务面板",
                default_key: KeyBinding::new(KeyCode::Char('b'), CONTROL),
                alt_keys: vec![],
                category: Category::Panels,
                context: When::AgentScreen,
                hint_priority: None,
                hint_key_display: None,
                requires_confirmation: false,
                long_help: Some("显示或隐藏任务面板，列出后台任务及其状态。\n用于监视或回到用 Ctrl+G 转后台的工作。\n侧栏面板，关掉可腾出宽度。"),
            }
        },
        ActionId::ToggleQueue => {
            ActionDef {
                id: ActionId::ToggleQueue,
                label: "队列",
                description: "切换提示队列",
                default_key: if local_mac_vscode { KeyBinding::new(KeyCode::Char('4'), CONTROL) } else { KeyBinding::new(KeyCode::Char(';'), CONTROL) },
                alt_keys: if local_mac_vscode { vec![KeyBinding::new(KeyCode::Char(';'), CONTROL), KeyBinding::new(KeyCode::Char('\''), CONTROL)] } else { vec![KeyBinding::new(KeyCode::Char('\''), CONTROL)] },
                category: Category::Panels,
                context: When::AgentScreen,
                hint_priority: None,
                hint_key_display: None,
                requires_confirmation: false,
                long_help: Some("显示或隐藏提示队列。\n回合进行中可把后续提示排入队列，代理结束后自动依次发送。\n本机 macOS VS Code 系：主键 Ctrl+4（备用 Ctrl+; / Ctrl+'）；其他环境主键 Ctrl+;，备用 Ctrl+'。"),
            }
        },
        ActionId::OpenSessions => {
            ActionDef {
                id: ActionId::OpenSessions,
                label: "会话",
                description: "打开会话列表",
                default_key: KeyBinding::new(KeyCode::Char('s'), CONTROL),
                alt_keys: vec![],
                category: Category::Panels,
                context: When::AgentScreen,
                hint_priority: None,
                hint_key_display: None,
                requires_confirmation: false,
                long_help: Some("打开会话浏览器，恢复或切换过去的对话。\n选中一项即可接回完整历史。\n与代理仪表盘（Ctrl+\\）不同：仪表盘同时管理多个在线代理。"),
            }
        },
        ActionId::OpenExtensions => {
            ActionDef {
                id: ActionId::OpenExtensions,
                label: "扩展",
                description: "打开扩展",
                default_key: if env.vscode_family { KeyBinding::plain(KeyCode::Null) } else { KeyBinding::new(KeyCode::Char('l'), CONTROL) },
                alt_keys: vec![],
                category: Category::Panels,
                context: When::AgentScreen,
                hint_priority: None,
                hint_key_display: None,
                requires_confirmation: false,
                long_help: Some("打开扩展管理：MCP 服务器与插件，查看已连接项及其提供的工具。\n用于确认集成是否加载或浏览可用工具。\n与设置不同：设置放的是通用应用选项。"),
            }
        },
        ActionId::SendToBackground => {
            ActionDef {
                id: ActionId::SendToBackground,
                label: "转后台",
                description: "将运行中任务转到后台",
                default_key: KeyBinding::new(KeyCode::Char('g'), CONTROL),
                alt_keys: vec![],
                category: Category::Panels,
                context: When::AgentScreen,
                hint_priority: None,
                hint_key_display: None,
                requires_confirmation: false,
                long_help: Some("将正在进行的回合拆到后台继续跑，同时你可阅读、排队提示或开别的事。\n在任务面板（Ctrl+B）跟踪与接回。\n仅在确实有回合在跑时有意义。"),
            }
        },
        ActionId::InterjectPrompt => {
            ActionDef {
                id: ActionId::InterjectPrompt,
                label: "立即发送",
                description: "运行中立即发送（会取消当前回合）",
                default_key: if env.apple_terminal { KeyBinding::new(KeyCode::Char('o'), CONTROL) } else if env.vscode_family { KeyBinding::new(KeyCode::Char('l'), CONTROL) } else { KeyBinding::new(KeyCode::Enter, CONTROL) },
                alt_keys: if env.apple_terminal { vec![KeyBinding::new(KeyCode::Enter, CONTROL), KeyBinding::new(KeyCode::Char('i'), CONTROL)] } else if env.vscode_family { vec![] } else { vec![KeyBinding::new(KeyCode::Char('i'), CONTROL)] },
                category: Category::Input,
                context: When::PromptFocused,
                hint_priority: None,
                hint_key_display: None,
                requires_confirmation: false,
                long_help: Some("在回合进行中把消息交给代理且不取消当前回合（插话），便于边跑边纠偏或补充上下文。\n进行中普通 Enter 会排队稍后发送；本快捷键把编辑器内容并入当前回合。\n编辑器为空时，裸 Enter（或本键）会从提示框强制发送队列顶部的后续项——无需聚焦队列面板。在队列面板上，本键强制发送选中行。\n用于不丢进度地改方向。"),
            }
        },
        ActionId::EnableVoiceMode => {
            ActionDef {
                id: ActionId::EnableVoiceMode,
                label: "语音",
                description: "开始语音听写（Ctrl+Space / F8）",
                default_key: KeyBinding::plain(KeyCode::Null),
                alt_keys: vec![],
                category: Category::Input,
                context: When::AgentScreen,
                hint_priority: None,
                hint_key_display: None,
                requires_confirmation: false,
                long_help: Some("开始语音听写模式。\n实际开/关麦克风用 Ctrl+Space 或 F8（见「麦克风」项）。"),
            }
        },
        ActionId::VoiceToggle => {
            ActionDef {
                id: ActionId::VoiceToggle,
                label: "麦克风",
                description: "语音听写（Ctrl+Space / F8）",
                default_key: KeyBinding::new(KeyCode::Char(' '), CONTROL),
                alt_keys: vec![KeyBinding::plain(KeyCode::F(8))],
                category: Category::Input,
                context: When::Always,
                hint_priority: Some(11u8),
                hint_key_display: Some("Ctrl+Space / F8"),
                requires_confirmation: false,
                long_help: Some("麦克风听写，绑定 Ctrl+Space（或 F8——Ctrl+Space 被占用时，如 macOS 输入法切换；笔记本可用 Fn+F8）。\n行为跟随「语音捕获」设置：切换（再按停止）或按住说话（松开关闭；按住需 Kitty 协议终端，否则回退为切换）。`/voice` 处处可切换。\n语音会直接转录进提示框。"),
            }
        },
        ActionId::ToggleMultiline => {
            ActionDef {
                id: ActionId::ToggleMultiline,
                label: "多行",
                description: "切换多行",
                default_key: KeyBinding::new(KeyCode::Char('m'), CONTROL),
                alt_keys: vec![],
                category: Category::Input,
                context: When::PromptFocused,
                hint_priority: None,
                hint_key_display: None,
                requires_confirmation: false,
                long_help: Some("切换持久多行提示，编辑器保持展开以便写更长消息。\n用 Shift+Enter 或 Alt+Enter（或行尾反斜杠）换行；裸 Enter 仍为发送。\n在提示框内 Ctrl+M 切多行；焦点不在提示框时 Ctrl+M 打开模型选择器。"),
            }
        },
        ActionId::BashMode => {
            ActionDef {
                id: ActionId::BashMode,
                label: "Shell",
                description: "Shell 模式（空输入时输入 !）",
                default_key: KeyBinding::plain(KeyCode::Char('!')),
                alt_keys: vec![],
                category: Category::Input,
                context: When::PromptFocused,
                hint_priority: None,
                hint_key_display: Some("!"),
                requires_confirmation: false,
                long_help: Some("不离开聊天即可跑 shell：在空提示开头输入 !，再接命令。\n命令输出会写入回滚区。\n删掉开头的 ! 即回到普通提示。"),
            }
        },
        ActionId::ToggleYolo => {
            ActionDef {
                id: ActionId::ToggleYolo,
                label: "始终批准",
                description: "切换始终批准",
                default_key: KeyBinding::new(KeyCode::Char('o'), CONTROL),
                alt_keys: vec![],
                category: Category::Session,
                context: When::AgentScreen,
                hint_priority: None,
                hint_key_display: None,
                requires_confirmation: false,
                long_help: Some("为本会话打开或关闭自动批准（YOLO）。\n开启后代理的每次工具调用（编辑、shell、删除）都不再逐项确认。\n与 Shift+Tab 循环中的「始终批准」同一状态；请谨慎使用。"),
            }
        },
        ActionId::NewSession => {
            ActionDef {
                id: ActionId::NewSession,
                label: "新建",
                description: "新会话",
                default_key: KeyBinding::new(KeyCode::Char('n'), CONTROL),
                alt_keys: vec![],
                category: Category::Session,
                context: When::Always,
                hint_priority: None,
                hint_key_display: None,
                requires_confirmation: true,
                long_help: Some("开启空白回滚与上下文的新会话。\n需确认：连按两次（第一次预武装，第二次真正新建），\n避免误触丢掉当前对话。"),
            }
        },
        ActionId::Quit => {
            ActionDef {
                id: ActionId::Quit,
                label: "退出",
                description: "退出",
                default_key: if env.vscode_family { KeyBinding::new(KeyCode::Char('d'), CONTROL) } else { KeyBinding::new(KeyCode::Char('q'), CONTROL) },
                alt_keys: if env.vscode_family { vec![] } else { vec![KeyBinding::new(KeyCode::Char('d'), CONTROL)] },
                category: Category::GettingStarted,
                context: When::Always,
                hint_priority: Some(10u8),
                hint_key_display: None,
                requires_confirmation: true,
                long_help: Some("退出应用。需确认：短时间内连按两次；单次按键视为误触并忽略。\n绑定 Ctrl+Q，Ctrl+D 为别名（VS Code 终端下 Ctrl+D 为主键）。"),
            }
        },
        ActionId::CommandPalette => {
            ActionDef {
                id: ActionId::CommandPalette,
                label: "命令",
                description: "命令面板",
                default_key: KeyBinding::new(KeyCode::Char('p'), CONTROL),
                alt_keys: vec![KeyBinding::plain(KeyCode::Char('?'))],
                category: Category::GettingStarted,
                context: When::AgentScreen,
                hint_priority: Some(5u8),
                hint_key_display: Some("?"),
                requires_confirmation: false,
                long_help: Some("模糊搜索全部动作与斜杠命令，按名称执行。\n记不住快捷键时很有用。\n回滚区聚焦时也可按 ? 打开。"),
            }
        },
        ActionId::ShortcutsHelp => {
            ActionDef {
                id: ActionId::ShortcutsHelp,
                label: "快捷键",
                description: "键盘快捷键",
                default_key: if unreliable { KeyBinding::new(KeyCode::Char('x'), CONTROL) } else { KeyBinding::new(KeyCode::Char('.'), CONTROL) },
                alt_keys: vec![if unreliable { KeyBinding::new(KeyCode::Char('.'), CONTROL) } else { KeyBinding::new(KeyCode::Char('x'), CONTROL) }],
                category: Category::GettingStarted,
                context: When::AgentScreen,
                hint_priority: None,
                hint_key_display: None,
                requires_confirmation: false,
                long_help: Some("打开本键盘速查表。\nj/k 浏览，e 展开行内说明，Enter 打开某快捷键的完整详情页。\n同时绑定 Ctrl+. 与 Ctrl+X；底栏会显示当前终端更可靠的那一个。"),
            }
        },
        ActionId::ModelPicker => {
            ActionDef {
                id: ActionId::ModelPicker,
                label: "模型",
                description: "选择模型",
                default_key: KeyBinding::new(KeyCode::Char('m'), CONTROL),
                alt_keys: vec![],
                category: Category::Session,
                context: When::AgentScreen,
                hint_priority: None,
                hint_key_display: None,
                requires_confirmation: false,
                long_help: Some("打开模型选择器，切换本会话模型；选择对后续回合生效。\n绑定 Ctrl+M，但焦点在提示框时该键改为切换多行。\n可从回滚区或命令面板进入。"),
            }
        },
        ActionId::OpenSettings => {
            ActionDef {
                id: ActionId::OpenSettings,
                label: "设置",
                description: "打开设置",
                default_key: KeyBinding::plain(KeyCode::F(2)),
                alt_keys: vec![KeyBinding::new(KeyCode::Char(','), CONTROL), KeyBinding::new(KeyCode::Char(','), SUPER)],
                category: Category::GettingStarted,
                context: When::AgentScreen,
                hint_priority: None,
                hint_key_display: None,
                requires_confirmation: false,
                long_help: Some("打开应用设置（主题、语音、权限等常规选项）。\nF2 或 Ctrl+,（macOS 也可用 Cmd+,）。"),
            }
        },
        ActionId::ToggleMouseCapture => {
            ActionDef {
                id: ActionId::ToggleMouseCapture,
                label: "鼠标上报",
                description: "切换鼠标上报（原生复制粘贴）",
                default_key: KeyBinding::new(KeyCode::Char('r'), CONTROL),
                alt_keys: vec![],
                category: Category::Panels,
                context: When::ScrollbackFocused,
                hint_priority: None,
                hint_key_display: Some("Ctrl+r"),
                requires_confirmation: false,
                long_help: Some("开关终端鼠标上报（鼠标捕获）。\n关闭后把选区交给终端原生拖选复制；再开则恢复应用内鼠标。\n仅回滚区 Ctrl+R；需在 config.toml 启用 mouse_reporting_toggle。"),
            }
        },
        ActionId::OpenDashboard => {
            ActionDef {
                id: ActionId::OpenDashboard,
                label: "仪表盘",
                description: "打开代理仪表盘",
                default_key: KeyBinding::new(KeyCode::Char('\\'), CONTROL),
                alt_keys: vec![],
                category: Category::Dashboard,
                context: When::Always,
                hint_priority: None,
                hint_key_display: Some("Ctrl+\\"),
                requires_confirmation: false,
                long_help: Some("打开代理仪表盘：列出全部运行中与最近代理，便于监视与切换。\n欢迎页、会话内等任意位置可用。\n可在此派发、附着、停止、分组与重排代理。"),
            }
        },
        ActionId::DashboardSelectNext => {
            ActionDef {
                id: ActionId::DashboardSelectNext,
                label: "下一行",
                description: "选择下一行",
                default_key: KeyBinding::plain(KeyCode::Down),
                alt_keys: vec![KeyBinding::plain(KeyCode::Char('j'))],
                category: Category::Dashboard,
                context: When::DashboardFocused,
                hint_priority: None,
                hint_key_display: Some("\u{2191}\u{2193}"),
                requires_confirmation: false,
                long_help: Some("仪表盘列表选中下一行代理。\n↓ / j 向下；↑ / k 向上。"),
            }
        },
        ActionId::DashboardSelectPrev => {
            ActionDef {
                id: ActionId::DashboardSelectPrev,
                label: "上一行",
                description: "选择上一行",
                default_key: KeyBinding::plain(KeyCode::Up),
                alt_keys: vec![KeyBinding::plain(KeyCode::Char('k'))],
                category: Category::Dashboard,
                context: When::DashboardFocused,
                hint_priority: None,
                hint_key_display: None,
                requires_confirmation: false,
                long_help: Some("仪表盘列表选中上一行代理。\n↑ / k 向上；↓ / j 向下。"),
            }
        },
        ActionId::DashboardTogglePin => {
            ActionDef {
                id: ActionId::DashboardTogglePin,
                label: "固定",
                description: "固定/取消固定代理",
                default_key: KeyBinding::new(KeyCode::Char('t'), CONTROL),
                alt_keys: vec![],
                category: Category::Dashboard,
                context: When::DashboardFocused,
                hint_priority: None,
                hint_key_display: None,
                requires_confirmation: false,
                long_help: Some("固定或取消固定选中代理，使其不受排序/分组影响而留在列表顶部。\n关心的代理可一直可见。\n固定状态跨仪表盘会话保留。"),
            }
        },
        ActionId::DashboardBeginRename => {
            ActionDef {
                id: ActionId::DashboardBeginRename,
                label: "重命名",
                description: "重命名代理",
                default_key: KeyBinding::new(KeyCode::Char('r'), CONTROL),
                alt_keys: vec![],
                category: Category::Dashboard,
                context: When::DashboardFocused,
                hint_priority: None,
                hint_key_display: None,
                requires_confirmation: false,
                long_help: Some("为选中代理重命名显示名称。\n便于在多代理列表中辨认。"),
            }
        },
        ActionId::DashboardStop => {
            ActionDef {
                id: ActionId::DashboardStop,
                label: "停止",
                description: "停止/关闭代理",
                default_key: KeyBinding::new(KeyCode::Char('x'), CONTROL),
                alt_keys: vec![],
                category: Category::Dashboard,
                context: When::DashboardFocused,
                hint_priority: None,
                hint_key_display: None,
                requires_confirmation: false,
                long_help: Some("停止选中代理并从仪表盘移除该行；若有进行中的回合会先中断。\n无需附着即可清理已结束或不需要的代理。\n浮层内的等价操作（Ctrl+X）停止前需确认。"),
            }
        },
        ActionId::DashboardCycleMode => {
            // Every Shift+Tab encoding: the first as primary, the SHIFT-bearing ones as alternates.
            let mut alt_keys = shift_tab_keys();
            let default_key = alt_keys.remove(0);
            ActionDef {
                id: ActionId::DashboardCycleMode,
                label: "模式",
                description: "切换派发模式",
                default_key: default_key,
                alt_keys: alt_keys,
                category: Category::Dashboard,
                context: When::DashboardFocused,
                hint_priority: None,
                hint_key_display: Some("Shift+Tab"),
                requires_confirmation: false,
                long_help: Some("循环切换从仪表盘派发新代理时的模式：普通 → 计划 → 始终批准。\n计划让新代理先规划再改文件；始终批准不提示直接跑工具。\n与会话内 Shift+Tab 循环一致，作用于新派发。"),
            }
        },
        ActionId::DashboardToggleGrouping => {
            ActionDef {
                id: ActionId::DashboardToggleGrouping,
                label: "分组",
                description: "切换行分组",
                default_key: KeyBinding::new(KeyCode::Char('g'), CONTROL),
                alt_keys: vec![],
                category: Category::Dashboard,
                context: When::DashboardFocused,
                hint_priority: None,
                hint_key_display: None,
                requires_confirmation: false,
                long_help: Some("在扁平列表与按状态分组（如工作中 / 空闲）之间切换仪表盘。\n分组突出需要关注的代理；扁平列表顺序更稳。\n选择会跨会话保留。"),
            }
        },
        ActionId::DashboardReorderUp => {
            ActionDef {
                id: ActionId::DashboardReorderUp,
                label: "上移",
                description: "代理上移",
                default_key: KeyBinding::new(KeyCode::Up, SHIFT),
                alt_keys: vec![],
                category: Category::Dashboard,
                context: When::DashboardFocused,
                hint_priority: None,
                hint_key_display: Some("Shift+\u{2191}"),
                requires_confirmation: false,
                long_help: Some("将选中代理在列表中上移一行。\nShift+↓ 下移。"),
            }
        },
        ActionId::DashboardReorderDown => {
            ActionDef {
                id: ActionId::DashboardReorderDown,
                label: "下移",
                description: "代理下移",
                default_key: KeyBinding::new(KeyCode::Down, SHIFT),
                alt_keys: vec![],
                category: Category::Dashboard,
                context: When::DashboardFocused,
                hint_priority: None,
                hint_key_display: None,
                requires_confirmation: false,
                long_help: Some("将选中代理在列表中下移一行。\nShift+↑ 上移。"),
            }
        },
        ActionId::DashboardShortcutsHelp => {
            ActionDef {
                id: ActionId::DashboardShortcutsHelp,
                label: "快捷键",
                description: "显示快捷键浮层",
                default_key: if unreliable { KeyBinding::plain(KeyCode::Char('?')) } else { KeyBinding::new(KeyCode::Char('.'), CONTROL) },
                alt_keys: vec![if unreliable { KeyBinding::new(KeyCode::Char('.'), CONTROL) } else { KeyBinding::plain(KeyCode::Char('?')) }],
                category: Category::Dashboard,
                context: When::DashboardFocused,
                hint_priority: None,
                hint_key_display: None,
                requires_confirmation: false,
                long_help: Some("显示仪表盘快捷键说明浮层。\n绑定 Ctrl+. 与 ?（主键视终端可靠性而定）。\n注意：仪表盘上 Ctrl+X 是停止，不是速查表。"),
            }
        },
        ActionId::DashboardExit => {
            ActionDef {
                id: ActionId::DashboardExit,
                label: "退出",
                description: "关闭仪表盘",
                default_key: KeyBinding::plain(KeyCode::Esc),
                alt_keys: vec![],
                category: Category::Dashboard,
                context: When::DashboardFocused,
                hint_priority: None,
                hint_key_display: Some("Esc"),
                requires_confirmation: false,
                long_help: Some("关闭仪表盘并回到先前位置。\nEsc 为级联：先关掉 peek 或清空过滤器，无挂起项时才真正退出。\n若把本动作重绑到其他键，则可直接退出。"),
            }
        },
        ActionId::DashboardToggleAutoApprove => {
            ActionDef {
                id: ActionId::DashboardToggleAutoApprove,
                label: "始终批准",
                description: "切换始终批准",
                default_key: KeyBinding::new(KeyCode::Char('o'), CONTROL),
                alt_keys: vec![],
                category: Category::Dashboard,
                context: When::DashboardFocused,
                hint_priority: None,
                hint_key_display: Some("Ctrl+O"),
                requires_confirmation: false,
                long_help: Some("不附着会话即可在仪表盘为选中代理开关自动批准（YOLO）。\n开启后该代理每次工具调用都不再确认。\n会话内等价操作为 Ctrl+O。"),
            }
        },
        ActionId::DashboardOpenLocationPicker => {
            ActionDef {
                id: ActionId::DashboardOpenLocationPicker,
                label: "位置",
                description: "更改新代理工作目录",
                default_key: KeyBinding::new(KeyCode::Char('l'), CONTROL),
                alt_keys: vec![],
                category: Category::Dashboard,
                context: When::DashboardFocused,
                hint_priority: None,
                hint_key_display: Some("Ctrl+l"),
                requires_confirmation: false,
                long_help: Some("打开选择器，设置仪表盘新派发代理的工作目录。\n无需离开仪表盘即可对另一仓库或目录启动代理。\n只影响新派发，不影响已在运行的代理。"),
            }
        },
        ActionId::DashboardToggleWorktree => {
            ActionDef {
                id: ActionId::DashboardToggleWorktree,
                label: "工作树",
                description: "切换新代理的 worktree 模式",
                default_key: KeyBinding::new(KeyCode::Char('w'), CONTROL),
                alt_keys: vec![],
                category: Category::Dashboard,
                context: When::DashboardFocused,
                hint_priority: None,
                hint_key_display: Some("Ctrl+w"),
                requires_confirmation: false,
                long_help: Some("使下一次从仪表盘派发的代理在全新 git worktree 中启动，隔离到独立检出。\n仅当工作目录是 git 仓库时生效。\n只影响新派发，不影响已在运行的代理。"),
            }
        },
        ActionId::DashboardOverlayExit => {
            ActionDef {
                id: ActionId::DashboardOverlayExit,
                label: "关闭浮层",
                description: "返回仪表盘",
                default_key: KeyBinding::new(KeyCode::Char('\\'), CONTROL),
                alt_keys: vec![],
                category: Category::Dashboard,
                context: When::DashboardOverlay,
                hint_priority: None,
                hint_key_display: Some("Ctrl+\\"),
                requires_confirmation: false,
                long_help: Some("离开已附着的会话浮层回到仪表盘列表，不停止代理。\n也可在回滚区按 q、中性状态下 Esc，或点关闭按钮。\n若要停止代理而不只是分离，用 Ctrl+X。"),
            }
        },
        ActionId::DashboardOverlayPrev => {
            ActionDef {
                id: ActionId::DashboardOverlayPrev,
                label: "上一会话",
                description: "上一会话",
                default_key: KeyBinding::new(KeyCode::Char('['), CONTROL),
                alt_keys: vec![],
                category: Category::Dashboard,
                context: When::DashboardOverlay,
                hint_priority: None,
                hint_key_display: Some("Ctrl+["),
                requires_confirmation: false,
                long_help: Some("在仪表盘会话浮层中切换到上一会话。\nCtrl+] 为下一会话。"),
            }
        },
        ActionId::DashboardOverlayNext => {
            ActionDef {
                id: ActionId::DashboardOverlayNext,
                label: "下一会话",
                description: "下一会话",
                default_key: KeyBinding::new(KeyCode::Char(']'), CONTROL),
                alt_keys: vec![],
                category: Category::Dashboard,
                context: When::DashboardOverlay,
                hint_priority: None,
                hint_key_display: Some("Ctrl+]"),
                requires_confirmation: false,
                long_help: Some("在仪表盘会话浮层中切换到下一会话。\nCtrl+[ 为上一会话。"),
            }
        },
        ActionId::DashboardOverlayStop => {
            ActionDef {
                id: ActionId::DashboardOverlayStop,
                label: "停止",
                description: "停止代理并关闭会话（返回仪表盘）",
                default_key: KeyBinding::new(KeyCode::Char('x'), CONTROL),
                alt_keys: vec![],
                category: Category::Dashboard,
                context: When::DashboardOverlay,
                hint_priority: None,
                hint_key_display: Some("Ctrl+x"),
                requires_confirmation: true,
                long_help: Some("在会话浮层内停止已附着的代理并关闭，回到仪表盘列表。\n需确认：连按两次 Ctrl+X。\n此处 Ctrl+. 仍打开速查表；仅 Ctrl+X 被停止占用。"),
            }
        },
    }
}

} // verus!
