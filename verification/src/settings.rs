//! The settings catalog: every user-tunable preference shown in the
//! settings modal, with its kind, choices and default.

use vstd::prelude::*;

use crate::text::str_eq;

verus! {

/// The bounds of `max_thoughts_width`: 40 is the narrowest readable width
/// on an 80-column terminal, 500 the widest before it is obviously wrong.
pub const MAX_THOUGHTS_WIDTH_MIN: i64 = 40i64;

pub const MAX_THOUGHTS_WIDTH_MAX: i64 = 500i64;

/// The registry key of `max_thoughts_width`.
pub const MAX_THOUGHTS_WIDTH_KEY: &'static str = "max_thoughts_width";


/// The section of the settings modal a setting is listed under.
#[derive(Clone, Copy, Debug, PartialEq, Eq, Structural)]
pub enum SettingCategory {
    Appearance,
    Agent,
    Editor,
    Models,
    Mouse,
    Privacy,
    Advanced,
}

/// Which component owns and persists a setting.
#[derive(Clone, Copy, Debug, PartialEq, Eq, Structural)]
pub enum SettingOwner {
    Shared,
    Shell,
    Pager,
}

/// Where the choices of a dynamic enum come from.
#[derive(Clone, Copy, Debug, PartialEq, Eq, Structural)]
pub enum DynamicEnumSource {
    ActiveModelCatalog,
}

/// One choice of an enum setting.
#[derive(Clone, Copy, Debug)]
pub struct EnumChoice {
    /// The value as persisted.
    pub canonical: &'static str,
    /// The value as shown.
    pub display: &'static str,
    pub description: &'static str,
}

/// The value type of a setting, with its default.
#[derive(Clone, Debug)]
#[allow(inconsistent_fields)]
pub enum SettingKind {
    Bool { default: bool },
    Int { default: i64, min: i64, max: i64 },
    Enum { default: &'static str, choices: Vec<EnumChoice>, supports_preview: bool },
    DynamicEnum { default: &'static str, source: DynamicEnumSource, supports_preview: bool },
    /// A row that opens a sub-sheet of other settings and carries no value.
    Group { children: &'static [&'static str] },
}

/// One entry of the catalog.
#[derive(Clone, Debug)]
pub struct SettingMeta {
    pub key: &'static str,
    pub category: SettingCategory,
    pub owner: SettingOwner,
    pub label: &'static str,
    pub description: &'static str,
    /// Extra search terms.
    pub keywords: &'static [&'static str],
    pub kind: SettingKind,
    /// The change takes effect only after a restart.
    pub restart_required: bool,
    /// The setting is not shown in the minimal screen mode.
    pub hidden_in_minimal: bool,
}

/// The mathematical value of an [`EnumChoice`].
#[verifier::ext_equal]
pub struct EnumChoiceSpec {
    pub canonical: Seq<char>,
    pub display: Seq<char>,
    pub description: Seq<char>,
}

/// The mathematical value of a [`SettingKind`].
#[verifier::ext_equal]
#[allow(inconsistent_fields)]
pub enum SettingKindSpec {
    Bool { default: bool },
    Int { default: i64, min: i64, max: i64 },
    Enum { default: Seq<char>, choices: Seq<EnumChoiceSpec>, supports_preview: bool },
    DynamicEnum { default: Seq<char>, source: DynamicEnumSource, supports_preview: bool },
    Group { children: Seq<Seq<char>> },
}

/// The mathematical value of a [`SettingMeta`].
#[verifier::ext_equal]
pub struct SettingSpec {
    pub key: Seq<char>,
    pub category: SettingCategory,
    pub owner: SettingOwner,
    pub label: Seq<char>,
    pub description: Seq<char>,
    pub keywords: Seq<Seq<char>>,
    pub kind: SettingKindSpec,
    pub restart_required: bool,
    pub hidden_in_minimal: bool,
}

/// The characters of each text of a list.
pub open spec fn texts_view(s: Seq<&'static str>) -> Seq<Seq<char>> {
    s.map_values(|t: &'static str| t@)
}

/// The values of each choice of a list.
pub open spec fn choices_view(s: Seq<EnumChoice>) -> Seq<EnumChoiceSpec> {
    s.map_values(|c: EnumChoice| c@)
}

impl View for EnumChoice {
    type V = EnumChoiceSpec;

    open spec fn view(&self) -> EnumChoiceSpec {
        EnumChoiceSpec {
            canonical: self.canonical@,
            display: self.display@,
            description: self.description@,
        }
    }
}

impl View for SettingKind {
    type V = SettingKindSpec;

    open spec fn view(&self) -> SettingKindSpec {
        match self {
            SettingKind::Bool { default } => SettingKindSpec::Bool { default: *default },
            SettingKind::Int { default, min, max } => SettingKindSpec::Int {
                default: *default,
                min: *min,
                max: *max,
            },
            SettingKind::Enum { default, choices, supports_preview } => SettingKindSpec::Enum {
                default: default@,
                choices: choices_view(choices@),
                supports_preview: *supports_preview,
            },
            SettingKind::DynamicEnum { default, source, supports_preview } =>
                SettingKindSpec::DynamicEnum {
                default: default@,
                source: *source,
                supports_preview: *supports_preview,
            },
            SettingKind::Group { children } => SettingKindSpec::Group {
                children: texts_view(children@),
            },
        }
    }
}

impl View for SettingMeta {
    type V = SettingSpec;

    open spec fn view(&self) -> SettingSpec {
        SettingSpec {
            key: self.key@,
            category: self.category,
            owner: self.owner,
            label: self.label@,
            description: self.description@,
            keywords: texts_view(self.keywords@),
            kind: self.kind@,
            restart_required: self.restart_required,
            hidden_in_minimal: self.hidden_in_minimal,
        }
    }
}

/// The defaults of the contextual-hint toggles in the shell's UI
/// configuration; `None` means inherit, which reads as on.
#[derive(Clone, Copy, Debug)]
pub struct ContextualHintsDefaults {
    pub undo: Option<bool>,
    pub plan_mode: Option<bool>,
    pub image_input: Option<bool>,
    pub send_now: Option<bool>,
    pub small_screen: Option<bool>,
    pub word_select: Option<bool>,
}

/// The defaults of the shell's UI configuration that the catalog reads.
#[derive(Clone, Debug)]
pub struct UiDefaults {
    pub compact_mode: bool,
    pub show_timestamps: Option<bool>,
    /// Whether the timeline rail is enabled by default.
    pub show_timeline: bool,
    pub simple_mode: Option<bool>,
    pub vim_mode: Option<bool>,
    pub remember_tool_approvals: Option<bool>,
    pub max_thoughts_width: u16,
    pub show_thinking_blocks: Option<bool>,
    pub prompt_suggestions: Option<bool>,
    pub group_tool_verbs: Option<bool>,
    pub collapsed_edit_blocks: Option<bool>,
    pub display_refresh_auto_cadence: Option<bool>,
    pub scroll_speed: Option<u16>,
    pub scroll_mode: Option<String>,
    pub scroll_lines: Option<u16>,
    pub invert_scroll: Option<bool>,
    pub contextual_hints: ContextualHintsDefaults,
}

/// The persisted and displayed name of a choice.
#[derive(Clone, Copy, Debug)]
pub struct ChoiceName {
    pub canonical: &'static str,
    pub display: &'static str,
}

/// Everything the catalog takes from elsewhere: the shell's UI defaults,
/// the pager's scroll defaults, the question tool's timeout default, and
/// the names of the text-selection and preselected-permission choices.
#[derive(Clone, Debug)]
pub struct CatalogSources {
    pub ui: UiDefaults,
    pub respect_manual_folds: bool,
    pub ask_user_question_timeout_enabled: bool,
    /// The canonical name of the word-select text-selection mode.
    pub word_select_canonical: &'static str,
    pub permission_always_allow_all_sessions: ChoiceName,
    pub permission_allow_command_always: ChoiceName,
    pub permission_allow_once: ChoiceName,
    pub permission_reject: ChoiceName,
}

/// How scroll input is interpreted.
#[derive(Clone, Copy, Debug, PartialEq, Eq, Structural)]
pub enum ScrollMode {
    /// Wheel or trackpad detected from gesture timing.
    Auto,
    Wheel,
    Trackpad,
}

impl ScrollMode {
    /// The persisted name of a mode.
    pub open spec fn spec_canonical(self) -> Seq<char> {
        match self {
            ScrollMode::Auto => "auto"@,
            ScrollMode::Wheel => "wheel"@,
            ScrollMode::Trackpad => "trackpad"@,
        }
    }

    pub fn as_canonical(&self) -> (r: &'static str)
        ensures
            r@ == self.spec_canonical(),
    {
        match self {
            ScrollMode::Auto => "auto",
            ScrollMode::Wheel => "wheel",
            ScrollMode::Trackpad => "trackpad",
        }
    }

    /// The mode with persisted name `s`, if any.
    pub open spec fn spec_from_canonical(s: Seq<char>) -> Option<ScrollMode> {
        if s == "auto"@ {
            Some(ScrollMode::Auto)
        } else if s == "wheel"@ {
            Some(ScrollMode::Wheel)
        } else if s == "trackpad"@ {
            Some(ScrollMode::Trackpad)
        } else {
            None
        }
    }

    pub fn from_canonical(s: &str) -> (r: Option<ScrollMode>)
        ensures
            r == Self::spec_from_canonical(s@),
    {
        if str_eq(s, "auto") {
            Some(ScrollMode::Auto)
        } else if str_eq(s, "wheel") {
            Some(ScrollMode::Wheel)
        } else if str_eq(s, "trackpad") {
            Some(ScrollMode::Trackpad)
        } else {
            None
        }
    }
}

impl Default for ScrollMode {
    fn default() -> (r: ScrollMode)
        ensures
            r == ScrollMode::Auto,
    {
        ScrollMode::Auto
    }
}

/// The default scroll mode: the configured one when it names a mode,
/// automatic detection otherwise.
pub open spec fn spec_scroll_mode_default(configured: Option<String>) -> Seq<char> {
    match configured {
        Some(s) => match ScrollMode::spec_from_canonical(s@) {
            Some(m) => m.spec_canonical(),
            None => ScrollMode::Auto.spec_canonical(),
        },
        None => ScrollMode::Auto.spec_canonical(),
    }
}

fn scroll_mode_default(configured: &Option<String>) -> (r: &'static str)
    ensures
        r@ == spec_scroll_mode_default(*configured),
{
    let mode = match configured {
        Some(s) => match ScrollMode::from_canonical(s.as_str()) {
            Some(m) => m,
            None => ScrollMode::default(),
        },
        None => ScrollMode::default(),
    };
    mode.as_canonical()
}

/// The configured number, or `default` when unset.
pub open spec fn spec_or_i64(configured: Option<u16>, default: i64) -> i64 {
    match configured {
        Some(v) => v as i64,
        None => default,
    }
}

fn or_i64(configured: Option<u16>, default: i64) -> (r: i64)
    ensures
        r == spec_or_i64(configured, default),
{
    match configured {
        Some(v) => v as i64,
        None => default,
    }
}

/// The keys of the settings shown inside the "contextual hints" group.
/// They are registered as ordinary Bool settings too, hidden from the
/// top-level list.
fn contextual_hints_children() -> (r: &'static [&'static str])
    ensures
        texts_view(r@) == spec_contextual_hints_children(),
{
    let r: &'static [&'static str] = &[
        "contextual_hints.undo",
        "contextual_hints.plan_mode",
        "contextual_hints.image_input",
        "contextual_hints.send_now",
        "contextual_hints.small_screen",
        "contextual_hints.word_select",
    ];
    assert(texts_view(r@) =~= spec_contextual_hints_children());
    r
}

/// The full theme catalog, starting with the "auto" meta-theme that follows the system appearance.
pub open spec fn spec_theme_choices() -> Seq<EnumChoiceSpec> {
    seq![
        EnumChoiceSpec { canonical: "auto"@, display: "自动"@, description: "跟随系统深色/浅色外观。"@ },
        EnumChoiceSpec { canonical: "groknight"@, display: "Grok Night"@, description: "中性深色，品红强调色。"@ },
        EnumChoiceSpec { canonical: "grokday"@, display: "Grok Day"@, description: "明亮环境用的浅色主题。"@ },
        EnumChoiceSpec { canonical: "tokyonight"@, display: "Tokyo Night"@, description: "深色偏蓝；需要真彩色。"@ },
        EnumChoiceSpec { canonical: "rosepine-moon"@, display: "Rose Pine Moon"@, description: "低饱和深色，淡紫强调；需要真彩色。"@ },
        EnumChoiceSpec { canonical: "oscura-midnight"@, display: "Oscura Midnight"@, description: "深黑背景，暖色强调；需要真彩色。"@ },
    ]
}

/// Permission modes, from safe to unsafe, so that "always approve" comes last.
pub open spec fn spec_permission_mode_choices() -> Seq<EnumChoiceSpec> {
    seq![
        EnumChoiceSpec { canonical: "default"@, display: "默认"@, description: "使用代理默认权限行为（当前等同于「询问」）。"@ },
        EnumChoiceSpec { canonical: "ask"@, display: "询问"@, description: "执行工具操作前询问权限。"@ },
        EnumChoiceSpec { canonical: "auto"@, display: "自动"@, description: "由 LLM 分类器批准安全工具；危险操作仍可能询问或拒绝。"@ },
        EnumChoiceSpec { canonical: "always-approve"@, display: "始终批准"@, description: "自动批准所有工具操作。跳过全部权限确认。"@ },
    ]
}

/// Whether coding session data may be retained.
pub open spec fn spec_coding_data_sharing_choices() -> Seq<EnumChoiceSpec> {
    seq![
        EnumChoiceSpec { canonical: "opt-in"@, display: "选择加入"@, description: "允许 SpaceXAI 保留并使用编程会话数据以改进训练与产品。"@ },
        EnumChoiceSpec { canonical: "opt-out"@, display: "选择退出"@, description: "不保留编程会话数据。代码请求不会用于训练。"@ },
    ]
}

/// The row preselected on the first permission prompt, in prompt order.
pub open spec fn spec_default_selected_permission_choices(src: CatalogSources) -> Seq<EnumChoiceSpec> {
    seq![
        EnumChoiceSpec { canonical: src.permission_always_allow_all_sessions.canonical@, display: src.permission_always_allow_all_sessions.display@, description: ""@ },
        EnumChoiceSpec { canonical: src.permission_allow_command_always.canonical@, display: src.permission_allow_command_always.display@, description: ""@ },
        EnumChoiceSpec { canonical: src.permission_allow_once.canonical@, display: src.permission_allow_once.display@, description: ""@ },
        EnumChoiceSpec { canonical: src.permission_reject.canonical@, display: src.permission_reject.display@, description: ""@ },
    ]
}

/// Plan mode off or on.
pub open spec fn spec_plan_mode_choices() -> Seq<EnumChoiceSpec> {
    seq![
        EnumChoiceSpec { canonical: "off"@, display: "关"@, description: "代理直接运行工具并编辑文件（默认）。"@ },
        EnumChoiceSpec { canonical: "on"@, display: "开"@, description: "代理先总结计划，再请求批准后运行工具。"@ },
    ]
}

/// How mermaid code blocks are shown.
pub open spec fn spec_render_mermaid_choices() -> Seq<EnumChoiceSpec> {
    seq![
        EnumChoiceSpec { canonical: "auto"@, display: "自动"@, description: "显示图表，并提供可点击行以打开/复制渲染图。"@ },
        EnumChoiceSpec { canonical: "on"@, display: "开"@, description: "与自动相同：始终显示可点击操作行。"@ },
        EnumChoiceSpec { canonical: "off"@, display: "关"@, description: "始终以代码块显示原始 Mermaid 源码。"@ },
    ]
}

/// How scroll input is interpreted.
pub open spec fn spec_scroll_mode_choices() -> Seq<EnumChoiceSpec> {
    seq![
        EnumChoiceSpec { canonical: "auto"@, display: "自动检测"@, description: "按手势时序检测滚轮或触控板。默认。"@ },
        EnumChoiceSpec { canonical: "wheel"@, display: "鼠标滚轮"@, description: "始终按滚轮刻度滚动（每跳固定行数）。"@ },
        EnumChoiceSpec { canonical: "trackpad"@, display: "触控板"@, description: "始终按触控板滚动（小数累积）。"@ },
    ]
}

/// How long an in-app selection stays, and what double-click does.
pub open spec fn spec_text_selection_choices(src: CatalogSources) -> Seq<EnumChoiceSpec> {
    seq![
        EnumChoiceSpec { canonical: "flash"@, display: "复制后闪一下"@, description: "松开鼠标后短暂高亮再清除。双击切换折叠。默认。"@ },
        EnumChoiceSpec { canonical: "hold"@, display: "保持到关闭"@, description: "选择保持可见，直到 Esc、点击或滚动。双击切换折叠。"@ },
        EnumChoiceSpec { canonical: src.word_select_canonical@, display: "选词（终端风格）"@, description: "双击选中并复制一词，三击选中一行；选择保持到关闭。"@ },
    ]
}

/// Which file changes are tracked as hunks.
pub open spec fn spec_hunk_tracker_mode_choices() -> Seq<EnumChoiceSpec> {
    seq![
        EnumChoiceSpec { canonical: "agent_only"@, display: "仅代理"@, description: "仅跟踪代理编辑的文件（默认）。"@ },
        EnumChoiceSpec { canonical: "all_dirty"@, display: "全部脏文件"@, description: "跟踪全部 git 脏文件，含外部编辑。"@ },
        EnumChoiceSpec { canonical: "off"@, display: "关"@, description: "完全禁用 hunk 跟踪，同时关闭 LOC 跟踪。"@ },
    ]
}

/// How plain `grok` opens.
pub open spec fn spec_screen_mode_choices() -> Seq<EnumChoiceSpec> {
    seq![
        EnumChoiceSpec { canonical: "fullscreen"@, display: "全屏"@, description: "以标准全屏 TUI 打开 grok。未设置时的默认。"@ },
        EnumChoiceSpec { canonical: "minimal"@, display: "极简"@, description: "以回滚原生（极简）模式打开 grok。"@ },
    ]
}

/// How the voice shortcut captures speech.
pub open spec fn spec_voice_capture_mode_choices() -> Seq<EnumChoiceSpec> {
    seq![
        EnumChoiceSpec { canonical: "toggle"@, display: "切换"@, description: "Ctrl+Space / F8 开始听写；再按一次（或 Esc/Enter）停止。"@ },
        EnumChoiceSpec { canonical: "hold"@, display: "按住说话"@, description: "按住 Ctrl+Space / F8 录音，松开停止。需要支持 Kitty 协议的终端。"@ },
    ]
}

/// Speech-to-text languages: English, the system locale, then the rest by English name.
pub open spec fn spec_voice_stt_language_choices() -> Seq<EnumChoiceSpec> {
    seq![
        EnumChoiceSpec { canonical: "en"@, display: "English"@, description: ""@ },
        EnumChoiceSpec { canonical: "auto"@, display: "系统"@, description: "系统区域设置若为支持的听写语言则使用，否则英语。"@ },
        EnumChoiceSpec { canonical: "ar"@, display: "Arabic"@, description: ""@ },
        EnumChoiceSpec { canonical: "cs"@, display: "Czech"@, description: ""@ },
        EnumChoiceSpec { canonical: "da"@, display: "Danish"@, description: ""@ },
        EnumChoiceSpec { canonical: "nl"@, display: "Dutch"@, description: ""@ },
        EnumChoiceSpec { canonical: "fil"@, display: "Filipino"@, description: ""@ },
        EnumChoiceSpec { canonical: "fr"@, display: "French"@, description: ""@ },
        EnumChoiceSpec { canonical: "de"@, display: "German"@, description: ""@ },
        EnumChoiceSpec { canonical: "hi"@, display: "Hindi"@, description: ""@ },
        EnumChoiceSpec { canonical: "id"@, display: "Indonesian"@, description: ""@ },
        EnumChoiceSpec { canonical: "it"@, display: "Italian"@, description: ""@ },
        EnumChoiceSpec { canonical: "ja"@, display: "Japanese"@, description: ""@ },
        EnumChoiceSpec { canonical: "ko"@, display: "Korean"@, description: ""@ },
        EnumChoiceSpec { canonical: "mk"@, display: "Macedonian"@, description: ""@ },
        EnumChoiceSpec { canonical: "ms"@, display: "Malay"@, description: ""@ },
        EnumChoiceSpec { canonical: "fa"@, display: "Persian"@, description: ""@ },
        EnumChoiceSpec { canonical: "pl"@, display: "Polish"@, description: ""@ },
        EnumChoiceSpec { canonical: "pt"@, display: "Portuguese"@, description: ""@ },
        EnumChoiceSpec { canonical: "ro"@, display: "Romanian"@, description: ""@ },
        EnumChoiceSpec { canonical: "ru"@, display: "Russian"@, description: ""@ },
        EnumChoiceSpec { canonical: "es"@, display: "Spanish"@, description: ""@ },
        EnumChoiceSpec { canonical: "sv"@, display: "Swedish"@, description: ""@ },
        EnumChoiceSpec { canonical: "th"@, display: "Thai"@, description: ""@ },
        EnumChoiceSpec { canonical: "tr"@, display: "Turkish"@, description: ""@ },
        EnumChoiceSpec { canonical: "vi"@, display: "Vietnamese"@, description: ""@ },
    ]
}

/// The concrete themes: the full catalog without "auto".
pub open spec fn spec_concrete_theme_choices() -> Seq<EnumChoiceSpec> {
    seq![
        EnumChoiceSpec { canonical: "groknight"@, display: "Grok Night"@, description: "中性深色，品红强调色。"@ },
        EnumChoiceSpec { canonical: "grokday"@, display: "Grok Day"@, description: "明亮环境用的浅色主题。"@ },
        EnumChoiceSpec { canonical: "tokyonight"@, display: "Tokyo Night"@, description: "深色偏蓝；需要真彩色。"@ },
        EnumChoiceSpec { canonical: "rosepine-moon"@, display: "Rose Pine Moon"@, description: "低饱和深色，淡紫强调；需要真彩色。"@ },
        EnumChoiceSpec { canonical: "oscura-midnight"@, display: "Oscura Midnight"@, description: "深黑背景，暖色强调；需要真彩色。"@ },
    ]
}

fn theme_choices() -> (r: Vec<EnumChoice>)
    ensures
        choices_view(r@) == spec_theme_choices(),
{
    let r = vec![
        EnumChoice { canonical: "auto", display: "自动", description: "跟随系统深色/浅色外观。" },
        EnumChoice { canonical: "groknight", display: "Grok Night", description: "中性深色，品红强调色。" },
        EnumChoice { canonical: "grokday", display: "Grok Day", description: "明亮环境用的浅色主题。" },
        EnumChoice { canonical: "tokyonight", display: "Tokyo Night", description: "深色偏蓝；需要真彩色。" },
        EnumChoice { canonical: "rosepine-moon", display: "Rose Pine Moon", description: "低饱和深色，淡紫强调；需要真彩色。" },
        EnumChoice { canonical: "oscura-midnight", display: "Oscura Midnight", description: "深黑背景，暖色强调；需要真彩色。" },
    ];
    proof {
        assert(choices_view(r@) =~= spec_theme_choices());
    }
    r
}

fn permission_mode_choices() -> (r: Vec<EnumChoice>)
    ensures
        choices_view(r@) == spec_permission_mode_choices(),
{
    let r = vec![
        EnumChoice { canonical: "default", display: "默认", description: "使用代理默认权限行为（当前等同于「询问」）。" },
        EnumChoice { canonical: "ask", display: "询问", description: "执行工具操作前询问权限。" },
        EnumChoice { canonical: "auto", display: "自动", description: "由 LLM 分类器批准安全工具；危险操作仍可能询问或拒绝。" },
        EnumChoice { canonical: "always-approve", display: "始终批准", description: "自动批准所有工具操作。跳过全部权限确认。" },
    ];
    proof {
        assert(choices_view(r@) =~= spec_permission_mode_choices());
    }
    r
}

fn coding_data_sharing_choices() -> (r: Vec<EnumChoice>)
    ensures
        choices_view(r@) == spec_coding_data_sharing_choices(),
{
    let r = vec![
        EnumChoice { canonical: "opt-in", display: "选择加入", description: "允许 SpaceXAI 保留并使用编程会话数据以改进训练与产品。" },
        EnumChoice { canonical: "opt-out", display: "选择退出", description: "不保留编程会话数据。代码请求不会用于训练。" },
    ];
    proof {
        assert(choices_view(r@) =~= spec_coding_data_sharing_choices());
    }
    r
}

fn default_selected_permission_choices(src: &CatalogSources) -> (r: Vec<EnumChoice>)
    ensures
        choices_view(r@) == spec_default_selected_permission_choices(*src),
{
    let r = vec![
        EnumChoice { canonical: src.permission_always_allow_all_sessions.canonical, display: src.permission_always_allow_all_sessions.display, description: "" },
        EnumChoice { canonical: src.permission_allow_command_always.canonical, display: src.permission_allow_command_always.display, description: "" },
        EnumChoice { canonical: src.permission_allow_once.canonical, display: src.permission_allow_once.display, description: "" },
        EnumChoice { canonical: src.permission_reject.canonical, display: src.permission_reject.display, description: "" },
    ];
    proof {
        assert(choices_view(r@) =~= spec_default_selected_permission_choices(*src));
    }
    r
}

fn plan_mode_choices() -> (r: Vec<EnumChoice>)
    ensures
        choices_view(r@) == spec_plan_mode_choices(),
{
    let r = vec![
        EnumChoice { canonical: "off", display: "关", description: "代理直接运行工具并编辑文件（默认）。" },
        EnumChoice { canonical: "on", display: "开", description: "代理先总结计划，再请求批准后运行工具。" },
    ];
    proof {
        assert(choices_view(r@) =~= spec_plan_mode_choices());
    }
    r
}

fn render_mermaid_choices() -> (r: Vec<EnumChoice>)
    ensures
        choices_view(r@) == spec_render_mermaid_choices(),
{
    let r = vec![
        EnumChoice { canonical: "auto", display: "自动", description: "显示图表，并提供可点击行以打开/复制渲染图。" },
        EnumChoice { canonical: "on", display: "开", description: "与自动相同：始终显示可点击操作行。" },
        EnumChoice { canonical: "off", display: "关", description: "始终以代码块显示原始 Mermaid 源码。" },
    ];
    proof {
        assert(choices_view(r@) =~= spec_render_mermaid_choices());
    }
    r
}

fn scroll_mode_choices() -> (r: Vec<EnumChoice>)
    ensures
        choices_view(r@) == spec_scroll_mode_choices(),
{
    let r = vec![
        EnumChoice { canonical: ScrollMode::Auto.as_canonical(), display: "自动检测", description: "按手势时序检测滚轮或触控板。默认。" },
        EnumChoice { canonical: ScrollMode::Wheel.as_canonical(), display: "鼠标滚轮", description: "始终按滚轮刻度滚动（每跳固定行数）。" },
        EnumChoice { canonical: ScrollMode::Trackpad.as_canonical(), display: "触控板", description: "始终按触控板滚动（小数累积）。" },
    ];
    proof {
        assert(choices_view(r@) =~= spec_scroll_mode_choices());
    }
    r
}

fn text_selection_choices(src: &CatalogSources) -> (r: Vec<EnumChoice>)
    ensures
        choices_view(r@) == spec_text_selection_choices(*src),
{
    let r = vec![
        EnumChoice { canonical: "flash", display: "复制后闪一下", description: "松开鼠标后短暂高亮再清除。双击切换折叠。默认。" },
        EnumChoice { canonical: "hold", display: "保持到关闭", description: "选择保持可见，直到 Esc、点击或滚动。双击切换折叠。" },
        EnumChoice { canonical: src.word_select_canonical, display: "选词（终端风格）", description: "双击选中并复制一词，三击选中一行；选择保持到关闭。" },
    ];
    proof {
        assert(choices_view(r@) =~= spec_text_selection_choices(*src));
    }
    r
}

fn hunk_tracker_mode_choices() -> (r: Vec<EnumChoice>)
    ensures
        choices_view(r@) == spec_hunk_tracker_mode_choices(),
{
    let r = vec![
        EnumChoice { canonical: "agent_only", display: "仅代理", description: "仅跟踪代理编辑的文件（默认）。" },
        EnumChoice { canonical: "all_dirty", display: "全部脏文件", description: "跟踪全部 git 脏文件，含外部编辑。" },
        EnumChoice { canonical: "off", display: "关", description: "完全禁用 hunk 跟踪，同时关闭 LOC 跟踪。" },
    ];
    proof {
        assert(choices_view(r@) =~= spec_hunk_tracker_mode_choices());
    }
    r
}

fn screen_mode_choices() -> (r: Vec<EnumChoice>)
    ensures
        choices_view(r@) == spec_screen_mode_choices(),
{
    let r = vec![
        EnumChoice { canonical: "fullscreen", display: "全屏", description: "以标准全屏 TUI 打开 grok。未设置时的默认。" },
        EnumChoice { canonical: "minimal", display: "极简", description: "以回滚原生（极简）模式打开 grok。" },
    ];
    proof {
        assert(choices_view(r@) =~= spec_screen_mode_choices());
    }
    r
}

fn voice_capture_mode_choices() -> (r: Vec<EnumChoice>)
    ensures
        choices_view(r@) == spec_voice_capture_mode_choices(),
{
    let r = vec![
        EnumChoice { canonical: "toggle", display: "切换", description: "Ctrl+Space / F8 开始听写；再按一次（或 Esc/Enter）停止。" },
        EnumChoice { canonical: "hold", display: "按住说话", description: "按住 Ctrl+Space / F8 录音，松开停止。需要支持 Kitty 协议的终端。" },
    ];
    proof {
        assert(choices_view(r@) =~= spec_voice_capture_mode_choices());
    }
    r
}

fn voice_stt_language_choices() -> (r: Vec<EnumChoice>)
    ensures
        choices_view(r@) == spec_voice_stt_language_choices(),
{
    let r = vec![
        EnumChoice { canonical: "en", display: "English", description: "" },
        EnumChoice { canonical: "auto", display: "系统", description: "系统区域设置若为支持的听写语言则使用，否则英语。" },
        EnumChoice { canonical: "ar", display: "Arabic", description: "" },
        EnumChoice { canonical: "cs", display: "Czech", description: "" },
        EnumChoice { canonical: "da", display: "Danish", description: "" },
        EnumChoice { canonical: "nl", display: "Dutch", description: "" },
        EnumChoice { canonical: "fil", display: "Filipino", description: "" },
        EnumChoice { canonical: "fr", display: "French", description: "" },
        EnumChoice { canonical: "de", display: "German", description: "" },
        EnumChoice { canonical: "hi", display: "Hindi", description: "" },
        EnumChoice { canonical: "id", display: "Indonesian", description: "" },
        EnumChoice { canonical: "it", display: "Italian", description: "" },
        EnumChoice { canonical: "ja", display: "Japanese", description: "" },
        EnumChoice { canonical: "ko", display: "Korean", description: "" },
        EnumChoice { canonical: "mk", display: "Macedonian", description: "" },
        EnumChoice { canonical: "ms", display: "Malay", description: "" },
        EnumChoice { canonical: "fa", display: "Persian", description: "" },
        EnumChoice { canonical: "pl", display: "Polish", description: "" },
        EnumChoice { canonical: "pt", display: "Portuguese", description: "" },
        EnumChoice { canonical: "ro", display: "Romanian", description: "" },
        EnumChoice { canonical: "ru", display: "Russian", description: "" },
        EnumChoice { canonical: "es", display: "Spanish", description: "" },
        EnumChoice { canonical: "sv", display: "Swedish", description: "" },
        EnumChoice { canonical: "th", display: "Thai", description: "" },
        EnumChoice { canonical: "tr", display: "Turkish", description: "" },
        EnumChoice { canonical: "vi", display: "Vietnamese", description: "" },
    ];
    proof {
        assert(choices_view(r@) =~= spec_voice_stt_language_choices());
    }
    r
}

fn concrete_theme_choices() -> (r: Vec<EnumChoice>)
    ensures
        choices_view(r@) == spec_concrete_theme_choices(),
{
    let r = vec![
        EnumChoice { canonical: "groknight", display: "Grok Night", description: "中性深色，品红强调色。" },
        EnumChoice { canonical: "grokday", display: "Grok Day", description: "明亮环境用的浅色主题。" },
        EnumChoice { canonical: "tokyonight", display: "Tokyo Night", description: "深色偏蓝；需要真彩色。" },
        EnumChoice { canonical: "rosepine-moon", display: "Rose Pine Moon", description: "低饱和深色，淡紫强调；需要真彩色。" },
        EnumChoice { canonical: "oscura-midnight", display: "Oscura Midnight", description: "深黑背景，暖色强调；需要真彩色。" },
    ];
    proof {
        assert(choices_view(r@) =~= spec_concrete_theme_choices());
    }
    r
}

/// The keys of the settings shown inside the "contextual hints" group.
pub open spec fn spec_contextual_hints_children() -> Seq<Seq<char>> {
    seq!["contextual_hints.undo"@, "contextual_hints.plan_mode"@, "contextual_hints.image_input"@, "contextual_hints.send_now"@, "contextual_hints.small_screen"@, "contextual_hints.word_select"@]
}

/// The full catalog, in the order the settings modal lists it.
pub open spec fn spec_default_settings(src: CatalogSources) -> Seq<SettingSpec> {
    seq![
        SettingSpec {
            key: "compact_mode"@,
            category: SettingCategory::Appearance,
            owner: SettingOwner::Shared,
            label: "紧凑模式"@,
            description: "减少消息周围留白以提高内容密度。终端高度 ≤20 行时自动开启。"@,
            keywords: seq!["compact"@, "density"@, "padding"@, "tight"@, "small"@, "screen"@, "auto"@],
            kind: SettingKindSpec::Bool { default: src.ui.compact_mode },
            restart_required: false,
            hidden_in_minimal: false,
        },
        SettingSpec {
            key: "screen_mode"@,
            category: SettingCategory::Appearance,
            owner: SettingOwner::Shell,
            label: "默认屏幕模式"@,
            description: "下次启动 plain grok 的方式：全屏（未设置时默认）或极简。写入 config.toml 的 [ui] screen_mode。需重启。仅本会话可用 /minimal 或 /fullscreen 切换。"@,
            keywords: seq!["screen"@, "mode"@, "minimal"@, "fullscreen"@, "full"@, "scrollback"@, "native"@, "alt-screen"@, "render"@, "default"@],
            kind: SettingKindSpec::Enum { default: "fullscreen"@, choices: spec_screen_mode_choices(), supports_preview: false },
            restart_required: true,
            hidden_in_minimal: false,
        },
        SettingSpec {
            key: "show_timestamps"@,
            category: SettingCategory::Appearance,
            owner: SettingOwner::Shared,
            label: "显示时间戳"@,
            description: "在用户消息与代理回复旁显示时钟时间。"@,
            keywords: seq!["timestamps"@, "time"@, "clock"@, "date"@],
            kind: SettingKindSpec::Bool { default: src.ui.show_timestamps.unwrap_or(true) },
            restart_required: false,
            hidden_in_minimal: false,
        },
        SettingSpec {
            key: "show_timeline"@,
            category: SettingCategory::Appearance,
            owner: SettingOwner::Shared,
            label: "时间线侧栏"@,
            description: "用每回合刻度条替代滚动条：悬停预览回合，点击跳转。"@,
            keywords: seq!["timeline"@, "sidebar"@, "ticks"@, "turns"@, "navigator"@, "rail"@],
            kind: SettingKindSpec::Bool { default: src.ui.show_timeline },
            restart_required: false,
            hidden_in_minimal: true,
        },
        SettingSpec {
            key: "simple_mode"@,
            category: SettingCategory::Appearance,
            owner: SettingOwner::Shared,
            label: "禁用 Vim 输入模式"@,
            description: "提示框使用普通 readline 风格输入，而非 vim 键位。实验性。"@,
            keywords: seq!["simple"@, "ascii"@, "minimal"@, "plain"@, "vim"@, "readline"@, "experimental"@, "editor"@, "input"@, "prompt"@],
            kind: SettingKindSpec::Bool { default: src.ui.simple_mode.unwrap_or(true) },
            restart_required: false,
            hidden_in_minimal: false,
        },
        SettingSpec {
            key: "vim_mode"@,
            category: SettingCategory::Appearance,
            owner: SettingOwner::Shell,
            label: "Vim 回滚导航"@,
            description: "用 vim 键（h/j/k/l、gg/G、/）导航回滚。不影响输入提示框。"@,
            keywords: seq!["vim"@, "scrollback"@, "navigation"@, "hjkl"@, "keys"@, "keybindings"@, "scroll"@],
            kind: SettingKindSpec::Bool { default: src.ui.vim_mode.unwrap_or(false) },
            restart_required: false,
            hidden_in_minimal: false,
        },
        SettingSpec {
            key: "theme"@,
            category: SettingCategory::Appearance,
            owner: SettingOwner::Shared,
            label: "主题"@,
            description: "分页器界面的配色主题。"@,
            keywords: seq!["theme"@, "color"@, "colour"@, "palette"@, "appearance"@, "dark"@, "light"@],
            kind: SettingKindSpec::Enum { default: "groknight"@, choices: spec_theme_choices(), supports_preview: true },
            restart_required: false,
            hidden_in_minimal: true,
        },
        SettingSpec {
            key: "auto_dark_theme"@,
            category: SettingCategory::Appearance,
            owner: SettingOwner::Shared,
            label: "自动深色主题"@,
            description: "系统为深色模式时使用的主题（仅 theme=auto 时）。"@,
            keywords: seq!["auto"@, "dark"@, "theme"@, "system"@, "appearance"@, "night"@],
            kind: SettingKindSpec::Enum { default: "groknight"@, choices: spec_concrete_theme_choices(), supports_preview: true },
            restart_required: false,
            hidden_in_minimal: true,
        },
        SettingSpec {
            key: "auto_light_theme"@,
            category: SettingCategory::Appearance,
            owner: SettingOwner::Shared,
            label: "自动浅色主题"@,
            description: "系统为浅色模式时使用的主题（仅 theme=auto 时）。"@,
            keywords: seq!["auto"@, "light"@, "theme"@, "system"@, "appearance"@, "day"@],
            kind: SettingKindSpec::Enum { default: "grokday"@, choices: spec_concrete_theme_choices(), supports_preview: true },
            restart_required: false,
            hidden_in_minimal: true,
        },
        SettingSpec {
            key: "render_mermaid"@,
            category: SettingCategory::Appearance,
            owner: SettingOwner::Shell,
            label: "渲染 Mermaid 图"@,
            description: "```mermaid 代码块的显示方式：auto/on 增加可点击行以打开渲染图；off 显示原始源码。"@,
            keywords: seq!["mermaid"@, "diagram"@, "diagrams"@, "render"@, "flowchart"@, "graph"@, "chart"@],
            kind: SettingKindSpec::Enum { default: "auto"@, choices: spec_render_mermaid_choices(), supports_preview: false },
            restart_required: false,
            hidden_in_minimal: false,
        },
        SettingSpec {
            key: "permission_mode"@,
            category: SettingCategory::Agent,
            owner: SettingOwner::Shell,
            label: "权限模式"@,
            description: "默认使用代理内置行为；「询问」在每次工具操作前确认；「自动」用 LLM 分类器处理风险工具；「始终批准」自动授予全部权限。"@,
            keywords: seq!["permission"@, "approve"@, "yolo"@, "agent"@, "always"@, "ask"@, "auto"@, "classifier"@, "tool"@, "danger"@],
            kind: SettingKindSpec::Enum { default: "ask"@, choices: spec_permission_mode_choices(), supports_preview: false },
            restart_required: false,
            hidden_in_minimal: false,
        },
        SettingSpec {
            key: "remember_tool_approvals"@,
            category: SettingCategory::Agent,
            owner: SettingOwner::Shell,
            label: "记住工具批准"@,
            description: "在权限提示中显示「始终允许」选项，避免对同一命令或工具反复询问。适用于询问/自动模式；始终批准仍会跳过全部提示。需重启。"@,
            keywords: seq!["permission"@, "approve"@, "approval"@, "always"@, "allow"@, "remember"@, "tool"@, "command"@, "kubectl"@, "ask"@, "again"@, "whitelist"@],
            kind: SettingKindSpec::Bool { default: src.ui.remember_tool_approvals.unwrap_or(false) },
            restart_required: true,
            hidden_in_minimal: false,
        },
        SettingSpec {
            key: "multiline_mode"@,
            category: SettingCategory::Editor,
            owner: SettingOwner::Pager,
            label: "多行"@,
            description: "开启后 Enter 换行，Shift+Enter 发送。每会话重置。"@,
            keywords: seq!["multiline"@, "newline"@, "input"@, "editor"@, "enter"@],
            kind: SettingKindSpec::Bool { default: false },
            restart_required: false,
            hidden_in_minimal: false,
        },
        SettingSpec {
            key: "default_model"@,
            category: SettingCategory::Models,
            owner: SettingOwner::Shell,
            label: "默认模型"@,
            description: "新会话使用的模型。更改也会切换当前会话。选「(无覆盖)」可清除。"@,
            keywords: seq!["model"@, "default"@, "agent"@, "llm"@, "grok"@, "switch"@],
            kind: SettingKindSpec::DynamicEnum { default: ""@, source: DynamicEnumSource::ActiveModelCatalog, supports_preview: false },
            restart_required: false,
            hidden_in_minimal: false,
        },
        SettingSpec {
            key: MAX_THOUGHTS_WIDTH_KEY@,
            category: SettingCategory::Appearance,
            owner: SettingOwner::Shared,
            label: "思考块最大宽度"@,
            description: "代理思考面板的列宽预算（40–500，默认 120）。"@,
            keywords: seq!["thoughts"@, "width"@, "max"@, "thinking"@, "panel"@, "reasoning"@, "columns"@],
            kind: SettingKindSpec::Int { default: src.ui.max_thoughts_width as i64, min: MAX_THOUGHTS_WIDTH_MIN, max: MAX_THOUGHTS_WIDTH_MAX },
            restart_required: false,
            hidden_in_minimal: false,
        },
        SettingSpec {
            key: "show_thinking_blocks"@,
            category: SettingCategory::Appearance,
            owner: SettingOwner::Shell,
            label: "显示思考块"@,
            description: "流式输出时在回滚中显示代理思考/推理块。"@,
            keywords: seq!["thinking"@, "reasoning"@, "thoughts"@, "blocks"@, "show"@, "hide"@],
            kind: SettingKindSpec::Bool { default: src.ui.show_thinking_blocks.unwrap_or(true) },
            restart_required: false,
            hidden_in_minimal: false,
        },
        SettingSpec {
            key: "prompt_suggestions"@,
            category: SettingCategory::Editor,
            owner: SettingOwner::Shell,
            label: "提示建议"@,
            description: "每回合结束后预测你可能的下一条提示，并以幽灵文字显示在输入框（Tab 接受）。每回合会有一次小模型调用。"@,
            keywords: seq!["prompt"@, "suggestion"@, "suggestions"@, "autocomplete"@, "ghost"@, "tab"@, "predict"@, "next"@],
            kind: SettingKindSpec::Bool { default: src.ui.prompt_suggestions.unwrap_or(true) },
            restart_required: false,
            hidden_in_minimal: false,
        },
        SettingSpec {
            key: "respect_manual_folds"@,
            category: SettingCategory::Appearance,
            owner: SettingOwner::Pager,
            label: "保留手动折叠"@,
            description: "流式输出时保留手动折叠块，展开块时停止自动滚动。实验性。"@,
            keywords: seq!["fold"@, "pin"@, "collapse"@, "expand"@, "thinking"@, "follow"@, "scroll"@],
            kind: SettingKindSpec::Bool { default: src.respect_manual_folds },
            restart_required: false,
            hidden_in_minimal: false,
        },
        SettingSpec {
            key: "group_tool_verbs"@,
            category: SettingCategory::Appearance,
            owner: SettingOwner::Shell,
            label: "合并工具调用"@,
            description: "将连续的 read/search/list 工具调用与子代理行折叠为一行摘要；已完成的思考也会并入分组。"@,
            keywords: seq!["group"@, "tool"@, "verbs"@, "fold"@, "collapse"@, "read"@, "search"@, "summary"@, "thinking"@, "subagent"@],
            kind: SettingKindSpec::Bool { default: src.ui.group_tool_verbs.unwrap_or(true) },
            restart_required: false,
            hidden_in_minimal: false,
        },
        SettingSpec {
            key: "collapsed_edit_blocks"@,
            category: SettingCategory::Appearance,
            owner: SettingOwner::Shell,
            label: "折叠编辑块"@,
            description: "将编辑显示为一行 +N/-M 摘要，并把同一文件连续编辑合并为一块；展开行可查看 diff。"@,
            keywords: seq!["edit"@, "edits"@, "diff"@, "diffstat"@, "collapse"@, "collapsed"@, "summary"@, "expand"@, "one-line"@, "merge"@, "coalesce"@],
            kind: SettingKindSpec::Bool { default: src.ui.collapsed_edit_blocks.unwrap_or(false) },
            restart_required: false,
            hidden_in_minimal: false,
        },
        SettingSpec {
            key: "display_refresh_auto_cadence"@,
            category: SettingCategory::Appearance,
            owner: SettingOwner::Shell,
            label: "匹配显示刷新率"@,
            description: "在高刷新率显示器上，TUI 会更快地流式输出/滚动以匹配刷新率。关闭则保持约 60Hz。需重启。"@,
            keywords: seq!["display"@, "refresh"@, "rate"@, "hz"@, "cadence"@, "fps"@, "smooth"@, "scroll"@, "stream"@, "high"@, "120"@, "144"@],
            kind: SettingKindSpec::Bool { default: src.ui.display_refresh_auto_cadence.unwrap_or(false) },
            restart_required: true,
            hidden_in_minimal: true,
        },
        SettingSpec {
            key: "scroll_speed"@,
            category: SettingCategory::Mouse,
            owner: SettingOwner::Shell,
            label: "滚动速度"@,
            description: "鼠标滚轮与触控板滚动速度倍率（1–100）。越大越快。"@,
            keywords: seq!["scroll"@, "speed"@, "mouse"@, "wheel"@, "trackpad"@, "fast"@, "slow"@],
            kind: SettingKindSpec::Int { default: spec_or_i64(src.ui.scroll_speed, 50), min: 1, max: 100 },
            restart_required: false,
            hidden_in_minimal: false,
        },
        SettingSpec {
            key: "scroll_mode"@,
            category: SettingCategory::Mouse,
            owner: SettingOwner::Shell,
            label: "滚动输入"@,
            description: "自动检测误判设备时，强制使用滚轮或触控板滚动行为。"@,
            keywords: seq!["scroll"@, "mode"@, "wheel"@, "trackpad"@, "mouse"@, "detect"@, "force"@, "input"@],
            kind: SettingKindSpec::Enum { default: spec_scroll_mode_default(src.ui.scroll_mode), choices: spec_scroll_mode_choices(), supports_preview: false },
            restart_required: false,
            hidden_in_minimal: false,
        },
        SettingSpec {
            key: "scroll_lines"@,
            category: SettingCategory::Mouse,
            owner: SettingOwner::Shell,
            label: "滚动行数"@,
            description: "滚轮与触控板每跳滚动行数（1–10）。未设置前沿用各终端自身配置。"@,
            keywords: seq!["scroll"@, "lines"@, "tick"@, "notch"@, "wheel"@, "trackpad"@, "mouse"@],
            kind: SettingKindSpec::Int { default: spec_or_i64(src.ui.scroll_lines, 3), min: 1, max: 10 },
            restart_required: false,
            hidden_in_minimal: false,
        },
        SettingSpec {
            key: "invert_scroll"@,
            category: SettingCategory::Mouse,
            owner: SettingOwner::Shell,
            label: "反转滚动"@,
            description: "反转垂直滚动方向（自然滚动）。"@,
            keywords: seq!["invert"@, "scroll"@, "natural"@, "direction"@, "reverse"@, "mouse"@, "trackpad"@],
            kind: SettingKindSpec::Bool { default: src.ui.invert_scroll.unwrap_or(false) },
            restart_required: false,
            hidden_in_minimal: false,
        },
        SettingSpec {
            key: "keep_text_selection"@,
            category: SettingCategory::Mouse,
            owner: SettingOwner::Shell,
            label: "文本选择"@,
            description: "应用内选择在屏幕上保持多久，以及双击行为（折叠 vs 选词并复制）。终端/多路复用器自身的选择请按住 Shift 拖动（原生复制）。"@,
            keywords: seq!["selection"@, "drag"@, "copy"@, "flash"@, "hold"@, "shift"@, "native"@, "mouse"@, "tmux"@, "double"@, "double-click"@, "word"@, "terminal"@],
            kind: SettingKindSpec::Enum { default: "flash"@, choices: spec_text_selection_choices(src), supports_preview: false },
            restart_required: false,
            hidden_in_minimal: false,
        },
        SettingSpec {
            key: "coding_data_sharing"@,
            category: SettingCategory::Privacy,
            owner: SettingOwner::Shell,
            label: "编程数据共享"@,
            description: "控制 SpaceXAI 是否可保留并以编程会话数据做训练。"@,
            keywords: seq!["privacy"@, "data"@, "sharing"@, "coding"@, "retention"@, "telemetry"@, "training"@, "opt-in"@, "opt-out"@],
            kind: SettingKindSpec::Enum { default: "opt-in"@, choices: spec_coding_data_sharing_choices(), supports_preview: false },
            restart_required: false,
            hidden_in_minimal: false,
        },
        SettingSpec {
            key: "default_selected_permission"@,
            category: SettingCategory::Agent,
            owner: SettingOwner::Shell,
            label: "默认选中的权限选项"@,
            description: "权限提示中光标预选中的选项行。"@,
            keywords: seq!["permission"@, "approval"@, "cursor"@, "preselect"@, "default"@, "sticky"@, "last"@, "used"@, "yes"@, "no"@, "reject"@, "allow"@],
            kind: SettingKindSpec::Enum { default: src.permission_always_allow_all_sessions.canonical@, choices: spec_default_selected_permission_choices(src), supports_preview: false },
            restart_required: false,
            hidden_in_minimal: false,
        },
        SettingSpec {
            key: "toolset.ask_user_question.timeout_enabled"@,
            category: SettingCategory::Agent,
            owner: SettingOwner::Shell,
            label: "提问超时"@,
            description: "开启后，ask_user_question 工具会在设定时间后超时，而不是无限阻塞。"@,
            keywords: seq!["ask"@, "question"@, "questionnaire"@, "timeout"@, "ask_user_question"@, "block"@, "wait"@, "forever"@, "tool"@],
            kind: SettingKindSpec::Bool { default: src.ask_user_question_timeout_enabled },
            restart_required: true,
            hidden_in_minimal: false,
        },
        SettingSpec {
            key: "plan_mode"@,
            category: SettingCategory::Agent,
            owner: SettingOwner::Pager,
            label: "计划模式"@,
            description: "开启后，代理在运行工具或编辑前会先总结计划。"@,
            keywords: seq!["plan"@, "mode"@, "agent"@, "summary"@, "approval"@, "review"@, "session"@],
            kind: SettingKindSpec::Enum { default: "off"@, choices: spec_plan_mode_choices(), supports_preview: false },
            restart_required: false,
            hidden_in_minimal: false,
        },
        SettingSpec {
            key: "show_tips"@,
            category: SettingCategory::Advanced,
            owner: SettingOwner::Shell,
            label: "显示提示"@,
            description: "启动时显示每日提示横幅。需重启生效。"@,
            keywords: seq!["tips"@, "tip"@, "show"@, "banner"@, "welcome"@, "startup"@, "launch"@],
            kind: SettingKindSpec::Bool { default: true },
            restart_required: true,
            hidden_in_minimal: false,
        },
        SettingSpec {
            key: "contextual_hints"@,
            category: SettingCategory::Advanced,
            owner: SettingOwner::Shell,
            label: "显示情境提示"@,
            description: "工作时显示简短的情境快捷键提示；可逐项开关。"@,
            keywords: seq!["contextual"@, "hints"@, "tips"@, "undo"@, "plan"@, "nudge"@, "image"@, "clipboard"@, "ephemeral"@, "send"@, "interject"@, "queue"@, "ctrl+z"@, "draft"@, "wipe"@, "mode"@, "shift+tab"@, "paste"@, "input"@, "enter"@, "follow-up"@, "small"@, "screen"@, "compact"@],
            kind: SettingKindSpec::Group { children: spec_contextual_hints_children() },
            restart_required: false,
            hidden_in_minimal: false,
        },
        SettingSpec {
            key: "auto_update"@,
            category: SettingCategory::Advanced,
            owner: SettingOwner::Shell,
            label: "自动更新"@,
            description: "启动时自动下载并安装分页器更新。需重启。"@,
            keywords: seq!["auto"@, "update"@, "updates"@, "upgrade"@, "version"@, "install"@, "channel"@],
            kind: SettingKindSpec::Bool { default: true },
            restart_required: true,
            hidden_in_minimal: false,
        },
        SettingSpec {
            key: "hunk_tracker_mode"@,
            category: SettingCategory::Advanced,
            owner: SettingOwner::Shell,
            label: "改动块跟踪"@,
            description: "代理以 hunk 跟踪哪些文件改动。关则完全禁用跟踪（及 LOC 统计）。需重启。"@,
            keywords: seq!["hunk"@, "tracker"@, "tracking"@, "diff"@, "changes"@, "git"@, "loc"@, "off"@, "disable"@],
            kind: SettingKindSpec::Enum { default: "agent_only"@, choices: spec_hunk_tracker_mode_choices(), supports_preview: false },
            restart_required: true,
            hidden_in_minimal: false,
        },
        SettingSpec {
            key: "voice_capture_mode"@,
            category: SettingCategory::Editor,
            owner: SettingOwner::Shell,
            label: "语音采集"@,
            description: "语音快捷键（Ctrl+Space / F8）行为：切换（按一下开始/停止）或按住说话（按住录音，松开停止；需要 Kitty 协议终端）。"@,
            keywords: seq!["voice"@, "dictation"@, "dictate"@, "mic"@, "microphone"@, "speech"@, "stt"@, "toggle"@, "hold"@, "ctrl+space"@, "f8"@, "push-to-talk"@],
            kind: SettingKindSpec::Enum { default: "hold"@, choices: spec_voice_capture_mode_choices(), supports_preview: false },
            restart_required: false,
            hidden_in_minimal: false,
        },
        SettingSpec {
            key: "voice_stt_language"@,
            category: SettingCategory::Editor,
            owner: SettingOwner::Shell,
            label: "语音语言"@,
            description: "语音听写的语音识别语言（Grok STT）。默认英语；「系统」在支持时使用区域设置。同时决定数字与货币的格式语言。"@,
            keywords: seq!["voice"@, "language"@, "locale"@, "dictation"@, "stt"@, "speech"@],
            kind: SettingKindSpec::Enum { default: "en"@, choices: spec_voice_stt_language_choices(), supports_preview: false },
            restart_required: false,
            hidden_in_minimal: false,
        },
        SettingSpec {
            key: "contextual_hints.undo"@,
            category: SettingCategory::Advanced,
            owner: SettingOwner::Shell,
            label: "撤销"@,
            description: "清空提示后提醒可用 Ctrl+Z 恢复。"@,
            keywords: seq!["undo"@, "ctrl+z"@, "draft"@, "wipe"@, "hint"@],
            kind: SettingKindSpec::Bool { default: src.ui.contextual_hints.undo.unwrap_or(true) },
            restart_required: false,
            hidden_in_minimal: false,
        },
        SettingSpec {
            key: "contextual_hints.plan_mode"@,
            category: SettingCategory::Advanced,
            owner: SettingOwner::Shell,
            label: "计划模式"@,
            description: "当提示像是规划请求时，建议使用计划模式（Shift+Tab）。"@,
            keywords: seq!["plan"@, "mode"@, "nudge"@, "shift+tab"@, "hint"@],
            kind: SettingKindSpec::Bool { default: src.ui.contextual_hints.plan_mode.unwrap_or(true) },
            restart_required: false,
            hidden_in_minimal: false,
        },
        SettingSpec {
            key: "contextual_hints.image_input"@,
            category: SettingCategory::Advanced,
            owner: SettingOwner::Shell,
            label: "图片输入"@,
            description: "剪贴板有图片且模型支持图片时，提示可粘贴。"@,
            keywords: seq!["image"@, "clipboard"@, "paste"@, "input"@, "hint"@],
            kind: SettingKindSpec::Bool { default: src.ui.contextual_hints.image_input.unwrap_or(true) },
            restart_required: false,
            hidden_in_minimal: false,
        },
        SettingSpec {
            key: "contextual_hints.send_now"@,
            category: SettingCategory::Advanced,
            owner: SettingOwner::Shell,
            label: "立即发送"@,
            description: "回合中途排队后续消息后，提醒空提示框按 Enter可立即发送队首项。"@,
            keywords: seq!["send"@, "now"@, "interject"@, "queue"@, "follow-up"@, "enter"@, "empty"@, "hint"@],
            kind: SettingKindSpec::Bool { default: src.ui.contextual_hints.send_now.unwrap_or(true) },
            restart_required: false,
            hidden_in_minimal: false,
        },
        SettingSpec {
            key: "contextual_hints.small_screen"@,
            category: SettingCategory::Advanced,
            owner: SettingOwner::Shell,
            label: "小屏"@,
            description: "终端行数较少时，每次运行建议一次 /compact-mode。"@,
            keywords: seq!["small"@, "screen"@, "compact"@, "space"@, "rows"@, "hint"@],
            kind: SettingKindSpec::Bool { default: src.ui.contextual_hints.small_screen.unwrap_or(true) },
            restart_required: false,
            hidden_in_minimal: false,
        },
        SettingSpec {
            key: "contextual_hints.word_select"@,
            category: SettingCategory::Advanced,
            owner: SettingOwner::Shell,
            label: "词选择"@,
            description: "在文本选择为折叠/导航时双击对话文字后，提醒「选词」在设置中。"@,
            keywords: seq!["word"@, "select"@, "double"@, "double-click"@, "click"@, "fold"@, "selection"@, "settings"@, "hint"@],
            kind: SettingKindSpec::Bool { default: src.ui.contextual_hints.word_select.unwrap_or(true) },
            restart_required: false,
            hidden_in_minimal: false,
        },
        SettingSpec {
            key: "fork_secondary_model"@,
            category: SettingCategory::Models,
            owner: SettingOwner::Shell,
            label: "分支副模型"@,
            description: "分支时副代理使用的模型。选「(无覆盖)」可清除。"@,
            keywords: seq!["fork"@, "secondary"@, "model"@, "agent"@, "subagent"@, "branch"@, "models"@],
            kind: SettingKindSpec::DynamicEnum { default: ""@, source: DynamicEnumSource::ActiveModelCatalog, supports_preview: false },
            restart_required: false,
            hidden_in_minimal: false,
        },
    ]
}

/// The number of settings in the catalog.
pub const SETTINGS_COUNT: usize = 43;

fn setting_entry(i: usize, src: &CatalogSources) -> (r: SettingMeta)
    requires
        i < SETTINGS_COUNT,
    ensures
        r@ == spec_default_settings(*src)[i as int],
{
    match i {
        0 => SettingMeta {
            key: "compact_mode",
            category: SettingCategory::Appearance,
            owner: SettingOwner::Shared,
            label: "紧凑模式",
            description: "减少消息周围留白以提高内容密度。终端高度 ≤20 行时自动开启。",
            keywords: &["compact", "density", "padding", "tight", "small", "screen", "auto"],
            kind: SettingKind::Bool { default: src.ui.compact_mode },
            restart_required: false,
            hidden_in_minimal: false,
        },
        1 => SettingMeta {
            key: "screen_mode",
            category: SettingCategory::Appearance,
            owner: SettingOwner::Shell,
            label: "默认屏幕模式",
            description: "下次启动 plain grok 的方式：全屏（未设置时默认）或极简。写入 config.toml 的 [ui] screen_mode。需重启。仅本会话可用 /minimal 或 /fullscreen 切换。",
            keywords: &["screen", "mode", "minimal", "fullscreen", "full", "scrollback", "native", "alt-screen", "render", "default"],
            kind: SettingKind::Enum { default: "fullscreen", choices: screen_mode_choices(), supports_preview: false },
            restart_required: true,
            hidden_in_minimal: false,
        },
        2 => SettingMeta {
            key: "show_timestamps",
            category: SettingCategory::Appearance,
            owner: SettingOwner::Shared,
            label: "显示时间戳",
            description: "在用户消息与代理回复旁显示时钟时间。",
            keywords: &["timestamps", "time", "clock", "date"],
            kind: SettingKind::Bool { default: src.ui.show_timestamps.unwrap_or(true) },
            restart_required: false,
            hidden_in_minimal: false,
        },
        3 => SettingMeta {
            key: "show_timeline",
            category: SettingCategory::Appearance,
            owner: SettingOwner::Shared,
            label: "时间线侧栏",
            description: "用每回合刻度条替代滚动条：悬停预览回合，点击跳转。",
            keywords: &["timeline", "sidebar", "ticks", "turns", "navigator", "rail"],
            kind: SettingKind::Bool { default: src.ui.show_timeline },
            restart_required: false,
            hidden_in_minimal: true,
        },
        4 => SettingMeta {
            key: "simple_mode",
            category: SettingCategory::Appearance,
            owner: SettingOwner::Shared,
            label: "禁用 Vim 输入模式",
            description: "提示框使用普通 readline 风格输入，而非 vim 键位。实验性。",
            keywords: &["simple", "ascii", "minimal", "plain", "vim", "readline", "experimental", "editor", "input", "prompt"],
            kind: SettingKind::Bool { default: src.ui.simple_mode.unwrap_or(true) },
            restart_required: false,
            hidden_in_minimal: false,
        },
        5 => SettingMeta {
            key: "vim_mode",
            category: SettingCategory::Appearance,
            owner: SettingOwner::Shell,
            label: "Vim 回滚导航",
            description: "用 vim 键（h/j/k/l、gg/G、/）导航回滚。不影响输入提示框。",
            keywords: &["vim", "scrollback", "navigation", "hjkl", "keys", "keybindings", "scroll"],
            kind: SettingKind::Bool { default: src.ui.vim_mode.unwrap_or(false) },
            restart_required: false,
            hidden_in_minimal: false,
        },
        6 => SettingMeta {
            key: "theme",
            category: SettingCategory::Appearance,
            owner: SettingOwner::Shared,
            label: "主题",
            description: "分页器界面的配色主题。",
            keywords: &["theme", "color", "colour", "palette", "appearance", "dark", "light"],
            kind: SettingKind::Enum { default: "groknight", choices: theme_choices(), supports_preview: true },
            restart_required: false,
            hidden_in_minimal: true,
        },
        7 => SettingMeta {
            key: "auto_dark_theme",
            category: SettingCategory::Appearance,
            owner: SettingOwner::Shared,
            label: "自动深色主题",
            description: "系统为深色模式时使用的主题（仅 theme=auto 时）。",
            keywords: &["auto", "dark", "theme", "system", "appearance", "night"],
            kind: SettingKind::Enum { default: "groknight", choices: concrete_theme_choices(), supports_preview: true },
            restart_required: false,
            hidden_in_minimal: true,
        },
        8 => SettingMeta {
            key: "auto_light_theme",
            category: SettingCategory::Appearance,
            owner: SettingOwner::Shared,
            label: "自动浅色主题",
            description: "系统为浅色模式时使用的主题（仅 theme=auto 时）。",
            keywords: &["auto", "light", "theme", "system", "appearance", "day"],
            kind: SettingKind::Enum { default: "grokday", choices: concrete_theme_choices(), supports_preview: true },
            restart_required: false,
            hidden_in_minimal: true,
        },
        9 => SettingMeta {
            key: "render_mermaid",
            category: SettingCategory::Appearance,
            owner: SettingOwner::Shell,
            label: "渲染 Mermaid 图",
            description: "```mermaid 代码块的显示方式：auto/on 增加可点击行以打开渲染图；off 显示原始源码。",
            keywords: &["mermaid", "diagram", "diagrams", "render", "flowchart", "graph", "chart"],
            kind: SettingKind::Enum { default: "auto", choices: render_mermaid_choices(), supports_preview: false },
            restart_required: false,
            hidden_in_minimal: false,
        },
        10 => SettingMeta {
            key: "permission_mode",
            category: SettingCategory::Agent,
            owner: SettingOwner::Shell,
            label: "权限模式",
            description: "默认使用代理内置行为；「询问」在每次工具操作前确认；「自动」用 LLM 分类器处理风险工具；「始终批准」自动授予全部权限。",
            keywords: &["permission", "approve", "yolo", "agent", "always", "ask", "auto", "classifier", "tool", "danger"],
            kind: SettingKind::Enum { default: "ask", choices: permission_mode_choices(), supports_preview: false },
            restart_required: false,
            hidden_in_minimal: false,
        },
        11 => SettingMeta {
            key: "remember_tool_approvals",
            category: SettingCategory::Agent,
            owner: SettingOwner::Shell,
            label: "记住工具批准",
            description: "在权限提示中显示「始终允许」选项，避免对同一命令或工具反复询问。适用于询问/自动模式；始终批准仍会跳过全部提示。需重启。",
            keywords: &["permission", "approve", "approval", "always", "allow", "remember", "tool", "command", "kubectl", "ask", "again", "whitelist"],
            kind: SettingKind::Bool { default: src.ui.remember_tool_approvals.unwrap_or(false) },
            restart_required: true,
            hidden_in_minimal: false,
        },
        12 => SettingMeta {
            key: "multiline_mode",
            category: SettingCategory::Editor,
            owner: SettingOwner::Pager,
            label: "多行",
            description: "开启后 Enter 换行，Shift+Enter 发送。每会话重置。",
            keywords: &["multiline", "newline", "input", "editor", "enter"],
            kind: SettingKind::Bool { default: false },
            restart_required: false,
            hidden_in_minimal: false,
        },
        13 => SettingMeta {
            key: "default_model",
            category: SettingCategory::Models,
            owner: SettingOwner::Shell,
            label: "默认模型",
            description: "新会话使用的模型。更改也会切换当前会话。选「(无覆盖)」可清除。",
            keywords: &["model", "default", "agent", "llm", "grok", "switch"],
            kind: SettingKind::DynamicEnum { default: "", source: DynamicEnumSource::ActiveModelCatalog, supports_preview: false },
            restart_required: false,
            hidden_in_minimal: false,
        },
        14 => SettingMeta {
            key: MAX_THOUGHTS_WIDTH_KEY,
            category: SettingCategory::Appearance,
            owner: SettingOwner::Shared,
            label: "思考块最大宽度",
            description: "代理思考面板的列宽预算（40–500，默认 120）。",
            keywords: &["thoughts", "width", "max", "thinking", "panel", "reasoning", "columns"],
            kind: SettingKind::Int { default: src.ui.max_thoughts_width as i64, min: MAX_THOUGHTS_WIDTH_MIN, max: MAX_THOUGHTS_WIDTH_MAX },
            restart_required: false,
            hidden_in_minimal: false,
        },
        15 => SettingMeta {
            key: "show_thinking_blocks",
            category: SettingCategory::Appearance,
            owner: SettingOwner::Shell,
            label: "显示思考块",
            description: "流式输出时在回滚中显示代理思考/推理块。",
            keywords: &["thinking", "reasoning", "thoughts", "blocks", "show", "hide"],
            kind: SettingKind::Bool { default: src.ui.show_thinking_blocks.unwrap_or(true) },
            restart_required: false,
            hidden_in_minimal: false,
        },
        16 => SettingMeta {
            key: "prompt_suggestions",
            category: SettingCategory::Editor,
            owner: SettingOwner::Shell,
            label: "提示建议",
            description: "每回合结束后预测你可能的下一条提示，并以幽灵文字显示在输入框（Tab 接受）。每回合会有一次小模型调用。",
            keywords: &["prompt", "suggestion", "suggestions", "autocomplete", "ghost", "tab", "predict", "next"],
            kind: SettingKind::Bool { default: src.ui.prompt_suggestions.unwrap_or(true) },
            restart_required: false,
            hidden_in_minimal: false,
        },
        17 => SettingMeta {
            key: "respect_manual_folds",
            category: SettingCategory::Appearance,
            owner: SettingOwner::Pager,
            label: "保留手动折叠",
            description: "流式输出时保留手动折叠块，展开块时停止自动滚动。实验性。",
            keywords: &["fold", "pin", "collapse", "expand", "thinking", "follow", "scroll"],
            kind: SettingKind::Bool { default: src.respect_manual_folds },
            restart_required: false,
            hidden_in_minimal: false,
        },
        18 => SettingMeta {
            key: "group_tool_verbs",
            category: SettingCategory::Appearance,
            owner: SettingOwner::Shell,
            label: "合并工具调用",
            description: "将连续的 read/search/list 工具调用与子代理行折叠为一行摘要；已完成的思考也会并入分组。",
            keywords: &["group", "tool", "verbs", "fold", "collapse", "read", "search", "summary", "thinking", "subagent"],
            kind: SettingKind::Bool { default: src.ui.group_tool_verbs.unwrap_or(true) },
            restart_required: false,
            hidden_in_minimal: false,
        },
        19 => SettingMeta {
            key: "collapsed_edit_blocks",
            category: SettingCategory::Appearance,
            owner: SettingOwner::Shell,
            label: "折叠编辑块",
            description: "将编辑显示为一行 +N/-M 摘要，并把同一文件连续编辑合并为一块；展开行可查看 diff。",
            keywords: &["edit", "edits", "diff", "diffstat", "collapse", "collapsed", "summary", "expand", "one-line", "merge", "coalesce"],
            kind: SettingKind::Bool { default: src.ui.collapsed_edit_blocks.unwrap_or(false) },
            restart_required: false,
            hidden_in_minimal: false,
        },
        20 => SettingMeta {
            key: "display_refresh_auto_cadence",
            category: SettingCategory::Appearance,
            owner: SettingOwner::Shell,
            label: "匹配显示刷新率",
            description: "在高刷新率显示器上，TUI 会更快地流式输出/滚动以匹配刷新率。关闭则保持约 60Hz。需重启。",
            keywords: &["display", "refresh", "rate", "hz", "cadence", "fps", "smooth", "scroll", "stream", "high", "120", "144"],
            kind: SettingKind::Bool { default: src.ui.display_refresh_auto_cadence.unwrap_or(false) },
            restart_required: true,
            hidden_in_minimal: true,
        },
        21 => SettingMeta {
            key: "scroll_speed",
            category: SettingCategory::Mouse,
            owner: SettingOwner::Shell,
            label: "滚动速度",
            description: "鼠标滚轮与触控板滚动速度倍率（1–100）。越大越快。",
            keywords: &["scroll", "speed", "mouse", "wheel", "trackpad", "fast", "slow"],
            kind: SettingKind::Int { default: or_i64(src.ui.scroll_speed, 50), min: 1, max: 100 },
            restart_required: false,
            hidden_in_minimal: false,
        },
        22 => SettingMeta {
            key: "scroll_mode",
            category: SettingCategory::Mouse,
            owner: SettingOwner::Shell,
            label: "滚动输入",
            description: "自动检测误判设备时，强制使用滚轮或触控板滚动行为。",
            keywords: &["scroll", "mode", "wheel", "trackpad", "mouse", "detect", "force", "input"],
            kind: SettingKind::Enum { default: scroll_mode_default(&src.ui.scroll_mode), choices: scroll_mode_choices(), supports_preview: false },
            restart_required: false,
            hidden_in_minimal: false,
        },
        23 => SettingMeta {
            key: "scroll_lines",
            category: SettingCategory::Mouse,
            owner: SettingOwner::Shell,
            label: "滚动行数",
            description: "滚轮与触控板每跳滚动行数（1–10）。未设置前沿用各终端自身配置。",
            keywords: &["scroll", "lines", "tick", "notch", "wheel", "trackpad", "mouse"],
            kind: SettingKind::Int { default: or_i64(src.ui.scroll_lines, 3), min: 1, max: 10 },
            restart_required: false,
            hidden_in_minimal: false,
        },
        24 => SettingMeta {
            key: "invert_scroll",
            category: SettingCategory::Mouse,
            owner: SettingOwner::Shell,
            label: "反转滚动",
            description: "反转垂直滚动方向（自然滚动）。",
            keywords: &["invert", "scroll", "natural", "direction", "reverse", "mouse", "trackpad"],
            kind: SettingKind::Bool { default: src.ui.invert_scroll.unwrap_or(false) },
            restart_required: false,
            hidden_in_minimal: false,
        },
        25 => SettingMeta {
            key: "keep_text_selection",
            category: SettingCategory::Mouse,
            owner: SettingOwner::Shell,
            label: "文本选择",
            description: "应用内选择在屏幕上保持多久，以及双击行为（折叠 vs 选词并复制）。终端/多路复用器自身的选择请按住 Shift 拖动（原生复制）。",
            keywords: &["selection", "drag", "copy", "flash", "hold", "shift", "native", "mouse", "tmux", "double", "double-click", "word", "terminal"],
            kind: SettingKind::Enum { default: "flash", choices: text_selection_choices(src), supports_preview: false },
            restart_required: false,
            hidden_in_minimal: false,
        },
        26 => SettingMeta {
            key: "coding_data_sharing",
            category: SettingCategory::Privacy,
            owner: SettingOwner::Shell,
            label: "编程数据共享",
            description: "控制 SpaceXAI 是否可保留并以编程会话数据做训练。",
            keywords: &["privacy", "data", "sharing", "coding", "retention", "telemetry", "training", "opt-in", "opt-out"],
            kind: SettingKind::Enum { default: "opt-in", choices: coding_data_sharing_choices(), supports_preview: false },
            restart_required: false,
            hidden_in_minimal: false,
        },
        27 => SettingMeta {
            key: "default_selected_permission",
            category: SettingCategory::Agent,
            owner: SettingOwner::Shell,
            label: "默认选中的权限选项",
            description: "权限提示中光标预选中的选项行。",
            keywords: &["permission", "approval", "cursor", "preselect", "default", "sticky", "last", "used", "yes", "no", "reject", "allow"],
            kind: SettingKind::Enum { default: src.permission_always_allow_all_sessions.canonical, choices: default_selected_permission_choices(src), supports_preview: false },
            restart_required: false,
            hidden_in_minimal: false,
        },
        28 => SettingMeta {
            key: "toolset.ask_user_question.timeout_enabled",
            category: SettingCategory::Agent,
            owner: SettingOwner::Shell,
            label: "提问超时",
            description: "开启后，ask_user_question 工具会在设定时间后超时，而不是无限阻塞。",
            keywords: &["ask", "question", "questionnaire", "timeout", "ask_user_question", "block", "wait", "forever", "tool"],
            kind: SettingKind::Bool { default: src.ask_user_question_timeout_enabled },
            restart_required: true,
            hidden_in_minimal: false,
        },
        29 => SettingMeta {
            key: "plan_mode",
            category: SettingCategory::Agent,
            owner: SettingOwner::Pager,
            label: "计划模式",
            description: "开启后，代理在运行工具或编辑前会先总结计划。",
            keywords: &["plan", "mode", "agent", "summary", "approval", "review", "session"],
            kind: SettingKind::Enum { default: "off", choices: plan_mode_choices(), supports_preview: false },
            restart_required: false,
            hidden_in_minimal: false,
        },
        30 => SettingMeta {
            key: "show_tips",
            category: SettingCategory::Advanced,
            owner: SettingOwner::Shell,
            label: "显示提示",
            description: "启动时显示每日提示横幅。需重启生效。",
            keywords: &["tips", "tip", "show", "banner", "welcome", "startup", "launch"],
            kind: SettingKind::Bool { default: true },
            restart_required: true,
            hidden_in_minimal: false,
        },
        31 => SettingMeta {
            key: "contextual_hints",
            category: SettingCategory::Advanced,
            owner: SettingOwner::Shell,
            label: "显示情境提示",
            description: "工作时显示简短的情境快捷键提示；可逐项开关。",
            keywords: &["contextual", "hints", "tips", "undo", "plan", "nudge", "image", "clipboard", "ephemeral", "send", "interject", "queue", "ctrl+z", "draft", "wipe", "mode", "shift+tab", "paste", "input", "enter", "follow-up", "small", "screen", "compact"],
            kind: SettingKind::Group { children: contextual_hints_children() },
            restart_required: false,
            hidden_in_minimal: false,
        },
        32 => SettingMeta {
            key: "auto_update",
            category: SettingCategory::Advanced,
            owner: SettingOwner::Shell,
            label: "自动更新",
            description: "启动时自动下载并安装分页器更新。需重启。",
            keywords: &["auto", "update", "updates", "upgrade", "version", "install", "channel"],
            kind: SettingKind::Bool { default: true },
            restart_required: true,
            hidden_in_minimal: false,
        },
        33 => SettingMeta {
            key: "hunk_tracker_mode",
            category: SettingCategory::Advanced,
            owner: SettingOwner::Shell,
            label: "改动块跟踪",
            description: "代理以 hunk 跟踪哪些文件改动。关则完全禁用跟踪（及 LOC 统计）。需重启。",
            keywords: &["hunk", "tracker", "tracking", "diff", "changes", "git", "loc", "off", "disable"],
            kind: SettingKind::Enum { default: "agent_only", choices: hunk_tracker_mode_choices(), supports_preview: false },
            restart_required: true,
            hidden_in_minimal: false,
        },
        34 => SettingMeta {
            key: "voice_capture_mode",
            category: SettingCategory::Editor,
            owner: SettingOwner::Shell,
            label: "语音采集",
            description: "语音快捷键（Ctrl+Space / F8）行为：切换（按一下开始/停止）或按住说话（按住录音，松开停止；需要 Kitty 协议终端）。",
            keywords: &["voice", "dictation", "dictate", "mic", "microphone", "speech", "stt", "toggle", "hold", "ctrl+space", "f8", "push-to-talk"],
            kind: SettingKind::Enum { default: "hold", choices: voice_capture_mode_choices(), supports_preview: false },
            restart_required: false,
            hidden_in_minimal: false,
        },
        35 => SettingMeta {
            key: "voice_stt_language",
            category: SettingCategory::Editor,
            owner: SettingOwner::Shell,
            label: "语音语言",
            description: "语音听写的语音识别语言（Grok STT）。默认英语；「系统」在支持时使用区域设置。同时决定数字与货币的格式语言。",
            keywords: &["voice", "language", "locale", "dictation", "stt", "speech"],
            kind: SettingKind::Enum { default: "en", choices: voice_stt_language_choices(), supports_preview: false },
            restart_required: false,
            hidden_in_minimal: false,
        },
        36 => SettingMeta {
            key: "contextual_hints.undo",
            category: SettingCategory::Advanced,
            owner: SettingOwner::Shell,
            label: "撤销",
            description: "清空提示后提醒可用 Ctrl+Z 恢复。",
            keywords: &["undo", "ctrl+z", "draft", "wipe", "hint"],
            kind: SettingKind::Bool { default: src.ui.contextual_hints.undo.unwrap_or(true) },
            restart_required: false,
            hidden_in_minimal: false,
        },
        37 => SettingMeta {
            key: "contextual_hints.plan_mode",
            category: SettingCategory::Advanced,
            owner: SettingOwner::Shell,
            label: "计划模式",
            description: "当提示像是规划请求时，建议使用计划模式（Shift+Tab）。",
            keywords: &["plan", "mode", "nudge", "shift+tab", "hint"],
            kind: SettingKind::Bool { default: src.ui.contextual_hints.plan_mode.unwrap_or(true) },
            restart_required: false,
            hidden_in_minimal: false,
        },
        38 => SettingMeta {
            key: "contextual_hints.image_input",
            category: SettingCategory::Advanced,
            owner: SettingOwner::Shell,
            label: "图片输入",
            description: "剪贴板有图片且模型支持图片时，提示可粘贴。",
            keywords: &["image", "clipboard", "paste", "input", "hint"],
            kind: SettingKind::Bool { default: src.ui.contextual_hints.image_input.unwrap_or(true) },
            restart_required: false,
            hidden_in_minimal: false,
        },
        39 => SettingMeta {
            key: "contextual_hints.send_now",
            category: SettingCategory::Advanced,
            owner: SettingOwner::Shell,
            label: "立即发送",
            description: "回合中途排队后续消息后，提醒空提示框按 Enter可立即发送队首项。",
            keywords: &["send", "now", "interject", "queue", "follow-up", "enter", "empty", "hint"],
            kind: SettingKind::Bool { default: src.ui.contextual_hints.send_now.unwrap_or(true) },
            restart_required: false,
            hidden_in_minimal: false,
        },
        40 => SettingMeta {
            key: "contextual_hints.small_screen",
            category: SettingCategory::Advanced,
            owner: SettingOwner::Shell,
            label: "小屏",
            description: "终端行数较少时，每次运行建议一次 /compact-mode。",
            keywords: &["small", "screen", "compact", "space", "rows", "hint"],
            kind: SettingKind::Bool { default: src.ui.contextual_hints.small_screen.unwrap_or(true) },
            restart_required: false,
            hidden_in_minimal: false,
        },
        41 => SettingMeta {
            key: "contextual_hints.word_select",
            category: SettingCategory::Advanced,
            owner: SettingOwner::Shell,
            label: "词选择",
            description: "在文本选择为折叠/导航时双击对话文字后，提醒「选词」在设置中。",
            keywords: &["word", "select", "double", "double-click", "click", "fold", "selection", "settings", "hint"],
            kind: SettingKind::Bool { default: src.ui.contextual_hints.word_select.unwrap_or(true) },
            restart_required: false,
            hidden_in_minimal: false,
        },
        _ => SettingMeta {
            key: "fork_secondary_model",
            category: SettingCategory::Models,
            owner: SettingOwner::Shell,
            label: "分支副模型",
            description: "分支时副代理使用的模型。选「(无覆盖)」可清除。",
            keywords: &["fork", "secondary", "model", "agent", "subagent", "branch", "models"],
            kind: SettingKind::DynamicEnum { default: "", source: DynamicEnumSource::ActiveModelCatalog, supports_preview: false },
            restart_required: false,
            hidden_in_minimal: false,
        },
    }
}

/// Builds the catalog, in the order the settings modal lists it.
pub fn default_settings(src: &CatalogSources) -> (r: Vec<SettingMeta>)
    ensures
        r@.len() == spec_default_settings(*src).len(),
        forall|i: int| 0 <= i < r@.len() ==> (#[trigger] r@[i])@ == spec_default_settings(*src)[i],
{
    let mut r: Vec<SettingMeta> = Vec::new();
    for i in 0..SETTINGS_COUNT
        invariant
            r@.len() == i,
            SETTINGS_COUNT == spec_default_settings(*src).len(),
            forall|j: int| 0 <= j < i ==> (#[trigger] r@[j])@ == spec_default_settings(*src)[j],
    {
        r.push(setting_entry(i, src));
    }
    r
}

} // verus!
