//! Interface languages and the translation table.
//!
//! `translate` is a pure table lookup from a language and a key to a static
//! string. The interface reads the language once: the first resolution looks at
//! `LC_ALL` and then `LANG` (handed in by the caller, who owns the process
//! environment) and the answer is kept in a cache that later calls reuse.
use vstd::prelude::*;

use crate::text::{
    ascii_lower, before_any, chars_before, chars_eq_ignore_ascii_case, chars_equal, chars_of,
    chars_start_with, chars_start_with_ignore_ascii_case, eq_ignore_ascii_case, is_blank,
    is_white_space, lemma_before_any_stops_at, lemma_pair_contains, lemma_trim_blank, lemma_trim_clean,
    starts_with_ignore_ascii_case, to_ascii_lower, trim, trim_chars,
};

verus! {

/// The languages the interface is available in.
///
/// English is the default, and the fallback whenever detection finds nothing.
#[derive(Debug, Clone, Copy, PartialEq, Eq, Structural, Hash)]
pub enum Language {
    En,
    ZhCn,
}

impl Default for Language {
    fn default() -> (r: Self)
        ensures
            r == Language::En,
    {
        Language::En
    }
}

/// A character of a language code as `from_code` compares it: ASCII letters
/// lower-cased, `_` read as `-`.
pub open spec fn code_char(c: char) -> char {
    if c == '_' {
        '-'
    } else {
        ascii_lower(c)
    }
}

/// The code with any `@modifier` suffix removed and every character normalised.
pub open spec fn normalized_code(code: Seq<char>) -> Seq<char> {
    before_any(code, seq!['@', '@']).map_values(|c: char| code_char(c))
}

/// The normalised English codes: `en`, `en-us`, `en-gb`, `en-au`, `en-ca`.
pub open spec fn is_english_code(n: Seq<char>) -> bool {
    ||| n == seq!['e', 'n']
    ||| n == seq!['e', 'n', '-', 'u', 's']
    ||| n == seq!['e', 'n', '-', 'g', 'b']
    ||| n == seq!['e', 'n', '-', 'a', 'u']
    ||| n == seq!['e', 'n', '-', 'c', 'a']
}

/// The normalised Chinese codes: `zh` and anything that starts with `zh-`
/// (traditional variants included: only simplified text exists, which serves
/// those readers better than English).
pub open spec fn is_chinese_code(n: Seq<char>) -> bool {
    n == seq!['z', 'h'] || (n.len() >= 3 && n.take(3) == seq!['z', 'h', '-'])
}

/// What `Language::from_code` answers for `code`.
pub open spec fn language_of_code(code: Seq<char>) -> Option<Language> {
    let n = normalized_code(code);
    if is_english_code(n) {
        Some(Language::En)
    } else if is_chinese_code(n) {
        Some(Language::ZhCn)
    } else {
        None
    }
}

/// What `language_from_locale` answers for a locale such as `zh_CN.UTF-8`,
/// `en_US` or `C`. Its main part is what comes before any `.encoding` or
/// `@modifier`, trimmed: nothing, `C` or `POSIX` mean English; a main part that
/// starts with `zh` (in any ASCII case) means Chinese; anything else is read as
/// a language code, English when unknown.
pub open spec fn language_of_locale(locale: Seq<char>) -> Language {
    let primary = trim(before_any(locale, seq!['.', '@']));
    if primary.len() == 0 {
        Language::En
    } else if eq_ignore_ascii_case(primary, seq!['c']) || eq_ignore_ascii_case(
        primary,
        seq!['p', 'o', 's', 'i', 'x'],
    ) {
        Language::En
    } else if starts_with_ignore_ascii_case(primary, seq!['z', 'h']) {
        Language::ZhCn
    } else {
        match language_of_code(primary) {
            Some(l) => l,
            None => Language::En,
        }
    }
}

/// A locale variable counts when it is set and holds more than white space.
pub open spec fn locale_is_set(v: Option<Seq<char>>) -> bool {
    v is Some && trim(v->0).len() > 0
}

/// The language chosen from the values of `LC_ALL` and `LANG` (`None` when a
/// variable is unset): the first one that is set decides, English otherwise.
pub open spec fn detected_language(lc_all: Option<Seq<char>>, lang: Option<Seq<char>>) -> Language {
    if locale_is_set(lc_all) {
        language_of_locale(lc_all->0)
    } else if locale_is_set(lang) {
        language_of_locale(lang->0)
    } else {
        Language::En
    }
}

/// The language in effect: the cached one, or else the detected one.
pub open spec fn resolved_language(
    cache: Option<Language>,
    lc_all: Option<Seq<char>>,
    lang: Option<Seq<char>>,
) -> Language {
    match cache {
        Some(l) => l,
        None => detected_language(lc_all, lang),
    }
}

impl Language {
    /// Reads a language code, ignoring ASCII case, any `@modifier` suffix and
    /// the difference between `_` and `-`.
    ///
    /// English: `en`, `en-us`, `en-gb`, `en-au`, `en-ca`. Chinese: `zh` and
    /// every `zh-…` code. `C` and `POSIX` are not languages and, like every
    /// other code, give `None`.
    ///
    /// The codes that decide are ASCII, and no character outside ASCII
    /// lower-cases to the letters they use, so folding ASCII case alone gives
    /// the same answers as full Unicode lower-casing.
    pub fn from_code(code: &str) -> (r: Option<Language>)
        ensures
            r == language_of_code(code@),
    {
        let chars = chars_of(code);
        language_of_chars(&chars)
    }
}

/// Reads a locale string (`zh_CN.UTF-8`, `en_US`, `C`, …) as a language; never
/// fails, English being the fallback. Every `zh…` locale is Chinese.
pub fn language_from_locale(locale: &str) -> (r: Language)
    ensures
        r == language_of_locale(locale@),
{
    let chars = chars_of(locale);
    let head = chars_before(&chars, '.', '@');
    let primary = trim_chars(&head);
    if primary.len() == 0 {
        return Language::En;
    }
    if chars_eq_ignore_ascii_case(&primary, &['c']) || chars_eq_ignore_ascii_case(
        &primary,
        &['p', 'o', 's', 'i', 'x'],
    ) {
        return Language::En;
    }
    if chars_start_with_ignore_ascii_case(&primary, &['z', 'h']) {
        return Language::ZhCn;
    }
    match language_of_chars(&primary) {
        Some(l) => l,
        None => Language::En,
    }
}

/// `Language::from_code` on text already split into characters.
fn language_of_chars(code: &Vec<char>) -> (r: Option<Language>)
    ensures
        r == language_of_code(code@),
{
    let head = chars_before(code, '@', '@');
    let mut n: Vec<char> = Vec::new();
    let mut i: usize = 0;
    while i < head.len()
        invariant
            i <= head.len(),
            n@ == head@.take(i as int).map_values(|c: char| code_char(c)),
        decreases head.len() - i,
    {
        let c = head[i];
        let d = if c == '_' {
            '-'
        } else {
            to_ascii_lower(c)
        };
        n.push(d);
        assert(n@ =~= head@.take(i + 1).map_values(|c: char| code_char(c)));
        i = i + 1;
    }
    assert(head@.take(head@.len() as int) =~= head@);
    if chars_equal(&n, &['e', 'n']) || chars_equal(&n, &['e', 'n', '-', 'u', 's'])
        || chars_equal(&n, &['e', 'n', '-', 'g', 'b']) || chars_equal(
        &n,
        &['e', 'n', '-', 'a', 'u'],
    ) || chars_equal(&n, &['e', 'n', '-', 'c', 'a']) {
        return Some(Language::En);
    }
    if chars_equal(&n, &['z', 'h']) || chars_start_with(&n, &['z', 'h', '-']) {
        return Some(Language::ZhCn);
    }
    None
}

/// Chooses the language from the values of `LC_ALL` and `LANG` (`None` for an
/// unset variable): `LC_ALL` wins when it holds more than white space, then
/// `LANG`; English when neither does. A `zh…` value means Chinese.
pub fn detect(lc_all: Option<&str>, lang: Option<&str>) -> (r: Language)
    ensures
        r == detected_language(lc_all.deep_view(), lang.deep_view()),
{
    if let Some(v) = lc_all {
        let chars = chars_of(v);
        if !is_blank(&chars) {
            return language_from_locale(v);
        }
    }
    if let Some(v) = lang {
        let chars = chars_of(v);
        if !is_blank(&chars) {
            return language_from_locale(v);
        }
    }
    Language::En
}

/// Every piece of interface text that has a translation.
#[derive(Debug, Clone, Copy, PartialEq, Eq, Structural, Hash)]
pub enum TranslationKey {

    // help overlay: group headings
    GlobalGroup,
    NavigationGroup,
    WorkspacesTabsGroup,
    PanesGroup,
    CustomGroup,

    // help overlay: global group
    PrefixMode,
    KeybindsLabel,
    Settings,
    Detach,
    ReloadConfig,
    OpenNotificationTarget,

    // help overlay: navigation group
    Back,
    WorkspaceList,
    MoveFocus,
    CyclePane,
    OpenWorkspace,
    SwitchWorkspace,

    // help overlay: workspaces / tabs group
    WorkspaceNavigation,
    SessionNavigator,
    NewWorkspace,
    NewWorktree,
    OpenWorktree,
    DeleteWorktreeCheckout,
    RenameWorkspace,
    CloseWorkspace,
    PreviousWorkspace,
    NextWorkspace,
    SwitchWorkspace19,
    PreviousAgent,
    NextAgent,
    FocusAgent19,
    NewTab,
    RenameTab,
    PreviousTab,
    NextTab,
    SwitchTab19,
    CloseTab,

    // help overlay: panes group
    SplitVertical,
    SplitHorizontal,
    ClosePane,
    RenamePane,
    EditScrollback,
    CopyMode,
    ZoomPane,
    ResizeMode,
    ToggleSidebar,
    FocusPaneLeft,
    FocusPaneDown,
    FocusPaneUp,
    FocusPaneRight,
    CyclePaneNext,
    CyclePanePrevious,
    LastPane,

    // help overlay: custom group
    CustomCommand,

    // help overlay: other text
    Unset,
    NoMatchingKeybinds,
    Close,
    PressSlashToFilter,
    FilterLabel,
    ClearLabel,
    ScrollLabel,
    SearchLabel,

    // mode badges
    ModePrefix,
    ModeCopy,
    ModeNavigate,
    ModeResize,

    // PREFIX overlay
    Cancel,
    SendPrefix,
    WorkspaceNavShort,

    // COPY overlay
    EnterSearchEscCancel,
    Selecting,
    Select,
    Exit,
    ClearQExit,
    Move,
    Repeat,
    Copy,

    // NAVIGATE overlay
    WsShort,
    Pane,
    NavigatorShort,
    SplitVertSymbol,
    SplitHorizSymbol,
    Zoom,
    ResizeShort,
    UpdateReady,

    // RESIZE overlay
    Width,
    Height,
    Done,

    // global menu
    WhatsNew,

    // dialogs: common buttons
    Save,
    Confirm,
    Open,
    CreateAndOpen,
    DeleteAnyway,
    Remove,

    // dialogs: new worktree
    Branch,
    Checkout,
    Creating,

    // dialogs: remove worktree
    DeleteWorktreeCheckoutQ,
    RemovesCheckoutFolder,
    BranchNotDeletedWorkspaceWillClose,
    DirtyWillBeDeleted,
    Removing,

    // dialogs: open worktree
    NoMatchingWorktrees,
    FilterWorktrees,
    Checkouts,

    // dialogs: confirm close
    CloseWorkspaceQ,
    CloseWorktreeGroupQ,
    PaneUnitSingular,
    PaneUnitPlural,
    WorkspaceUnitSingular,
    WorkspaceUnitPlural,

    // context menu
    CmRename,
    CmClose,
    CmCloseGroup,
    CmNewWorktree,
    CmOpenWorktree,
    CmDeleteWorktree,
    CmCollapse,
    CmExpand,
    CmNewTab,
    CmRenamePane,
    CmClearPaneName,
    CmSwapWithFocusedPane,
    CmSplitRight,
    CmSplitDown,
    CmZoom,
    CmClosePane,

    // mobile view
    MobileSwitch,
    NoWorkspace,
    Filtered,
    Agents,
    NoMatchingAgents,
    Spaces,
    NewWorkspaceMobile,
    Tabs,
    NewTabMobile,
    TabPrefix,
    Menu,
    NoAgents,
    AllIdle,
    BlockedLabel,
    DoneLabel,
    WorkingLabel,
    IdleLabel,
    WaitingAgent,
    DoneAgent,

    // sidebar
    SidebarNew,
    SortGrouped,
    SortPriority,
    UnknownLabel,
    CopiedToClipboard,

    // settings
    SoundAlerts,
    SoundAlertsDesc,
    NotificationPopups,
    NotificationPopupsDesc,
    ToastInsideHerdr,
    ToastViaTerminal,
    ToastViaSystem,
    ToggleOn,
    ToggleOff,
    AgentBorderLabels,
    AgentBorderLabelsDesc,
    AgentIntegrations,
    AgentIntegrationsDesc,
    NoIntegrationTargets,
    IntegrationsHintInstall,
    IntegrationsAllInstalled,
    IntegrationsNoneFound,
    Install,
    Apply,
    SectionHint,

    // settings: section tabs
    SectionTheme,
    SectionSound,
    SectionToast,
    SectionPaneLabels,
    SectionIntegrations,

    // integration states
    IntegrationInstalled,
    IntegrationUpdateAvailable,
    IntegrationAvailable,
    IntegrationNotFound,
    IntegrationsAllCurrent,
}

/// The English text of each key.
pub open spec fn english_text(key: TranslationKey) -> &'static str {
    match key {
        TranslationKey::GlobalGroup => "global",
        TranslationKey::NavigationGroup => "navigation",
        TranslationKey::WorkspacesTabsGroup => "workspaces / tabs",
        TranslationKey::PanesGroup => "panes",
        TranslationKey::CustomGroup => "custom",
        TranslationKey::PrefixMode => "prefix mode",
        TranslationKey::KeybindsLabel => "keybinds",
        TranslationKey::Settings => "settings",
        TranslationKey::Detach => "detach",
        TranslationKey::ReloadConfig => "reload config",
        TranslationKey::OpenNotificationTarget => "open notification target",
        TranslationKey::Back => "back",
        TranslationKey::WorkspaceList => "workspace list",
        TranslationKey::MoveFocus => "move focus",
        TranslationKey::CyclePane => "cycle pane",
        TranslationKey::OpenWorkspace => "open workspace",
        TranslationKey::SwitchWorkspace => "switch workspace",
        TranslationKey::WorkspaceNavigation => "workspace navigation",
        TranslationKey::SessionNavigator => "session navigator",
        TranslationKey::NewWorkspace => "new workspace",
        TranslationKey::NewWorktree => "new worktree",
        TranslationKey::OpenWorktree => "open worktree",
        TranslationKey::DeleteWorktreeCheckout => "delete worktree checkout",
        TranslationKey::RenameWorkspace => "rename workspace",
        TranslationKey::CloseWorkspace => "close workspace",
        TranslationKey::PreviousWorkspace => "previous workspace",
        TranslationKey::NextWorkspace => "next workspace",
        TranslationKey::SwitchWorkspace19 => "switch workspace 1-9",
        TranslationKey::PreviousAgent => "previous agent",
        TranslationKey::NextAgent => "next agent",
        TranslationKey::FocusAgent19 => "focus agent 1-9",
        TranslationKey::NewTab => "new tab",
        TranslationKey::RenameTab => "rename tab",
        TranslationKey::PreviousTab => "previous tab",
        TranslationKey::NextTab => "next tab",
        TranslationKey::SwitchTab19 => "switch tab 1-9",
        TranslationKey::CloseTab => "close tab",
        TranslationKey::SplitVertical => "split vertical",
        TranslationKey::SplitHorizontal => "split horizontal",
        TranslationKey::ClosePane => "close pane",
        TranslationKey::RenamePane => "rename pane",
        TranslationKey::EditScrollback => "edit scrollback",
        TranslationKey::CopyMode => "copy mode",
        TranslationKey::ZoomPane => "zoom pane",
        TranslationKey::ResizeMode => "resize mode",
        TranslationKey::ToggleSidebar => "toggle sidebar",
        TranslationKey::FocusPaneLeft => "focus pane left",
        TranslationKey::FocusPaneDown => "focus pane down",
        TranslationKey::FocusPaneUp => "focus pane up",
        TranslationKey::FocusPaneRight => "focus pane right",
        TranslationKey::CyclePaneNext => "cycle pane next",
        TranslationKey::CyclePanePrevious => "cycle pane previous",
        TranslationKey::LastPane => "last pane",
        TranslationKey::CustomCommand => "custom command",
        TranslationKey::Unset => "unset",
        TranslationKey::NoMatchingKeybinds => "no matching keybinds",
        TranslationKey::Close => "close",
        TranslationKey::PressSlashToFilter => "press / to filter by command or shortcut",
        TranslationKey::FilterLabel => "filter",
        TranslationKey::ClearLabel => "clear",
        TranslationKey::ScrollLabel => "scroll",
        TranslationKey::SearchLabel => "search",
        TranslationKey::ModePrefix => "PREFIX",
        TranslationKey::ModeCopy => "COPY",
        TranslationKey::ModeNavigate => "NAVIGATE",
        TranslationKey::ModeResize => "RESIZE",
        TranslationKey::Cancel => "cancel",
        TranslationKey::SendPrefix => "send prefix",
        TranslationKey::WorkspaceNavShort => "workspace nav",
        TranslationKey::EnterSearchEscCancel => "enter search  esc cancel",
        TranslationKey::Selecting => "selecting",
        TranslationKey::Select => "select",
        TranslationKey::Exit => "exit",
        TranslationKey::ClearQExit => "clear  q exit",
        TranslationKey::Move => "move",
        TranslationKey::Repeat => "repeat",
        TranslationKey::Copy => "copy",
        TranslationKey::WsShort => "ws",
        TranslationKey::Pane => "pane",
        TranslationKey::NavigatorShort => "navigator",
        TranslationKey::SplitVertSymbol => "split│",
        TranslationKey::SplitHorizSymbol => "split─",
        TranslationKey::Zoom => "zoom",
        TranslationKey::ResizeShort => "resize",
        TranslationKey::UpdateReady => "update ready",
        TranslationKey::Width => "width",
        TranslationKey::Height => "height",
        TranslationKey::Done => "done",
        TranslationKey::WhatsNew => "what's new",
        TranslationKey::Save => "save",
        TranslationKey::Confirm => "confirm",
        TranslationKey::Open => "open",
        TranslationKey::CreateAndOpen => "create and open",
        TranslationKey::DeleteAnyway => "delete anyway",
        TranslationKey::Remove => "remove",
        TranslationKey::Branch => "branch",
        TranslationKey::Checkout => "checkout",
        TranslationKey::Creating => "creating…",
        TranslationKey::DeleteWorktreeCheckoutQ => "delete worktree checkout?",
        TranslationKey::RemovesCheckoutFolder => "This removes the checkout folder:",
        TranslationKey::BranchNotDeletedWorkspaceWillClose => "The branch is not deleted. The Herdr workspace will close.",
        TranslationKey::DirtyWillBeDeleted => "Dirty or untracked files will be permanently deleted.",
        TranslationKey::Removing => "removing…",
        TranslationKey::NoMatchingWorktrees => "no matching worktrees",
        TranslationKey::FilterWorktrees => "filter worktrees",
        TranslationKey::Checkouts => "checkouts",
        TranslationKey::CloseWorkspaceQ => "Close workspace?",
        TranslationKey::CloseWorktreeGroupQ => "Close worktree group?",
        TranslationKey::PaneUnitSingular => "pane",
        TranslationKey::PaneUnitPlural => "panes",
        TranslationKey::WorkspaceUnitSingular => "workspace",
        TranslationKey::WorkspaceUnitPlural => "workspaces",
        TranslationKey::CmRename => "Rename",
        TranslationKey::CmClose => "Close",
        TranslationKey::CmCloseGroup => "Close group",
        TranslationKey::CmNewWorktree => "New worktree",
        TranslationKey::CmOpenWorktree => "Open worktree...",
        TranslationKey::CmDeleteWorktree => "Delete worktree checkout...",
        TranslationKey::CmCollapse => "Collapse",
        TranslationKey::CmExpand => "Expand",
        TranslationKey::CmNewTab => "New tab",
        TranslationKey::CmRenamePane => "Rename pane",
        TranslationKey::CmClearPaneName => "Clear pane name",
        TranslationKey::CmSwapWithFocusedPane => "Swap with focused pane",
        TranslationKey::CmSplitRight => "Split right",
        TranslationKey::CmSplitDown => "Split down",
        TranslationKey::CmZoom => "Zoom",
        TranslationKey::CmClosePane => "Close pane",
        TranslationKey::MobileSwitch => "switch",
        TranslationKey::NoWorkspace => "no workspace",
        TranslationKey::Filtered => "filtered",
        TranslationKey::Agents => "agents",
        TranslationKey::NoMatchingAgents => "no matching agents",
        TranslationKey::Spaces => "spaces",
        TranslationKey::NewWorkspaceMobile => "+ new workspace",
        TranslationKey::Tabs => "tabs",
        TranslationKey::NewTabMobile => "+ new tab",
        TranslationKey::TabPrefix => "tab",
        TranslationKey::Menu => "menu",
        TranslationKey::NoAgents => "no agents",
        TranslationKey::AllIdle => "all idle",
        TranslationKey::BlockedLabel => "blocked",
        TranslationKey::DoneLabel => "done",
        TranslationKey::WorkingLabel => "working",
        TranslationKey::IdleLabel => "idle",
        TranslationKey::WaitingAgent => "waiting",
        TranslationKey::DoneAgent => "done",
        TranslationKey::SidebarNew => "new",
        TranslationKey::SortGrouped => "grouped",
        TranslationKey::SortPriority => "priority",
        TranslationKey::UnknownLabel => "unknown",
        TranslationKey::CopiedToClipboard => "copied to clipboard",
        TranslationKey::SoundAlerts => "sound alerts",
        TranslationKey::SoundAlertsDesc => "play sounds when agents change state in background",
        TranslationKey::NotificationPopups => "notification popups",
        TranslationKey::NotificationPopupsDesc => "choose where background popup notifications should appear",
        TranslationKey::ToastInsideHerdr => "inside herdr",
        TranslationKey::ToastViaTerminal => "via terminal",
        TranslationKey::ToastViaSystem => "via system",
        TranslationKey::ToggleOn => "on",
        TranslationKey::ToggleOff => "off",
        TranslationKey::AgentBorderLabels => "agent border labels",
        TranslationKey::AgentBorderLabelsDesc => "show detected agent names in split pane borders",
        TranslationKey::AgentIntegrations => "agent integrations",
        TranslationKey::AgentIntegrationsDesc => "let agents report state directly instead of relying only on process detection",
        TranslationKey::NoIntegrationTargets => "no integration targets available",
        TranslationKey::IntegrationsHintInstall => "press install to add available or outdated integrations",
        TranslationKey::IntegrationsAllInstalled => "all detected integrations are installed",
        TranslationKey::IntegrationsNoneFound => "no supported agent CLIs found on PATH",
        TranslationKey::Install => "install",
        TranslationKey::Apply => "apply",
        TranslationKey::SectionHint => "section",
        TranslationKey::SectionTheme => "theme",
        TranslationKey::SectionSound => "sound",
        TranslationKey::SectionToast => "toasts",
        TranslationKey::SectionPaneLabels => "pane labels",
        TranslationKey::SectionIntegrations => "integrations",
        TranslationKey::IntegrationInstalled => "installed",
        TranslationKey::IntegrationUpdateAvailable => "update available",
        TranslationKey::IntegrationAvailable => "available",
        TranslationKey::IntegrationNotFound => "not found",
        TranslationKey::IntegrationsAllCurrent => "all detected integrations are current",
    }
}

/// The simplified Chinese text of each key.
pub open spec fn chinese_text(key: TranslationKey) -> &'static str {
    match key {
        TranslationKey::GlobalGroup => "全局",
        TranslationKey::NavigationGroup => "导航",
        TranslationKey::WorkspacesTabsGroup => "工作区与标签页",
        TranslationKey::PanesGroup => "窗格",
        TranslationKey::CustomGroup => "自定义",
        TranslationKey::PrefixMode => "前缀模式",
        TranslationKey::KeybindsLabel => "快捷键",
        TranslationKey::Settings => "设置",
        TranslationKey::Detach => "分离",
        TranslationKey::ReloadConfig => "重新加载配置",
        TranslationKey::OpenNotificationTarget => "打开通知目标",
        TranslationKey::Back => "返回",
        TranslationKey::WorkspaceList => "工作区列表",
        TranslationKey::MoveFocus => "移动焦点",
        TranslationKey::CyclePane => "循环切换窗格",
        TranslationKey::OpenWorkspace => "打开工作区",
        TranslationKey::SwitchWorkspace => "切换工作区",
        TranslationKey::WorkspaceNavigation => "工作区导航",
        TranslationKey::SessionNavigator => "会话导航",
        TranslationKey::NewWorkspace => "新建工作区",
        TranslationKey::NewWorktree => "新建 worktree",
        TranslationKey::OpenWorktree => "打开 worktree",
        TranslationKey::DeleteWorktreeCheckout => "删除 worktree 检出",
        TranslationKey::RenameWorkspace => "重命名工作区",
        TranslationKey::CloseWorkspace => "关闭工作区",
        TranslationKey::PreviousWorkspace => "上一个工作区",
        TranslationKey::NextWorkspace => "下一个工作区",
        TranslationKey::SwitchWorkspace19 => "切换工作区 1-9",
        TranslationKey::PreviousAgent => "上一个 agent",
        TranslationKey::NextAgent => "下一个 agent",
        TranslationKey::FocusAgent19 => "聚焦 agent 1-9",
        TranslationKey::NewTab => "新建标签页",
        TranslationKey::RenameTab => "重命名标签页",
        TranslationKey::PreviousTab => "上一个标签页",
        TranslationKey::NextTab => "下一个标签页",
        TranslationKey::SwitchTab19 => "切换标签页 1-9",
        TranslationKey::CloseTab => "关闭标签页",
        TranslationKey::SplitVertical => "垂直分割",
        TranslationKey::SplitHorizontal => "水平分割",
        TranslationKey::ClosePane => "关闭窗格",
        TranslationKey::RenamePane => "重命名窗格",
        TranslationKey::EditScrollback => "编辑回滚",
        TranslationKey::CopyMode => "复制模式",
        TranslationKey::ZoomPane => "缩放窗格",
        TranslationKey::ResizeMode => "调整大小模式",
        TranslationKey::ToggleSidebar => "切换侧边栏",
        TranslationKey::FocusPaneLeft => "左移焦点",
        TranslationKey::FocusPaneDown => "下移焦点",
        TranslationKey::FocusPaneUp => "上移焦点",
        TranslationKey::FocusPaneRight => "右移焦点",
        TranslationKey::CyclePaneNext => "下一个窗格",
        TranslationKey::CyclePanePrevious => "上一个窗格",
        TranslationKey::LastPane => "最后一个窗格",
        TranslationKey::CustomCommand => "自定义命令",
        TranslationKey::Unset => "未设置",
        TranslationKey::NoMatchingKeybinds => "无匹配的快捷键",
        TranslationKey::Close => "关闭",
        TranslationKey::PressSlashToFilter => "按 / 按命令或快捷键筛选",
        TranslationKey::FilterLabel => "筛选",
        TranslationKey::ClearLabel => "清除",
        TranslationKey::ScrollLabel => "滚动",
        TranslationKey::SearchLabel => "搜索",
        TranslationKey::ModePrefix => "前缀",
        TranslationKey::ModeCopy => "复制",
        TranslationKey::ModeNavigate => "导航",
        TranslationKey::ModeResize => "调整",
        TranslationKey::Cancel => "取消",
        TranslationKey::SendPrefix => "发送前缀",
        TranslationKey::WorkspaceNavShort => "工作区导航",
        TranslationKey::EnterSearchEscCancel => "enter 搜索  esc 取消",
        TranslationKey::Selecting => "选择中",
        TranslationKey::Select => "选择",
        TranslationKey::Exit => "退出",
        TranslationKey::ClearQExit => "清除  q 退出",
        TranslationKey::Move => "移动",
        TranslationKey::Repeat => "重复",
        TranslationKey::Copy => "复制",
        TranslationKey::WsShort => "工作区",
        TranslationKey::Pane => "窗格",
        TranslationKey::NavigatorShort => "导航器",
        TranslationKey::SplitVertSymbol => "分割│",
        TranslationKey::SplitHorizSymbol => "分割─",
        TranslationKey::Zoom => "缩放",
        TranslationKey::ResizeShort => "调整",
        TranslationKey::UpdateReady => "有更新",
        TranslationKey::Width => "宽度",
        TranslationKey::Height => "高度",
        TranslationKey::Done => "完成",
        TranslationKey::WhatsNew => "新功能",
        TranslationKey::Save => "保存",
        TranslationKey::Confirm => "确认",
        TranslationKey::Open => "打开",
        TranslationKey::CreateAndOpen => "创建并打开",
        TranslationKey::DeleteAnyway => "仍然删除",
        TranslationKey::Remove => "移除",
        TranslationKey::Branch => "分支",
        TranslationKey::Checkout => "检出路径",
        TranslationKey::Creating => "创建中…",
        TranslationKey::DeleteWorktreeCheckoutQ => "删除 worktree 检出？",
        TranslationKey::RemovesCheckoutFolder => "这将移除检出文件夹：",
        TranslationKey::BranchNotDeletedWorkspaceWillClose => "分支不会被删除。Herdr 工作区将关闭。",
        TranslationKey::DirtyWillBeDeleted => "脏文件或未跟踪文件将被永久删除。",
        TranslationKey::Removing => "移除中…",
        TranslationKey::NoMatchingWorktrees => "无匹配的 worktree",
        TranslationKey::FilterWorktrees => "筛选 worktree",
        TranslationKey::Checkouts => "个检出",
        TranslationKey::CloseWorkspaceQ => "关闭工作区？",
        TranslationKey::CloseWorktreeGroupQ => "关闭 worktree 组？",
        TranslationKey::PaneUnitSingular => "个窗格",
        TranslationKey::PaneUnitPlural => "个窗格",
        TranslationKey::WorkspaceUnitSingular => "个工作区",
        TranslationKey::WorkspaceUnitPlural => "个工作区",
        TranslationKey::CmRename => "重命名",
        TranslationKey::CmClose => "关闭",
        TranslationKey::CmCloseGroup => "关闭组",
        TranslationKey::CmNewWorktree => "新建 worktree",
        TranslationKey::CmOpenWorktree => "打开 worktree...",
        TranslationKey::CmDeleteWorktree => "删除 worktree 检出...",
        TranslationKey::CmCollapse => "折叠",
        TranslationKey::CmExpand => "展开",
        TranslationKey::CmNewTab => "新建标签页",
        TranslationKey::CmRenamePane => "重命名窗格",
        TranslationKey::CmClearPaneName => "清除窗格名",
        TranslationKey::CmSwapWithFocusedPane => "与聚焦窗格交换",
        TranslationKey::CmSplitRight => "向右分割",
        TranslationKey::CmSplitDown => "向下分割",
        TranslationKey::CmZoom => "缩放",
        TranslationKey::CmClosePane => "关闭窗格",
        TranslationKey::MobileSwitch => "切换",
        TranslationKey::NoWorkspace => "无工作区",
        TranslationKey::Filtered => "已筛选",
        TranslationKey::Agents => "agent",
        TranslationKey::NoMatchingAgents => "无匹配的 agent",
        TranslationKey::Spaces => "工作区",
        TranslationKey::NewWorkspaceMobile => "+ 新建工作区",
        TranslationKey::Tabs => "标签页",
        TranslationKey::NewTabMobile => "+ 新建标签页",
        TranslationKey::TabPrefix => "标签页",
        TranslationKey::Menu => "菜单",
        TranslationKey::NoAgents => "无 agent",
        TranslationKey::AllIdle => "全部空闲",
        TranslationKey::BlockedLabel => "阻塞",
        TranslationKey::DoneLabel => "完成",
        TranslationKey::WorkingLabel => "工作中",
        TranslationKey::IdleLabel => "空闲",
        TranslationKey::WaitingAgent => "等待中",
        TranslationKey::DoneAgent => "已完成",
        TranslationKey::SidebarNew => "新建",
        TranslationKey::SortGrouped => "分组",
        TranslationKey::SortPriority => "优先级",
        TranslationKey::UnknownLabel => "未知",
        TranslationKey::CopiedToClipboard => "已复制到剪贴板",
        TranslationKey::SoundAlerts => "声音提醒",
        TranslationKey::SoundAlertsDesc => "后台 agent 状态变化时播放提示音",
        TranslationKey::NotificationPopups => "通知弹窗",
        TranslationKey::NotificationPopupsDesc => "选择后台通知弹窗的显示位置",
        TranslationKey::ToastInsideHerdr => "herdr 内",
        TranslationKey::ToastViaTerminal => "经终端",
        TranslationKey::ToastViaSystem => "经系统",
        TranslationKey::ToggleOn => "开启",
        TranslationKey::ToggleOff => "关闭",
        TranslationKey::AgentBorderLabels => "agent 边框标签",
        TranslationKey::AgentBorderLabelsDesc => "在分割窗格边框中显示检测到的 agent 名称",
        TranslationKey::AgentIntegrations => "agent 集成",
        TranslationKey::AgentIntegrationsDesc => "让 agent 直接上报状态，而非仅依赖进程检测",
        TranslationKey::NoIntegrationTargets => "无可用的集成目标",
        TranslationKey::IntegrationsHintInstall => "按「安装」添加可用或过时的集成",
        TranslationKey::IntegrationsAllInstalled => "所有检测到的集成均已安装",
        TranslationKey::IntegrationsNoneFound => "PATH 中未找到受支持的 agent CLI",
        TranslationKey::Install => "安装",
        TranslationKey::Apply => "应用",
        TranslationKey::SectionHint => "切换分区",
        TranslationKey::SectionTheme => "主题",
        TranslationKey::SectionSound => "声音",
        TranslationKey::SectionToast => "通知",
        TranslationKey::SectionPaneLabels => "窗格标签",
        TranslationKey::SectionIntegrations => "集成",
        TranslationKey::IntegrationInstalled => "已安装",
        TranslationKey::IntegrationUpdateAvailable => "有更新",
        TranslationKey::IntegrationAvailable => "可安装",
        TranslationKey::IntegrationNotFound => "未找到",
        TranslationKey::IntegrationsAllCurrent => "所有检测到的集成均为最新",
    }
}

/// The text of `key` in `lang`.
pub open spec fn translation(lang: Language, key: TranslationKey) -> &'static str {
    match lang {
        Language::En => english_text(key),
        Language::ZhCn => chinese_text(key),
    }
}

fn english(key: TranslationKey) -> (r: &'static str)
    ensures
        r == english_text(key),
{
    match key {
        TranslationKey::GlobalGroup => "global",
        TranslationKey::NavigationGroup => "navigation",
        TranslationKey::WorkspacesTabsGroup => "workspaces / tabs",
        TranslationKey::PanesGroup => "panes",
        TranslationKey::CustomGroup => "custom",
        TranslationKey::PrefixMode => "prefix mode",
        TranslationKey::KeybindsLabel => "keybinds",
        TranslationKey::Settings => "settings",
        TranslationKey::Detach => "detach",
        TranslationKey::ReloadConfig => "reload config",
        TranslationKey::OpenNotificationTarget => "open notification target",
        TranslationKey::Back => "back",
        TranslationKey::WorkspaceList => "workspace list",
        TranslationKey::MoveFocus => "move focus",
        TranslationKey::CyclePane => "cycle pane",
        TranslationKey::OpenWorkspace => "open workspace",
        TranslationKey::SwitchWorkspace => "switch workspace",
        TranslationKey::WorkspaceNavigation => "workspace navigation",
        TranslationKey::SessionNavigator => "session navigator",
        TranslationKey::NewWorkspace => "new workspace",
        TranslationKey::NewWorktree => "new worktree",
        TranslationKey::OpenWorktree => "open worktree",
        TranslationKey::DeleteWorktreeCheckout => "delete worktree checkout",
        TranslationKey::RenameWorkspace => "rename workspace",
        TranslationKey::CloseWorkspace => "close workspace",
        TranslationKey::PreviousWorkspace => "previous workspace",
        TranslationKey::NextWorkspace => "next workspace",
        TranslationKey::SwitchWorkspace19 => "switch workspace 1-9",
        TranslationKey::PreviousAgent => "previous agent",
        TranslationKey::NextAgent => "next agent",
        TranslationKey::FocusAgent19 => "focus agent 1-9",
        TranslationKey::NewTab => "new tab",
        TranslationKey::RenameTab => "rename tab",
        TranslationKey::PreviousTab => "previous tab",
        TranslationKey::NextTab => "next tab",
        TranslationKey::SwitchTab19 => "switch tab 1-9",
        TranslationKey::CloseTab => "close tab",
        TranslationKey::SplitVertical => "split vertical",
        TranslationKey::SplitHorizontal => "split horizontal",
        TranslationKey::ClosePane => "close pane",
        TranslationKey::RenamePane => "rename pane",
        TranslationKey::EditScrollback => "edit scrollback",
        TranslationKey::CopyMode => "copy mode",
        TranslationKey::ZoomPane => "zoom pane",
        TranslationKey::ResizeMode => "resize mode",
        TranslationKey::ToggleSidebar => "toggle sidebar",
        TranslationKey::FocusPaneLeft => "focus pane left",
        TranslationKey::FocusPaneDown => "focus pane down",
        TranslationKey::FocusPaneUp => "focus pane up",
        TranslationKey::FocusPaneRight => "focus pane right",
        TranslationKey::CyclePaneNext => "cycle pane next",
        TranslationKey::CyclePanePrevious => "cycle pane previous",
        TranslationKey::LastPane => "last pane",
        TranslationKey::CustomCommand => "custom command",
        TranslationKey::Unset => "unset",
        TranslationKey::NoMatchingKeybinds => "no matching keybinds",
        TranslationKey::Close => "close",
        TranslationKey::PressSlashToFilter => "press / to filter by command or shortcut",
        TranslationKey::FilterLabel => "filter",
        TranslationKey::ClearLabel => "clear",
        TranslationKey::ScrollLabel => "scroll",
        TranslationKey::SearchLabel => "search",
        TranslationKey::ModePrefix => "PREFIX",
        TranslationKey::ModeCopy => "COPY",
        TranslationKey::ModeNavigate => "NAVIGATE",
        TranslationKey::ModeResize => "RESIZE",
        TranslationKey::Cancel => "cancel",
        TranslationKey::SendPrefix => "send prefix",
        TranslationKey::WorkspaceNavShort => "workspace nav",
        TranslationKey::EnterSearchEscCancel => "enter search  esc cancel",
        TranslationKey::Selecting => "selecting",
        TranslationKey::Select => "select",
        TranslationKey::Exit => "exit",
        TranslationKey::ClearQExit => "clear  q exit",
        TranslationKey::Move => "move",
        TranslationKey::Repeat => "repeat",
        TranslationKey::Copy => "copy",
        TranslationKey::WsShort => "ws",
        TranslationKey::Pane => "pane",
        TranslationKey::NavigatorShort => "navigator",
        TranslationKey::SplitVertSymbol => "split│",
        TranslationKey::SplitHorizSymbol => "split─",
        TranslationKey::Zoom => "zoom",
        TranslationKey::ResizeShort => "resize",
        TranslationKey::UpdateReady => "update ready",
        TranslationKey::Width => "width",
        TranslationKey::Height => "height",
        TranslationKey::Done => "done",
        TranslationKey::WhatsNew => "what's new",
        TranslationKey::Save => "save",
        TranslationKey::Confirm => "confirm",
        TranslationKey::Open => "open",
        TranslationKey::CreateAndOpen => "create and open",
        TranslationKey::DeleteAnyway => "delete anyway",
        TranslationKey::Remove => "remove",
        TranslationKey::Branch => "branch",
        TranslationKey::Checkout => "checkout",
        TranslationKey::Creating => "creating…",
        TranslationKey::DeleteWorktreeCheckoutQ => "delete worktree checkout?",
        TranslationKey::RemovesCheckoutFolder => "This removes the checkout folder:",
        TranslationKey::BranchNotDeletedWorkspaceWillClose => "The branch is not deleted. The Herdr workspace will close.",
        TranslationKey::DirtyWillBeDeleted => "Dirty or untracked files will be permanently deleted.",
        TranslationKey::Removing => "removing…",
        TranslationKey::NoMatchingWorktrees => "no matching worktrees",
        TranslationKey::FilterWorktrees => "filter worktrees",
        TranslationKey::Checkouts => "checkouts",
        TranslationKey::CloseWorkspaceQ => "Close workspace?",
        TranslationKey::CloseWorktreeGroupQ => "Close worktree group?",
        TranslationKey::PaneUnitSingular => "pane",
        TranslationKey::PaneUnitPlural => "panes",
        TranslationKey::WorkspaceUnitSingular => "workspace",
        TranslationKey::WorkspaceUnitPlural => "workspaces",
        TranslationKey::CmRename => "Rename",
        TranslationKey::CmClose => "Close",
        TranslationKey::CmCloseGroup => "Close group",
        TranslationKey::CmNewWorktree => "New worktree",
        TranslationKey::CmOpenWorktree => "Open worktree...",
        TranslationKey::CmDeleteWorktree => "Delete worktree checkout...",
        TranslationKey::CmCollapse => "Collapse",
        TranslationKey::CmExpand => "Expand",
        TranslationKey::CmNewTab => "New tab",
        TranslationKey::CmRenamePane => "Rename pane",
        TranslationKey::CmClearPaneName => "Clear pane name",
        TranslationKey::CmSwapWithFocusedPane => "Swap with focused pane",
        TranslationKey::CmSplitRight => "Split right",
        TranslationKey::CmSplitDown => "Split down",
        TranslationKey::CmZoom => "Zoom",
        TranslationKey::CmClosePane => "Close pane",
        TranslationKey::MobileSwitch => "switch",
        TranslationKey::NoWorkspace => "no workspace",
        TranslationKey::Filtered => "filtered",
        TranslationKey::Agents => "agents",
        TranslationKey::NoMatchingAgents => "no matching agents",
        TranslationKey::Spaces => "spaces",
        TranslationKey::NewWorkspaceMobile => "+ new workspace",
        TranslationKey::Tabs => "tabs",
        TranslationKey::NewTabMobile => "+ new tab",
        TranslationKey::TabPrefix => "tab",
        TranslationKey::Menu => "menu",
        TranslationKey::NoAgents => "no agents",
        TranslationKey::AllIdle => "all idle",
        TranslationKey::BlockedLabel => "blocked",
        TranslationKey::DoneLabel => "done",
        TranslationKey::WorkingLabel => "working",
        TranslationKey::IdleLabel => "idle",
        TranslationKey::WaitingAgent => "waiting",
        TranslationKey::DoneAgent => "done",
        TranslationKey::SidebarNew => "new",
        TranslationKey::SortGrouped => "grouped",
        TranslationKey::SortPriority => "priority",
        TranslationKey::UnknownLabel => "unknown",
        TranslationKey::CopiedToClipboard => "copied to clipboard",
        TranslationKey::SoundAlerts => "sound alerts",
        TranslationKey::SoundAlertsDesc => "play sounds when agents change state in background",
        TranslationKey::NotificationPopups => "notification popups",
        TranslationKey::NotificationPopupsDesc => "choose where background popup notifications should appear",
        TranslationKey::ToastInsideHerdr => "inside herdr",
        TranslationKey::ToastViaTerminal => "via terminal",
        TranslationKey::ToastViaSystem => "via system",
        TranslationKey::ToggleOn => "on",
        TranslationKey::ToggleOff => "off",
        TranslationKey::AgentBorderLabels => "agent border labels",
        TranslationKey::AgentBorderLabelsDesc => "show detected agent names in split pane borders",
        TranslationKey::AgentIntegrations => "agent integrations",
        TranslationKey::AgentIntegrationsDesc => "let agents report state directly instead of relying only on process detection",
        TranslationKey::NoIntegrationTargets => "no integration targets available",
        TranslationKey::IntegrationsHintInstall => "press install to add available or outdated integrations",
        TranslationKey::IntegrationsAllInstalled => "all detected integrations are installed",
        TranslationKey::IntegrationsNoneFound => "no supported agent CLIs found on PATH",
        TranslationKey::Install => "install",
        TranslationKey::Apply => "apply",
        TranslationKey::SectionHint => "section",
        TranslationKey::SectionTheme => "theme",
        TranslationKey::SectionSound => "sound",
        TranslationKey::SectionToast => "toasts",
        TranslationKey::SectionPaneLabels => "pane labels",
        TranslationKey::SectionIntegrations => "integrations",
        TranslationKey::IntegrationInstalled => "installed",
        TranslationKey::IntegrationUpdateAvailable => "update available",
        TranslationKey::IntegrationAvailable => "available",
        TranslationKey::IntegrationNotFound => "not found",
        TranslationKey::IntegrationsAllCurrent => "all detected integrations are current",
    }
}

fn chinese(key: TranslationKey) -> (r: &'static str)
    ensures
        r == chinese_text(key),
{
    match key {
        TranslationKey::GlobalGroup => "全局",
        TranslationKey::NavigationGroup => "导航",
        TranslationKey::WorkspacesTabsGroup => "工作区与标签页",
        TranslationKey::PanesGroup => "窗格",
        TranslationKey::CustomGroup => "自定义",
        TranslationKey::PrefixMode => "前缀模式",
        TranslationKey::KeybindsLabel => "快捷键",
        TranslationKey::Settings => "设置",
        TranslationKey::Detach => "分离",
        TranslationKey::ReloadConfig => "重新加载配置",
        TranslationKey::OpenNotificationTarget => "打开通知目标",
        TranslationKey::Back => "返回",
        TranslationKey::WorkspaceList => "工作区列表",
        TranslationKey::MoveFocus => "移动焦点",
        TranslationKey::CyclePane => "循环切换窗格",
        TranslationKey::OpenWorkspace => "打开工作区",
        TranslationKey::SwitchWorkspace => "切换工作区",
        TranslationKey::WorkspaceNavigation => "工作区导航",
        TranslationKey::SessionNavigator => "会话导航",
        TranslationKey::NewWorkspace => "新建工作区",
        TranslationKey::NewWorktree => "新建 worktree",
        TranslationKey::OpenWorktree => "打开 worktree",
        TranslationKey::DeleteWorktreeCheckout => "删除 worktree 检出",
        TranslationKey::RenameWorkspace => "重命名工作区",
        TranslationKey::CloseWorkspace => "关闭工作区",
        TranslationKey::PreviousWorkspace => "上一个工作区",
        TranslationKey::NextWorkspace => "下一个工作区",
        TranslationKey::SwitchWorkspace19 => "切换工作区 1-9",
        TranslationKey::PreviousAgent => "上一个 agent",
        TranslationKey::NextAgent => "下一个 agent",
        TranslationKey::FocusAgent19 => "聚焦 agent 1-9",
        TranslationKey::NewTab => "新建标签页",
        TranslationKey::RenameTab => "重命名标签页",
        TranslationKey::PreviousTab => "上一个标签页",
        TranslationKey::NextTab => "下一个标签页",
        TranslationKey::SwitchTab19 => "切换标签页 1-9",
        TranslationKey::CloseTab => "关闭标签页",
        TranslationKey::SplitVertical => "垂直分割",
        TranslationKey::SplitHorizontal => "水平分割",
        TranslationKey::ClosePane => "关闭窗格",
        TranslationKey::RenamePane => "重命名窗格",
        TranslationKey::EditScrollback => "编辑回滚",
        TranslationKey::CopyMode => "复制模式",
        TranslationKey::ZoomPane => "缩放窗格",
        TranslationKey::ResizeMode => "调整大小模式",
        TranslationKey::ToggleSidebar => "切换侧边栏",
        TranslationKey::FocusPaneLeft => "左移焦点",
        TranslationKey::FocusPaneDown => "下移焦点",
        TranslationKey::FocusPaneUp => "上移焦点",
        TranslationKey::FocusPaneRight => "右移焦点",
        TranslationKey::CyclePaneNext => "下一个窗格",
        TranslationKey::CyclePanePrevious => "上一个窗格",
        TranslationKey::LastPane => "最后一个窗格",
        TranslationKey::CustomCommand => "自定义命令",
        TranslationKey::Unset => "未设置",
        TranslationKey::NoMatchingKeybinds => "无匹配的快捷键",
        TranslationKey::Close => "关闭",
        TranslationKey::PressSlashToFilter => "按 / 按命令或快捷键筛选",
        TranslationKey::FilterLabel => "筛选",
        TranslationKey::ClearLabel => "清除",
        TranslationKey::ScrollLabel => "滚动",
        TranslationKey::SearchLabel => "搜索",
        TranslationKey::ModePrefix => "前缀",
        TranslationKey::ModeCopy => "复制",
        TranslationKey::ModeNavigate => "导航",
        TranslationKey::ModeResize => "调整",
        TranslationKey::Cancel => "取消",
        TranslationKey::SendPrefix => "发送前缀",
        TranslationKey::WorkspaceNavShort => "工作区导航",
        TranslationKey::EnterSearchEscCancel => "enter 搜索  esc 取消",
        TranslationKey::Selecting => "选择中",
        TranslationKey::Select => "选择",
        TranslationKey::Exit => "退出",
        TranslationKey::ClearQExit => "清除  q 退出",
        TranslationKey::Move => "移动",
        TranslationKey::Repeat => "重复",
        TranslationKey::Copy => "复制",
        TranslationKey::WsShort => "工作区",
        TranslationKey::Pane => "窗格",
        TranslationKey::NavigatorShort => "导航器",
        TranslationKey::SplitVertSymbol => "分割│",
        TranslationKey::SplitHorizSymbol => "分割─",
        TranslationKey::Zoom => "缩放",
        TranslationKey::ResizeShort => "调整",
        TranslationKey::UpdateReady => "有更新",
        TranslationKey::Width => "宽度",
        TranslationKey::Height => "高度",
        TranslationKey::Done => "完成",
        TranslationKey::WhatsNew => "新功能",
        TranslationKey::Save => "保存",
        TranslationKey::Confirm => "确认",
        TranslationKey::Open => "打开",
        TranslationKey::CreateAndOpen => "创建并打开",
        TranslationKey::DeleteAnyway => "仍然删除",
        TranslationKey::Remove => "移除",
        TranslationKey::Branch => "分支",
        TranslationKey::Checkout => "检出路径",
        TranslationKey::Creating => "创建中…",
        TranslationKey::DeleteWorktreeCheckoutQ => "删除 worktree 检出？",
        TranslationKey::RemovesCheckoutFolder => "这将移除检出文件夹：",
        TranslationKey::BranchNotDeletedWorkspaceWillClose => "分支不会被删除。Herdr 工作区将关闭。",
        TranslationKey::DirtyWillBeDeleted => "脏文件或未跟踪文件将被永久删除。",
        TranslationKey::Removing => "移除中…",
        TranslationKey::NoMatchingWorktrees => "无匹配的 worktree",
        TranslationKey::FilterWorktrees => "筛选 worktree",
        TranslationKey::Checkouts => "个检出",
        TranslationKey::CloseWorkspaceQ => "关闭工作区？",
        TranslationKey::CloseWorktreeGroupQ => "关闭 worktree 组？",
        TranslationKey::PaneUnitSingular => "个窗格",
        TranslationKey::PaneUnitPlural => "个窗格",
        TranslationKey::WorkspaceUnitSingular => "个工作区",
        TranslationKey::WorkspaceUnitPlural => "个工作区",
        TranslationKey::CmRename => "重命名",
        TranslationKey::CmClose => "关闭",
        TranslationKey::CmCloseGroup => "关闭组",
        TranslationKey::CmNewWorktree => "新建 worktree",
        TranslationKey::CmOpenWorktree => "打开 worktree...",
        TranslationKey::CmDeleteWorktree => "删除 worktree 检出...",
        TranslationKey::CmCollapse => "折叠",
        TranslationKey::CmExpand => "展开",
        TranslationKey::CmNewTab => "新建标签页",
        TranslationKey::CmRenamePane => "重命名窗格",
        TranslationKey::CmClearPaneName => "清除窗格名",
        TranslationKey::CmSwapWithFocusedPane => "与聚焦窗格交换",
        TranslationKey::CmSplitRight => "向右分割",
        TranslationKey::CmSplitDown => "向下分割",
        TranslationKey::CmZoom => "缩放",
        TranslationKey::CmClosePane => "关闭窗格",
        TranslationKey::MobileSwitch => "切换",
        TranslationKey::NoWorkspace => "无工作区",
        TranslationKey::Filtered => "已筛选",
        TranslationKey::Agents => "agent",
        TranslationKey::NoMatchingAgents => "无匹配的 agent",
        TranslationKey::Spaces => "工作区",
        TranslationKey::NewWorkspaceMobile => "+ 新建工作区",
        TranslationKey::Tabs => "标签页",
        TranslationKey::NewTabMobile => "+ 新建标签页",
        TranslationKey::TabPrefix => "标签页",
        TranslationKey::Menu => "菜单",
        TranslationKey::NoAgents => "无 agent",
        TranslationKey::AllIdle => "全部空闲",
        TranslationKey::BlockedLabel => "阻塞",
        TranslationKey::DoneLabel => "完成",
        TranslationKey::WorkingLabel => "工作中",
        TranslationKey::IdleLabel => "空闲",
        TranslationKey::WaitingAgent => "等待中",
        TranslationKey::DoneAgent => "已完成",
        TranslationKey::SidebarNew => "新建",
        TranslationKey::SortGrouped => "分组",
        TranslationKey::SortPriority => "优先级",
        TranslationKey::UnknownLabel => "未知",
        TranslationKey::CopiedToClipboard => "已复制到剪贴板",
        TranslationKey::SoundAlerts => "声音提醒",
        TranslationKey::SoundAlertsDesc => "后台 agent 状态变化时播放提示音",
        TranslationKey::NotificationPopups => "通知弹窗",
        TranslationKey::NotificationPopupsDesc => "选择后台通知弹窗的显示位置",
        TranslationKey::ToastInsideHerdr => "herdr 内",
        TranslationKey::ToastViaTerminal => "经终端",
        TranslationKey::ToastViaSystem => "经系统",
        TranslationKey::ToggleOn => "开启",
        TranslationKey::ToggleOff => "关闭",
        TranslationKey::AgentBorderLabels => "agent 边框标签",
        TranslationKey::AgentBorderLabelsDesc => "在分割窗格边框中显示检测到的 agent 名称",
        TranslationKey::AgentIntegrations => "agent 集成",
        TranslationKey::AgentIntegrationsDesc => "让 agent 直接上报状态，而非仅依赖进程检测",
        TranslationKey::NoIntegrationTargets => "无可用的集成目标",
        TranslationKey::IntegrationsHintInstall => "按「安装」添加可用或过时的集成",
        TranslationKey::IntegrationsAllInstalled => "所有检测到的集成均已安装",
        TranslationKey::IntegrationsNoneFound => "PATH 中未找到受支持的 agent CLI",
        TranslationKey::Install => "安装",
        TranslationKey::Apply => "应用",
        TranslationKey::SectionHint => "切换分区",
        TranslationKey::SectionTheme => "主题",
        TranslationKey::SectionSound => "声音",
        TranslationKey::SectionToast => "通知",
        TranslationKey::SectionPaneLabels => "窗格标签",
        TranslationKey::SectionIntegrations => "集成",
        TranslationKey::IntegrationInstalled => "已安装",
        TranslationKey::IntegrationUpdateAvailable => "有更新",
        TranslationKey::IntegrationAvailable => "可安装",
        TranslationKey::IntegrationNotFound => "未找到",
        TranslationKey::IntegrationsAllCurrent => "所有检测到的集成均为最新",
    }
}

/// Looks up the text of `key` in `lang`.
pub fn translate(lang: Language, key: TranslationKey) -> (r: &'static str)
    ensures
        r == translation(lang, key),
{
    match lang {
        Language::En => english(key),
        Language::ZhCn => chinese(key),
    }
}

/// The language in effect. The first call (with an empty cache) detects it
/// from `lc_all` and `lang` and stores it; every later call answers the stored
/// language whatever the variables hold then.
pub fn current_language(
    cache: &mut Option<Language>,
    lc_all: Option<&str>,
    lang: Option<&str>,
) -> (r: Language)
    ensures
        r == resolved_language(*old(cache), lc_all.deep_view(), lang.deep_view()),
        *final(cache) == Some(r),
{
    match *cache {
        Some(l) => l,
        None => {
            let l = detect(lc_all, lang);
            *cache = Some(l);
            l
        },
    }
}

/// The text of `key` in the language in effect (resolving it first if the
/// cache is still empty).
pub fn tr(
    cache: &mut Option<Language>,
    lc_all: Option<&str>,
    lang: Option<&str>,
    key: TranslationKey,
) -> (r: &'static str)
    ensures
        r == translation(resolved_language(*old(cache), lc_all.deep_view(), lang.deep_view()), key),
        *final(cache) == Some(resolved_language(*old(cache), lc_all.deep_view(), lang.deep_view())),
{
    let l = current_language(cache, lc_all, lang);
    translate(l, key)
}

/// Resolves the language once, early; later calls of `tr` reuse it.
pub fn init(cache: &mut Option<Language>, lc_all: Option<&str>, lang: Option<&str>)
    ensures
        *final(cache) == Some(resolved_language(*old(cache), lc_all.deep_view(), lang.deep_view())),
{
    current_language(cache, lc_all, lang);
}


proof fn lemma_normalized_agree(a: Seq<char>, b: Seq<char>)
    requires
        a.len() == b.len(),
        forall|i: int| 0 <= i < a.len() ==> code_char(#[trigger] a[i]) == code_char(b[i]),
    ensures
        normalized_code(a) == normalized_code(b),
    decreases a.len(),
{
    let stops = seq!['@', '@'];
    if a.len() > 0 {
        assert(code_char(a[0]) == code_char(b[0]));
        lemma_pair_contains('@', '@', a[0]);
        lemma_pair_contains('@', '@', b[0]);
        assert(a[0] == '@' <==> b[0] == '@');
        assert forall|i: int| 0 <= i < a.drop_first().len() implies code_char(
            #[trigger] a.drop_first()[i],
        ) == code_char(b.drop_first()[i]) by {
            assert(a.drop_first()[i] == a[i + 1]);
            assert(b.drop_first()[i] == b[i + 1]);
        }
        lemma_normalized_agree(a.drop_first(), b.drop_first());
        if a[0] != '@' {
            let ra = before_any(a.drop_first(), stops);
            let rb = before_any(b.drop_first(), stops);
            assert((seq![a[0]] + ra).map_values(|c: char| code_char(c)) =~= seq![code_char(a[0])]
                + ra.map_values(|c: char| code_char(c)));
            assert((seq![b[0]] + rb).map_values(|c: char| code_char(c)) =~= seq![code_char(b[0])]
                + rb.map_values(|c: char| code_char(c)));
        } else {
            assert(normalized_code(a) =~= Seq::<char>::empty());
            assert(normalized_code(b) =~= Seq::<char>::empty());
        }
    } else {
        assert(a =~= b);
    }
}

/// `from_code` is blind to ASCII case and to the difference between `_` and
/// `-`: two codes that agree character by character once those are folded get
/// the same answer.
pub proof fn lemma_from_code_ignores_case_and_separator(a: Seq<char>, b: Seq<char>)
    requires
        a.len() == b.len(),
        forall|i: int| 0 <= i < a.len() ==> code_char(#[trigger] a[i]) == code_char(b[i]),
    ensures
        language_of_code(a) == language_of_code(b),
{
    lemma_normalized_agree(a, b);
}

/// A trailing `@modifier` never changes what a code means.
pub proof fn lemma_from_code_ignores_modifier(code: Seq<char>, modifier: Seq<char>)
    requires
        !code.contains('@'),
    ensures
        language_of_code(code + seq!['@'] + modifier) == language_of_code(code),
{
    let stops = seq!['@', '@'];
    lemma_pair_contains('@', '@', '@');
    assert forall|i: int| 0 <= i < code.len() implies !stops.contains(#[trigger] code[i]) by {
        lemma_pair_contains('@', '@', code[i]);
        assert(code.contains(code[i]));
    }
    lemma_before_any_stops_at(code, '@', modifier, stops);
}

/// Neither an `.encoding` nor an `@modifier` suffix changes what a locale means.
pub proof fn lemma_locale_ignores_suffix(primary: Seq<char>, sep: char, suffix: Seq<char>)
    requires
        sep == '.' || sep == '@',
        !primary.contains('.'),
        !primary.contains('@'),
    ensures
        language_of_locale(primary + seq![sep] + suffix) == language_of_locale(primary),
{
    let stops = seq!['.', '@'];
    lemma_pair_contains('.', '@', sep);
    assert forall|i: int| 0 <= i < primary.len() implies !stops.contains(#[trigger] primary[i]) by {
        lemma_pair_contains('.', '@', primary[i]);
        assert(primary.contains(primary[i]));
    }
    lemma_before_any_stops_at(primary, sep, suffix, stops);
}

/// Reading a trimmed code without `.` or `@` as a locale agrees with
/// `from_code` wherever `from_code` knows the code: the locale rules only add
/// answers (`C`, `POSIX`, `zh…`, English fallback), they never contradict it.
pub proof fn lemma_locale_agrees_with_code(code: Seq<char>)
    requires
        forall|i: int| 0 <= i < code.len() ==> #[trigger] code[i] != '.' && code[i] != '@',
        trim(code) == code,
        language_of_code(code) is Some,
    ensures
        language_of_locale(code) == language_of_code(code)->0,
{
    let locale_stops = seq!['.', '@'];
    let at_stops = seq!['@', '@'];
    lemma_pair_contains('.', '@', '.');
    lemma_pair_contains('@', '@', '@');
    assert forall|i: int| 0 <= i < code.len() implies !locale_stops.contains(#[trigger] code[i]) by {
        lemma_pair_contains('.', '@', code[i]);
    }
    assert forall|i: int| 0 <= i < code.len() implies !at_stops.contains(#[trigger] code[i]) by {
        lemma_pair_contains('@', '@', code[i]);
    }
    lemma_before_any_stops_at(code, '.', Seq::empty(), locale_stops);
    lemma_before_any_stops_at(code, '@', Seq::empty(), at_stops);
    let primary = trim(before_any(code, locale_stops));
    assert(primary == code);
    let n = normalized_code(code);
    assert(n == code.map_values(|c: char| code_char(c)));
    if eq_ignore_ascii_case(primary, seq!['c']) {
        assert(ascii_lower(code[0]) == ascii_lower('c'));
        assert(n =~= seq!['c']);
        assert(!is_english_code(n));
        assert(!is_chinese_code(n));
        assert(false);
    }
    if eq_ignore_ascii_case(primary, seq!['p', 'o', 's', 'i', 'x']) {
        assert(ascii_lower(code[0]) == ascii_lower('p'));
        assert(n[0] == 'p');
        assert(!is_english_code(n)) by {
            if is_english_code(n) {
                assert(n[0] == 'e');
            }
        }
        assert(!is_chinese_code(n)) by {
            if is_chinese_code(n) {
                assert(n.take(3)[0] == 'z');
            }
        }
        assert(false);
    }
    if starts_with_ignore_ascii_case(primary, seq!['z', 'h']) {
        assert(code.take(2)[0] == code[0]);
        assert(ascii_lower(code[0]) == ascii_lower('z'));
        assert(n[0] == 'z');
        assert(!is_english_code(n)) by {
            if is_english_code(n) {
                assert(n[0] == 'e');
            }
        }
    }
}


/// `LC_ALL` decides whenever it holds a character other than white space,
/// whatever `LANG` holds; otherwise `LANG` decides on the same condition;
/// otherwise the language is English.
pub proof fn lemma_detect_order(lc_all: Option<Seq<char>>, lang: Option<Seq<char>>)
    ensures
        has_text(lc_all) ==> detected_language(lc_all, lang) == language_of_locale(lc_all->0),
        !has_text(lc_all) && has_text(lang) ==> detected_language(lc_all, lang)
            == language_of_locale(lang->0),
        !has_text(lc_all) && !has_text(lang) ==> detected_language(lc_all, lang) == Language::En,
{
    if lc_all is Some {
        lemma_trim_blank(lc_all->0);
    }
    if lang is Some {
        lemma_trim_blank(lang->0);
    }
}

/// A variable's value holds some character that is not white space.
pub open spec fn has_text(v: Option<Seq<char>>) -> bool {
    v is Some && exists|i: int| 0 <= i < v->0.len() && !is_white_space(#[trigger] v->0[i])
}

/// The locale rules on a main part `p` (no `.`, `@` or white space): nothing,
/// `C` or `POSIX` in any case mean English, and `zh` in any case followed by
/// anything means Chinese.
pub proof fn lemma_locale_rules(p: Seq<char>)
    requires
        forall|i: int|
            0 <= i < p.len() ==> #[trigger] p[i] != '.' && p[i] != '@' && !is_white_space(p[i]),
    ensures
        p.len() == 0 ==> language_of_locale(p) == Language::En,
        p.len() == 1 && (p[0] == 'c' || p[0] == 'C') ==> language_of_locale(p) == Language::En,
        p.len() == 5 && (p[0] == 'p' || p[0] == 'P') && (p[1] == 'o' || p[1] == 'O') && (p[2]
            == 's' || p[2] == 'S') && (p[3] == 'i' || p[3] == 'I') && (p[4] == 'x' || p[4] == 'X')
            ==> language_of_locale(p) == Language::En,
        p.len() >= 2 && (p[0] == 'z' || p[0] == 'Z') && (p[1] == 'h' || p[1] == 'H')
            ==> language_of_locale(p) == Language::ZhCn,
{
    let stops = seq!['.', '@'];
    lemma_pair_contains('.', '@', '.');
    assert forall|i: int| 0 <= i < p.len() implies !stops.contains(#[trigger] p[i]) by {
        lemma_pair_contains('.', '@', p[i]);
    }
    lemma_before_any_stops_at(p, '.', Seq::empty(), stops);
    if p.len() > 0 {
        assert(!is_white_space(p[0]));
        lemma_trim_blank(p);
    }
    lemma_trim_clean(p);
    assert(trim(before_any(p, stops)) == p);
    if p.len() >= 2 && (p[0] == 'z' || p[0] == 'Z') && (p[1] == 'h' || p[1] == 'H') {
        assert(p.take(2)[0] == p[0] && p.take(2)[1] == p[1]);
        assert(starts_with_ignore_ascii_case(p, seq!['z', 'h']));
        assert(!eq_ignore_ascii_case(p, seq!['c'])) by {
            if eq_ignore_ascii_case(p, seq!['c']) {
                assert(ascii_lower(p[0]) == ascii_lower('c'));
            }
        }
        assert(!eq_ignore_ascii_case(p, seq!['p', 'o', 's', 'i', 'x'])) by {
            if eq_ignore_ascii_case(p, seq!['p', 'o', 's', 'i', 'x']) {
                assert(ascii_lower(p[0]) == ascii_lower('p'));
            }
        }
    }
    if p.len() == 1 && (p[0] == 'c' || p[0] == 'C') {
        assert(eq_ignore_ascii_case(p, seq!['c']));
    }
    if p.len() == 5 && (p[0] == 'p' || p[0] == 'P') && (p[1] == 'o' || p[1] == 'O') && (p[2]
        == 's' || p[2] == 'S') && (p[3] == 'i' || p[3] == 'I') && (p[4] == 'x' || p[4] == 'X') {
        assert(eq_ignore_ascii_case(p, seq!['p', 'o', 's', 'i', 'x']));
    }
}

proof fn lemma_no_modifier(c: Seq<char>)
    requires
        forall|i: int| 0 <= i < c.len() ==> #[trigger] c[i] != '@',
    ensures
        normalized_code(c) == c.map_values(|x: char| code_char(x)),
{
    let stops = seq!['@', '@'];
    lemma_pair_contains('@', '@', '@');
    assert forall|i: int| 0 <= i < c.len() implies !stops.contains(#[trigger] c[i]) by {
        lemma_pair_contains('@', '@', c[i]);
    }
    lemma_before_any_stops_at(c, '@', Seq::empty(), stops);
}

/// `zh`, and `zh` followed by `-` or `_` and anything without `@`, are Chinese.
pub proof fn lemma_from_code_chinese(sep: char, rest: Seq<char>)
    requires
        sep == '-' || sep == '_',
        forall|i: int| 0 <= i < rest.len() ==> #[trigger] rest[i] != '@',
    ensures
        language_of_code(seq!['z', 'h']) == Some(Language::ZhCn),
        language_of_code(seq!['z', 'h', sep] + rest) == Some(Language::ZhCn),
{
    let c = seq!['z', 'h', sep] + rest;
    assert forall|i: int| 0 <= i < c.len() implies #[trigger] c[i] != '@' by {
        if i >= 3 {
            assert(c[i] == rest[i - 3]);
        }
    }
    lemma_no_modifier(c);
    let n = normalized_code(c);
    assert(n.take(3) =~= seq!['z', 'h', '-']);
    assert(!is_english_code(n)) by {
        if is_english_code(n) {
            assert(n[0] == 'e');
        }
    }
    let zh = seq!['z', 'h'];
    lemma_no_modifier(zh);
    assert(normalized_code(zh) =~= zh);
}

/// `en`, `en-us`, `en-gb`, `en-au` and `en-ca` are English.
pub proof fn lemma_from_code_english()
    ensures
        language_of_code(seq!['e', 'n']) == Some(Language::En),
        language_of_code(seq!['e', 'n', '-', 'u', 's']) == Some(Language::En),
        language_of_code(seq!['e', 'n', '-', 'g', 'b']) == Some(Language::En),
        language_of_code(seq!['e', 'n', '-', 'a', 'u']) == Some(Language::En),
        language_of_code(seq!['e', 'n', '-', 'c', 'a']) == Some(Language::En),
{
    let c0 = seq!['e', 'n'];
    let c1 = seq!['e', 'n', '-', 'u', 's'];
    let c2 = seq!['e', 'n', '-', 'g', 'b'];
    let c3 = seq!['e', 'n', '-', 'a', 'u'];
    let c4 = seq!['e', 'n', '-', 'c', 'a'];
    lemma_no_modifier(c0);
    lemma_no_modifier(c1);
    lemma_no_modifier(c2);
    lemma_no_modifier(c3);
    lemma_no_modifier(c4);
    assert(normalized_code(c0) =~= c0);
    assert(normalized_code(c1) =~= c1);
    assert(normalized_code(c2) =~= c2);
    assert(normalized_code(c3) =~= c3);
    assert(normalized_code(c4) =~= c4);
}

/// A code whose first character is none of `e`, `E`, `z`, `Z` is unknown.
pub proof fn lemma_from_code_unknown(code: Seq<char>)
    requires
        code.len() > 0,
        code[0] != 'e' && code[0] != 'E' && code[0] != 'z' && code[0] != 'Z',
    ensures
        language_of_code(code) is None,
{
    let stops = seq!['@', '@'];
    let n = normalized_code(code);
    if n.len() > 0 {
        lemma_pair_contains('@', '@', code[0]);
        assert(before_any(code, stops)[0] == code[0]);
        assert(n[0] == code_char(code[0]));
        assert(n[0] != 'e' && n[0] != 'z');
        assert(!is_english_code(n)) by {
            if is_english_code(n) {
                assert(n[0] == 'e');
            }
        }
        assert(!is_chinese_code(n)) by {
            if is_chinese_code(n) {
                if n.len() == 2 {
                    assert(n[0] == seq!['z', 'h'][0]);
                } else {
                    assert(n.take(3)[0] == 'z');
                }
            }
        }
    }
}

/// Once resolved, the language never changes: whatever the locale variables
/// hold at a later call, the cached answer of the first resolution stands.
pub proof fn lemma_language_fixed_once_resolved(
    cache: Option<Language>,
    lc_all: Option<Seq<char>>,
    lang: Option<Seq<char>>,
    later_lc_all: Option<Seq<char>>,
    later_lang: Option<Seq<char>>,
)
    ensures
        resolved_language(
            Some(resolved_language(cache, lc_all, lang)),
            later_lc_all,
            later_lang,
        ) == resolved_language(cache, lc_all, lang),
{
}


/// The text of `key` in `lang`, as characters.
pub open spec fn translate_view(lang: Language, key: TranslationKey) -> Seq<char> {
    translation(lang, key)@
}

/// What `translate` answers in English for every key.
pub proof fn lemma_english_texts()
    ensures
        translate_view(Language::En, TranslationKey::GlobalGroup) == "global"@,
        translate_view(Language::En, TranslationKey::NavigationGroup) == "navigation"@,
        translate_view(Language::En, TranslationKey::WorkspacesTabsGroup) == "workspaces / tabs"@,
        translate_view(Language::En, TranslationKey::PanesGroup) == "panes"@,
        translate_view(Language::En, TranslationKey::CustomGroup) == "custom"@,
        translate_view(Language::En, TranslationKey::PrefixMode) == "prefix mode"@,
        translate_view(Language::En, TranslationKey::KeybindsLabel) == "keybinds"@,
        translate_view(Language::En, TranslationKey::Settings) == "settings"@,
        translate_view(Language::En, TranslationKey::Detach) == "detach"@,
        translate_view(Language::En, TranslationKey::ReloadConfig) == "reload config"@,
        translate_view(Language::En, TranslationKey::OpenNotificationTarget) == "open notification target"@,
        translate_view(Language::En, TranslationKey::Back) == "back"@,
        translate_view(Language::En, TranslationKey::WorkspaceList) == "workspace list"@,
        translate_view(Language::En, TranslationKey::MoveFocus) == "move focus"@,
        translate_view(Language::En, TranslationKey::CyclePane) == "cycle pane"@,
        translate_view(Language::En, TranslationKey::OpenWorkspace) == "open workspace"@,
        translate_view(Language::En, TranslationKey::SwitchWorkspace) == "switch workspace"@,
        translate_view(Language::En, TranslationKey::WorkspaceNavigation) == "workspace navigation"@,
        translate_view(Language::En, TranslationKey::SessionNavigator) == "session navigator"@,
        translate_view(Language::En, TranslationKey::NewWorkspace) == "new workspace"@,
        translate_view(Language::En, TranslationKey::NewWorktree) == "new worktree"@,
        translate_view(Language::En, TranslationKey::OpenWorktree) == "open worktree"@,
        translate_view(Language::En, TranslationKey::DeleteWorktreeCheckout) == "delete worktree checkout"@,
        translate_view(Language::En, TranslationKey::RenameWorkspace) == "rename workspace"@,
        translate_view(Language::En, TranslationKey::CloseWorkspace) == "close workspace"@,
        translate_view(Language::En, TranslationKey::PreviousWorkspace) == "previous workspace"@,
        translate_view(Language::En, TranslationKey::NextWorkspace) == "next workspace"@,
        translate_view(Language::En, TranslationKey::SwitchWorkspace19) == "switch workspace 1-9"@,
        translate_view(Language::En, TranslationKey::PreviousAgent) == "previous agent"@,
        translate_view(Language::En, TranslationKey::NextAgent) == "next agent"@,
        translate_view(Language::En, TranslationKey::FocusAgent19) == "focus agent 1-9"@,
        translate_view(Language::En, TranslationKey::NewTab) == "new tab"@,
        translate_view(Language::En, TranslationKey::RenameTab) == "rename tab"@,
        translate_view(Language::En, TranslationKey::PreviousTab) == "previous tab"@,
        translate_view(Language::En, TranslationKey::NextTab) == "next tab"@,
        translate_view(Language::En, TranslationKey::SwitchTab19) == "switch tab 1-9"@,
        translate_view(Language::En, TranslationKey::CloseTab) == "close tab"@,
        translate_view(Language::En, TranslationKey::SplitVertical) == "split vertical"@,
        translate_view(Language::En, TranslationKey::SplitHorizontal) == "split horizontal"@,
        translate_view(Language::En, TranslationKey::ClosePane) == "close pane"@,
        translate_view(Language::En, TranslationKey::RenamePane) == "rename pane"@,
        translate_view(Language::En, TranslationKey::EditScrollback) == "edit scrollback"@,
        translate_view(Language::En, TranslationKey::CopyMode) == "copy mode"@,
        translate_view(Language::En, TranslationKey::ZoomPane) == "zoom pane"@,
        translate_view(Language::En, TranslationKey::ResizeMode) == "resize mode"@,
        translate_view(Language::En, TranslationKey::ToggleSidebar) == "toggle sidebar"@,
        translate_view(Language::En, TranslationKey::FocusPaneLeft) == "focus pane left"@,
        translate_view(Language::En, TranslationKey::FocusPaneDown) == "focus pane down"@,
        translate_view(Language::En, TranslationKey::FocusPaneUp) == "focus pane up"@,
        translate_view(Language::En, TranslationKey::FocusPaneRight) == "focus pane right"@,
        translate_view(Language::En, TranslationKey::CyclePaneNext) == "cycle pane next"@,
        translate_view(Language::En, TranslationKey::CyclePanePrevious) == "cycle pane previous"@,
        translate_view(Language::En, TranslationKey::LastPane) == "last pane"@,
        translate_view(Language::En, TranslationKey::CustomCommand) == "custom command"@,
        translate_view(Language::En, TranslationKey::Unset) == "unset"@,
        translate_view(Language::En, TranslationKey::NoMatchingKeybinds) == "no matching keybinds"@,
        translate_view(Language::En, TranslationKey::Close) == "close"@,
        translate_view(Language::En, TranslationKey::PressSlashToFilter) == "press / to filter by command or shortcut"@,
        translate_view(Language::En, TranslationKey::FilterLabel) == "filter"@,
        translate_view(Language::En, TranslationKey::ClearLabel) == "clear"@,
        translate_view(Language::En, TranslationKey::ScrollLabel) == "scroll"@,
        translate_view(Language::En, TranslationKey::SearchLabel) == "search"@,
        translate_view(Language::En, TranslationKey::ModePrefix) == "PREFIX"@,
        translate_view(Language::En, TranslationKey::ModeCopy) == "COPY"@,
        translate_view(Language::En, TranslationKey::ModeNavigate) == "NAVIGATE"@,
        translate_view(Language::En, TranslationKey::ModeResize) == "RESIZE"@,
        translate_view(Language::En, TranslationKey::Cancel) == "cancel"@,
        translate_view(Language::En, TranslationKey::SendPrefix) == "send prefix"@,
        translate_view(Language::En, TranslationKey::WorkspaceNavShort) == "workspace nav"@,
        translate_view(Language::En, TranslationKey::EnterSearchEscCancel) == "enter search  esc cancel"@,
        translate_view(Language::En, TranslationKey::Selecting) == "selecting"@,
        translate_view(Language::En, TranslationKey::Select) == "select"@,
        translate_view(Language::En, TranslationKey::Exit) == "exit"@,
        translate_view(Language::En, TranslationKey::ClearQExit) == "clear  q exit"@,
        translate_view(Language::En, TranslationKey::Move) == "move"@,
        translate_view(Language::En, TranslationKey::Repeat) == "repeat"@,
        translate_view(Language::En, TranslationKey::Copy) == "copy"@,
        translate_view(Language::En, TranslationKey::WsShort) == "ws"@,
        translate_view(Language::En, TranslationKey::Pane) == "pane"@,
        translate_view(Language::En, TranslationKey::NavigatorShort) == "navigator"@,
        translate_view(Language::En, TranslationKey::SplitVertSymbol) == "split│"@,
        translate_view(Language::En, TranslationKey::SplitHorizSymbol) == "split─"@,
        translate_view(Language::En, TranslationKey::Zoom) == "zoom"@,
        translate_view(Language::En, TranslationKey::ResizeShort) == "resize"@,
        translate_view(Language::En, TranslationKey::UpdateReady) == "update ready"@,
        translate_view(Language::En, TranslationKey::Width) == "width"@,
        translate_view(Language::En, TranslationKey::Height) == "height"@,
        translate_view(Language::En, TranslationKey::Done) == "done"@,
        translate_view(Language::En, TranslationKey::WhatsNew) == "what's new"@,
        translate_view(Language::En, TranslationKey::Save) == "save"@,
        translate_view(Language::En, TranslationKey::Confirm) == "confirm"@,
        translate_view(Language::En, TranslationKey::Open) == "open"@,
        translate_view(Language::En, TranslationKey::CreateAndOpen) == "create and open"@,
        translate_view(Language::En, TranslationKey::DeleteAnyway) == "delete anyway"@,
        translate_view(Language::En, TranslationKey::Remove) == "remove"@,
        translate_view(Language::En, TranslationKey::Branch) == "branch"@,
        translate_view(Language::En, TranslationKey::Checkout) == "checkout"@,
        translate_view(Language::En, TranslationKey::Creating) == "creating…"@,
        translate_view(Language::En, TranslationKey::DeleteWorktreeCheckoutQ) == "delete worktree checkout?"@,
        translate_view(Language::En, TranslationKey::RemovesCheckoutFolder) == "This removes the checkout folder:"@,
        translate_view(Language::En, TranslationKey::BranchNotDeletedWorkspaceWillClose) == "The branch is not deleted. The Herdr workspace will close."@,
        translate_view(Language::En, TranslationKey::DirtyWillBeDeleted) == "Dirty or untracked files will be permanently deleted."@,
        translate_view(Language::En, TranslationKey::Removing) == "removing…"@,
        translate_view(Language::En, TranslationKey::NoMatchingWorktrees) == "no matching worktrees"@,
        translate_view(Language::En, TranslationKey::FilterWorktrees) == "filter worktrees"@,
        translate_view(Language::En, TranslationKey::Checkouts) == "checkouts"@,
        translate_view(Language::En, TranslationKey::CloseWorkspaceQ) == "Close workspace?"@,
        translate_view(Language::En, TranslationKey::CloseWorktreeGroupQ) == "Close worktree group?"@,
        translate_view(Language::En, TranslationKey::PaneUnitSingular) == "pane"@,
        translate_view(Language::En, TranslationKey::PaneUnitPlural) == "panes"@,
        translate_view(Language::En, TranslationKey::WorkspaceUnitSingular) == "workspace"@,
        translate_view(Language::En, TranslationKey::WorkspaceUnitPlural) == "workspaces"@,
        translate_view(Language::En, TranslationKey::CmRename) == "Rename"@,
        translate_view(Language::En, TranslationKey::CmClose) == "Close"@,
        translate_view(Language::En, TranslationKey::CmCloseGroup) == "Close group"@,
        translate_view(Language::En, TranslationKey::CmNewWorktree) == "New worktree"@,
        translate_view(Language::En, TranslationKey::CmOpenWorktree) == "Open worktree..."@,
        translate_view(Language::En, TranslationKey::CmDeleteWorktree) == "Delete worktree checkout..."@,
        translate_view(Language::En, TranslationKey::CmCollapse) == "Collapse"@,
        translate_view(Language::En, TranslationKey::CmExpand) == "Expand"@,
        translate_view(Language::En, TranslationKey::CmNewTab) == "New tab"@,
        translate_view(Language::En, TranslationKey::CmRenamePane) == "Rename pane"@,
        translate_view(Language::En, TranslationKey::CmClearPaneName) == "Clear pane name"@,
        translate_view(Language::En, TranslationKey::CmSwapWithFocusedPane) == "Swap with focused pane"@,
        translate_view(Language::En, TranslationKey::CmSplitRight) == "Split right"@,
        translate_view(Language::En, TranslationKey::CmSplitDown) == "Split down"@,
        translate_view(Language::En, TranslationKey::CmZoom) == "Zoom"@,
        translate_view(Language::En, TranslationKey::CmClosePane) == "Close pane"@,
        translate_view(Language::En, TranslationKey::MobileSwitch) == "switch"@,
        translate_view(Language::En, TranslationKey::NoWorkspace) == "no workspace"@,
        translate_view(Language::En, TranslationKey::Filtered) == "filtered"@,
        translate_view(Language::En, TranslationKey::Agents) == "agents"@,
        translate_view(Language::En, TranslationKey::NoMatchingAgents) == "no matching agents"@,
        translate_view(Language::En, TranslationKey::Spaces) == "spaces"@,
        translate_view(Language::En, TranslationKey::NewWorkspaceMobile) == "+ new workspace"@,
        translate_view(Language::En, TranslationKey::Tabs) == "tabs"@,
        translate_view(Language::En, TranslationKey::NewTabMobile) == "+ new tab"@,
        translate_view(Language::En, TranslationKey::TabPrefix) == "tab"@,
        translate_view(Language::En, TranslationKey::Menu) == "menu"@,
        translate_view(Language::En, TranslationKey::NoAgents) == "no agents"@,
        translate_view(Language::En, TranslationKey::AllIdle) == "all idle"@,
        translate_view(Language::En, TranslationKey::BlockedLabel) == "blocked"@,
        translate_view(Language::En, TranslationKey::DoneLabel) == "done"@,
        translate_view(Language::En, TranslationKey::WorkingLabel) == "working"@,
        translate_view(Language::En, TranslationKey::IdleLabel) == "idle"@,
        translate_view(Language::En, TranslationKey::WaitingAgent) == "waiting"@,
        translate_view(Language::En, TranslationKey::DoneAgent) == "done"@,
        translate_view(Language::En, TranslationKey::SidebarNew) == "new"@,
        translate_view(Language::En, TranslationKey::SortGrouped) == "grouped"@,
        translate_view(Language::En, TranslationKey::SortPriority) == "priority"@,
        translate_view(Language::En, TranslationKey::UnknownLabel) == "unknown"@,
        translate_view(Language::En, TranslationKey::CopiedToClipboard) == "copied to clipboard"@,
        translate_view(Language::En, TranslationKey::SoundAlerts) == "sound alerts"@,
        translate_view(Language::En, TranslationKey::SoundAlertsDesc) == "play sounds when agents change state in background"@,
        translate_view(Language::En, TranslationKey::NotificationPopups) == "notification popups"@,
        translate_view(Language::En, TranslationKey::NotificationPopupsDesc) == "choose where background popup notifications should appear"@,
        translate_view(Language::En, TranslationKey::ToastInsideHerdr) == "inside herdr"@,
        translate_view(Language::En, TranslationKey::ToastViaTerminal) == "via terminal"@,
        translate_view(Language::En, TranslationKey::ToastViaSystem) == "via system"@,
        translate_view(Language::En, TranslationKey::ToggleOn) == "on"@,
        translate_view(Language::En, TranslationKey::ToggleOff) == "off"@,
        translate_view(Language::En, TranslationKey::AgentBorderLabels) == "agent border labels"@,
        translate_view(Language::En, TranslationKey::AgentBorderLabelsDesc) == "show detected agent names in split pane borders"@,
        translate_view(Language::En, TranslationKey::AgentIntegrations) == "agent integrations"@,
        translate_view(Language::En, TranslationKey::AgentIntegrationsDesc) == "let agents report state directly instead of relying only on process detection"@,
        translate_view(Language::En, TranslationKey::NoIntegrationTargets) == "no integration targets available"@,
        translate_view(Language::En, TranslationKey::IntegrationsHintInstall) == "press install to add available or outdated integrations"@,
        translate_view(Language::En, TranslationKey::IntegrationsAllInstalled) == "all detected integrations are installed"@,
        translate_view(Language::En, TranslationKey::IntegrationsNoneFound) == "no supported agent CLIs found on PATH"@,
        translate_view(Language::En, TranslationKey::Install) == "install"@,
        translate_view(Language::En, TranslationKey::Apply) == "apply"@,
        translate_view(Language::En, TranslationKey::SectionHint) == "section"@,
        translate_view(Language::En, TranslationKey::SectionTheme) == "theme"@,
        translate_view(Language::En, TranslationKey::SectionSound) == "sound"@,
        translate_view(Language::En, TranslationKey::SectionToast) == "toasts"@,
        translate_view(Language::En, TranslationKey::SectionPaneLabels) == "pane labels"@,
        translate_view(Language::En, TranslationKey::SectionIntegrations) == "integrations"@,
        translate_view(Language::En, TranslationKey::IntegrationInstalled) == "installed"@,
        translate_view(Language::En, TranslationKey::IntegrationUpdateAvailable) == "update available"@,
        translate_view(Language::En, TranslationKey::IntegrationAvailable) == "available"@,
        translate_view(Language::En, TranslationKey::IntegrationNotFound) == "not found"@,
        translate_view(Language::En, TranslationKey::IntegrationsAllCurrent) == "all detected integrations are current"@,
{
}

/// What `translate` answers in simplified Chinese for every key.
pub proof fn lemma_chinese_texts()
    ensures
        translate_view(Language::ZhCn, TranslationKey::GlobalGroup) == "全局"@,
        translate_view(Language::ZhCn, TranslationKey::NavigationGroup) == "导航"@,
        translate_view(Language::ZhCn, TranslationKey::WorkspacesTabsGroup) == "工作区与标签页"@,
        translate_view(Language::ZhCn, TranslationKey::PanesGroup) == "窗格"@,
        translate_view(Language::ZhCn, TranslationKey::CustomGroup) == "自定义"@,
        translate_view(Language::ZhCn, TranslationKey::PrefixMode) == "前缀模式"@,
        translate_view(Language::ZhCn, TranslationKey::KeybindsLabel) == "快捷键"@,
        translate_view(Language::ZhCn, TranslationKey::Settings) == "设置"@,
        translate_view(Language::ZhCn, TranslationKey::Detach) == "分离"@,
        translate_view(Language::ZhCn, TranslationKey::ReloadConfig) == "重新加载配置"@,
        translate_view(Language::ZhCn, TranslationKey::OpenNotificationTarget) == "打开通知目标"@,
        translate_view(Language::ZhCn, TranslationKey::Back) == "返回"@,
        translate_view(Language::ZhCn, TranslationKey::WorkspaceList) == "工作区列表"@,
        translate_view(Language::ZhCn, TranslationKey::MoveFocus) == "移动焦点"@,
        translate_view(Language::ZhCn, TranslationKey::CyclePane) == "循环切换窗格"@,
        translate_view(Language::ZhCn, TranslationKey::OpenWorkspace) == "打开工作区"@,
        translate_view(Language::ZhCn, TranslationKey::SwitchWorkspace) == "切换工作区"@,
        translate_view(Language::ZhCn, TranslationKey::WorkspaceNavigation) == "工作区导航"@,
        translate_view(Language::ZhCn, TranslationKey::SessionNavigator) == "会话导航"@,
        translate_view(Language::ZhCn, TranslationKey::NewWorkspace) == "新建工作区"@,
        translate_view(Language::ZhCn, TranslationKey::NewWorktree) == "新建 worktree"@,
        translate_view(Language::ZhCn, TranslationKey::OpenWorktree) == "打开 worktree"@,
        translate_view(Language::ZhCn, TranslationKey::DeleteWorktreeCheckout) == "删除 worktree 检出"@,
        translate_view(Language::ZhCn, TranslationKey::RenameWorkspace) == "重命名工作区"@,
        translate_view(Language::ZhCn, TranslationKey::CloseWorkspace) == "关闭工作区"@,
        translate_view(Language::ZhCn, TranslationKey::PreviousWorkspace) == "上一个工作区"@,
        translate_view(Language::ZhCn, TranslationKey::NextWorkspace) == "下一个工作区"@,
        translate_view(Language::ZhCn, TranslationKey::SwitchWorkspace19) == "切换工作区 1-9"@,
        translate_view(Language::ZhCn, TranslationKey::PreviousAgent) == "上一个 agent"@,
        translate_view(Language::ZhCn, TranslationKey::NextAgent) == "下一个 agent"@,
        translate_view(Language::ZhCn, TranslationKey::FocusAgent19) == "聚焦 agent 1-9"@,
        translate_view(Language::ZhCn, TranslationKey::NewTab) == "新建标签页"@,
        translate_view(Language::ZhCn, TranslationKey::RenameTab) == "重命名标签页"@,
        translate_view(Language::ZhCn, TranslationKey::PreviousTab) == "上一个标签页"@,
        translate_view(Language::ZhCn, TranslationKey::NextTab) == "下一个标签页"@,
        translate_view(Language::ZhCn, TranslationKey::SwitchTab19) == "切换标签页 1-9"@,
        translate_view(Language::ZhCn, TranslationKey::CloseTab) == "关闭标签页"@,
        translate_view(Language::ZhCn, TranslationKey::SplitVertical) == "垂直分割"@,
        translate_view(Language::ZhCn, TranslationKey::SplitHorizontal) == "水平分割"@,
        translate_view(Language::ZhCn, TranslationKey::ClosePane) == "关闭窗格"@,
        translate_view(Language::ZhCn, TranslationKey::RenamePane) == "重命名窗格"@,
        translate_view(Language::ZhCn, TranslationKey::EditScrollback) == "编辑回滚"@,
        translate_view(Language::ZhCn, TranslationKey::CopyMode) == "复制模式"@,
        translate_view(Language::ZhCn, TranslationKey::ZoomPane) == "缩放窗格"@,
        translate_view(Language::ZhCn, TranslationKey::ResizeMode) == "调整大小模式"@,
        translate_view(Language::ZhCn, TranslationKey::ToggleSidebar) == "切换侧边栏"@,
        translate_view(Language::ZhCn, TranslationKey::FocusPaneLeft) == "左移焦点"@,
        translate_view(Language::ZhCn, TranslationKey::FocusPaneDown) == "下移焦点"@,
        translate_view(Language::ZhCn, TranslationKey::FocusPaneUp) == "上移焦点"@,
        translate_view(Language::ZhCn, TranslationKey::FocusPaneRight) == "右移焦点"@,
        translate_view(Language::ZhCn, TranslationKey::CyclePaneNext) == "下一个窗格"@,
        translate_view(Language::ZhCn, TranslationKey::CyclePanePrevious) == "上一个窗格"@,
        translate_view(Language::ZhCn, TranslationKey::LastPane) == "最后一个窗格"@,
        translate_view(Language::ZhCn, TranslationKey::CustomCommand) == "自定义命令"@,
        translate_view(Language::ZhCn, TranslationKey::Unset) == "未设置"@,
        translate_view(Language::ZhCn, TranslationKey::NoMatchingKeybinds) == "无匹配的快捷键"@,
        translate_view(Language::ZhCn, TranslationKey::Close) == "关闭"@,
        translate_view(Language::ZhCn, TranslationKey::PressSlashToFilter) == "按 / 按命令或快捷键筛选"@,
        translate_view(Language::ZhCn, TranslationKey::FilterLabel) == "筛选"@,
        translate_view(Language::ZhCn, TranslationKey::ClearLabel) == "清除"@,
        translate_view(Language::ZhCn, TranslationKey::ScrollLabel) == "滚动"@,
        translate_view(Language::ZhCn, TranslationKey::SearchLabel) == "搜索"@,
        translate_view(Language::ZhCn, TranslationKey::ModePrefix) == "前缀"@,
        translate_view(Language::ZhCn, TranslationKey::ModeCopy) == "复制"@,
        translate_view(Language::ZhCn, TranslationKey::ModeNavigate) == "导航"@,
        translate_view(Language::ZhCn, TranslationKey::ModeResize) == "调整"@,
        translate_view(Language::ZhCn, TranslationKey::Cancel) == "取消"@,
        translate_view(Language::ZhCn, TranslationKey::SendPrefix) == "发送前缀"@,
        translate_view(Language::ZhCn, TranslationKey::WorkspaceNavShort) == "工作区导航"@,
        translate_view(Language::ZhCn, TranslationKey::EnterSearchEscCancel) == "enter 搜索  esc 取消"@,
        translate_view(Language::ZhCn, TranslationKey::Selecting) == "选择中"@,
        translate_view(Language::ZhCn, TranslationKey::Select) == "选择"@,
        translate_view(Language::ZhCn, TranslationKey::Exit) == "退出"@,
        translate_view(Language::ZhCn, TranslationKey::ClearQExit) == "清除  q 退出"@,
        translate_view(Language::ZhCn, TranslationKey::Move) == "移动"@,
        translate_view(Language::ZhCn, TranslationKey::Repeat) == "重复"@,
        translate_view(Language::ZhCn, TranslationKey::Copy) == "复制"@,
        translate_view(Language::ZhCn, TranslationKey::WsShort) == "工作区"@,
        translate_view(Language::ZhCn, TranslationKey::Pane) == "窗格"@,
        translate_view(Language::ZhCn, TranslationKey::NavigatorShort) == "导航器"@,
        translate_view(Language::ZhCn, TranslationKey::SplitVertSymbol) == "分割│"@,
        translate_view(Language::ZhCn, TranslationKey::SplitHorizSymbol) == "分割─"@,
        translate_view(Language::ZhCn, TranslationKey::Zoom) == "缩放"@,
        translate_view(Language::ZhCn, TranslationKey::ResizeShort) == "调整"@,
        translate_view(Language::ZhCn, TranslationKey::UpdateReady) == "有更新"@,
        translate_view(Language::ZhCn, TranslationKey::Width) == "宽度"@,
        translate_view(Language::ZhCn, TranslationKey::Height) == "高度"@,
        translate_view(Language::ZhCn, TranslationKey::Done) == "完成"@,
        translate_view(Language::ZhCn, TranslationKey::WhatsNew) == "新功能"@,
        translate_view(Language::ZhCn, TranslationKey::Save) == "保存"@,
        translate_view(Language::ZhCn, TranslationKey::Confirm) == "确认"@,
        translate_view(Language::ZhCn, TranslationKey::Open) == "打开"@,
        translate_view(Language::ZhCn, TranslationKey::CreateAndOpen) == "创建并打开"@,
        translate_view(Language::ZhCn, TranslationKey::DeleteAnyway) == "仍然删除"@,
        translate_view(Language::ZhCn, TranslationKey::Remove) == "移除"@,
        translate_view(Language::ZhCn, TranslationKey::Branch) == "分支"@,
        translate_view(Language::ZhCn, TranslationKey::Checkout) == "检出路径"@,
        translate_view(Language::ZhCn, TranslationKey::Creating) == "创建中…"@,
        translate_view(Language::ZhCn, TranslationKey::DeleteWorktreeCheckoutQ) == "删除 worktree 检出？"@,
        translate_view(Language::ZhCn, TranslationKey::RemovesCheckoutFolder) == "这将移除检出文件夹："@,
        translate_view(Language::ZhCn, TranslationKey::BranchNotDeletedWorkspaceWillClose) == "分支不会被删除。Herdr 工作区将关闭。"@,
        translate_view(Language::ZhCn, TranslationKey::DirtyWillBeDeleted) == "脏文件或未跟踪文件将被永久删除。"@,
        translate_view(Language::ZhCn, TranslationKey::Removing) == "移除中…"@,
        translate_view(Language::ZhCn, TranslationKey::NoMatchingWorktrees) == "无匹配的 worktree"@,
        translate_view(Language::ZhCn, TranslationKey::FilterWorktrees) == "筛选 worktree"@,
        translate_view(Language::ZhCn, TranslationKey::Checkouts) == "个检出"@,
        translate_view(Language::ZhCn, TranslationKey::CloseWorkspaceQ) == "关闭工作区？"@,
        translate_view(Language::ZhCn, TranslationKey::CloseWorktreeGroupQ) == "关闭 worktree 组？"@,
        translate_view(Language::ZhCn, TranslationKey::PaneUnitSingular) == "个窗格"@,
        translate_view(Language::ZhCn, TranslationKey::PaneUnitPlural) == "个窗格"@,
        translate_view(Language::ZhCn, TranslationKey::WorkspaceUnitSingular) == "个工作区"@,
        translate_view(Language::ZhCn, TranslationKey::WorkspaceUnitPlural) == "个工作区"@,
        translate_view(Language::ZhCn, TranslationKey::CmRename) == "重命名"@,
        translate_view(Language::ZhCn, TranslationKey::CmClose) == "关闭"@,
        translate_view(Language::ZhCn, TranslationKey::CmCloseGroup) == "关闭组"@,
        translate_view(Language::ZhCn, TranslationKey::CmNewWorktree) == "新建 worktree"@,
        translate_view(Language::ZhCn, TranslationKey::CmOpenWorktree) == "打开 worktree..."@,
        translate_view(Language::ZhCn, TranslationKey::CmDeleteWorktree) == "删除 worktree 检出..."@,
        translate_view(Language::ZhCn, TranslationKey::CmCollapse) == "折叠"@,
        translate_view(Language::ZhCn, TranslationKey::CmExpand) == "展开"@,
        translate_view(Language::ZhCn, TranslationKey::CmNewTab) == "新建标签页"@,
        translate_view(Language::ZhCn, TranslationKey::CmRenamePane) == "重命名窗格"@,
        translate_view(Language::ZhCn, TranslationKey::CmClearPaneName) == "清除窗格名"@,
        translate_view(Language::ZhCn, TranslationKey::CmSwapWithFocusedPane) == "与聚焦窗格交换"@,
        translate_view(Language::ZhCn, TranslationKey::CmSplitRight) == "向右分割"@,
        translate_view(Language::ZhCn, TranslationKey::CmSplitDown) == "向下分割"@,
        translate_view(Language::ZhCn, TranslationKey::CmZoom) == "缩放"@,
        translate_view(Language::ZhCn, TranslationKey::CmClosePane) == "关闭窗格"@,
        translate_view(Language::ZhCn, TranslationKey::MobileSwitch) == "切换"@,
        translate_view(Language::ZhCn, TranslationKey::NoWorkspace) == "无工作区"@,
        translate_view(Language::ZhCn, TranslationKey::Filtered) == "已筛选"@,
        translate_view(Language::ZhCn, TranslationKey::Agents) == "agent"@,
        translate_view(Language::ZhCn, TranslationKey::NoMatchingAgents) == "无匹配的 agent"@,
        translate_view(Language::ZhCn, TranslationKey::Spaces) == "工作区"@,
        translate_view(Language::ZhCn, TranslationKey::NewWorkspaceMobile) == "+ 新建工作区"@,
        translate_view(Language::ZhCn, TranslationKey::Tabs) == "标签页"@,
        translate_view(Language::ZhCn, TranslationKey::NewTabMobile) == "+ 新建标签页"@,
        translate_view(Language::ZhCn, TranslationKey::TabPrefix) == "标签页"@,
        translate_view(Language::ZhCn, TranslationKey::Menu) == "菜单"@,
        translate_view(Language::ZhCn, TranslationKey::NoAgents) == "无 agent"@,
        translate_view(Language::ZhCn, TranslationKey::AllIdle) == "全部空闲"@,
        translate_view(Language::ZhCn, TranslationKey::BlockedLabel) == "阻塞"@,
        translate_view(Language::ZhCn, TranslationKey::DoneLabel) == "完成"@,
        translate_view(Language::ZhCn, TranslationKey::WorkingLabel) == "工作中"@,
        translate_view(Language::ZhCn, TranslationKey::IdleLabel) == "空闲"@,
        translate_view(Language::ZhCn, TranslationKey::WaitingAgent) == "等待中"@,
        translate_view(Language::ZhCn, TranslationKey::DoneAgent) == "已完成"@,
        translate_view(Language::ZhCn, TranslationKey::SidebarNew) == "新建"@,
        translate_view(Language::ZhCn, TranslationKey::SortGrouped) == "分组"@,
        translate_view(Language::ZhCn, TranslationKey::SortPriority) == "优先级"@,
        translate_view(Language::ZhCn, TranslationKey::UnknownLabel) == "未知"@,
        translate_view(Language::ZhCn, TranslationKey::CopiedToClipboard) == "已复制到剪贴板"@,
        translate_view(Language::ZhCn, TranslationKey::SoundAlerts) == "声音提醒"@,
        translate_view(Language::ZhCn, TranslationKey::SoundAlertsDesc) == "后台 agent 状态变化时播放提示音"@,
        translate_view(Language::ZhCn, TranslationKey::NotificationPopups) == "通知弹窗"@,
        translate_view(Language::ZhCn, TranslationKey::NotificationPopupsDesc) == "选择后台通知弹窗的显示位置"@,
        translate_view(Language::ZhCn, TranslationKey::ToastInsideHerdr) == "herdr 内"@,
        translate_view(Language::ZhCn, TranslationKey::ToastViaTerminal) == "经终端"@,
        translate_view(Language::ZhCn, TranslationKey::ToastViaSystem) == "经系统"@,
        translate_view(Language::ZhCn, TranslationKey::ToggleOn) == "开启"@,
        translate_view(Language::ZhCn, TranslationKey::ToggleOff) == "关闭"@,
        translate_view(Language::ZhCn, TranslationKey::AgentBorderLabels) == "agent 边框标签"@,
        translate_view(Language::ZhCn, TranslationKey::AgentBorderLabelsDesc) == "在分割窗格边框中显示检测到的 agent 名称"@,
        translate_view(Language::ZhCn, TranslationKey::AgentIntegrations) == "agent 集成"@,
        translate_view(Language::ZhCn, TranslationKey::AgentIntegrationsDesc) == "让 agent 直接上报状态，而非仅依赖进程检测"@,
        translate_view(Language::ZhCn, TranslationKey::NoIntegrationTargets) == "无可用的集成目标"@,
        translate_view(Language::ZhCn, TranslationKey::IntegrationsHintInstall) == "按「安装」添加可用或过时的集成"@,
        translate_view(Language::ZhCn, TranslationKey::IntegrationsAllInstalled) == "所有检测到的集成均已安装"@,
        translate_view(Language::ZhCn, TranslationKey::IntegrationsNoneFound) == "PATH 中未找到受支持的 agent CLI"@,
        translate_view(Language::ZhCn, TranslationKey::Install) == "安装"@,
        translate_view(Language::ZhCn, TranslationKey::Apply) == "应用"@,
        translate_view(Language::ZhCn, TranslationKey::SectionHint) == "切换分区"@,
        translate_view(Language::ZhCn, TranslationKey::SectionTheme) == "主题"@,
        translate_view(Language::ZhCn, TranslationKey::SectionSound) == "声音"@,
        translate_view(Language::ZhCn, TranslationKey::SectionToast) == "通知"@,
        translate_view(Language::ZhCn, TranslationKey::SectionPaneLabels) == "窗格标签"@,
        translate_view(Language::ZhCn, TranslationKey::SectionIntegrations) == "集成"@,
        translate_view(Language::ZhCn, TranslationKey::IntegrationInstalled) == "已安装"@,
        translate_view(Language::ZhCn, TranslationKey::IntegrationUpdateAvailable) == "有更新"@,
        translate_view(Language::ZhCn, TranslationKey::IntegrationAvailable) == "可安装"@,
        translate_view(Language::ZhCn, TranslationKey::IntegrationNotFound) == "未找到"@,
        translate_view(Language::ZhCn, TranslationKey::IntegrationsAllCurrent) == "所有检测到的集成均为最新"@,
{
}

/// Every key has a non-empty text in every language.
pub proof fn lemma_every_key_has_text(lang: Language, key: TranslationKey)
    ensures
        translation(lang, key)@.len() > 0,
{
    reveal_strlit("+ new tab");
    reveal_strlit("+ new workspace");
    reveal_strlit("+ 新建工作区");
    reveal_strlit("+ 新建标签页");
    reveal_strlit("COPY");
    reveal_strlit("Clear pane name");
    reveal_strlit("Close group");
    reveal_strlit("Close pane");
    reveal_strlit("Close workspace?");
    reveal_strlit("Close worktree group?");
    reveal_strlit("Close");
    reveal_strlit("Collapse");
    reveal_strlit("Delete worktree checkout...");
    reveal_strlit("Dirty or untracked files will be permanently deleted.");
    reveal_strlit("Expand");
    reveal_strlit("NAVIGATE");
    reveal_strlit("New tab");
    reveal_strlit("New worktree");
    reveal_strlit("Open worktree...");
    reveal_strlit("PATH 中未找到受支持的 agent CLI");
    reveal_strlit("PREFIX");
    reveal_strlit("RESIZE");
    reveal_strlit("Rename pane");
    reveal_strlit("Rename");
    reveal_strlit("Split down");
    reveal_strlit("Split right");
    reveal_strlit("Swap with focused pane");
    reveal_strlit("The branch is not deleted. The Herdr workspace will close.");
    reveal_strlit("This removes the checkout folder:");
    reveal_strlit("Zoom");
    reveal_strlit("agent border labels");
    reveal_strlit("agent integrations");
    reveal_strlit("agent 边框标签");
    reveal_strlit("agent 集成");
    reveal_strlit("agent");
    reveal_strlit("agents");
    reveal_strlit("all detected integrations are current");
    reveal_strlit("all detected integrations are installed");
    reveal_strlit("all idle");
    reveal_strlit("apply");
    reveal_strlit("available");
    reveal_strlit("back");
    reveal_strlit("blocked");
    reveal_strlit("branch");
    reveal_strlit("cancel");
    reveal_strlit("checkout");
    reveal_strlit("checkouts");
    reveal_strlit("choose where background popup notifications should appear");
    reveal_strlit("clear  q exit");
    reveal_strlit("clear");
    reveal_strlit("close pane");
    reveal_strlit("close tab");
    reveal_strlit("close workspace");
    reveal_strlit("close");
    reveal_strlit("confirm");
    reveal_strlit("copied to clipboard");
    reveal_strlit("copy mode");
    reveal_strlit("copy");
    reveal_strlit("create and open");
    reveal_strlit("creating…");
    reveal_strlit("custom command");
    reveal_strlit("custom");
    reveal_strlit("cycle pane next");
    reveal_strlit("cycle pane previous");
    reveal_strlit("cycle pane");
    reveal_strlit("delete anyway");
    reveal_strlit("delete worktree checkout");
    reveal_strlit("delete worktree checkout?");
    reveal_strlit("detach");
    reveal_strlit("done");
    reveal_strlit("edit scrollback");
    reveal_strlit("enter search  esc cancel");
    reveal_strlit("enter 搜索  esc 取消");
    reveal_strlit("exit");
    reveal_strlit("filter worktrees");
    reveal_strlit("filter");
    reveal_strlit("filtered");
    reveal_strlit("focus agent 1-9");
    reveal_strlit("focus pane down");
    reveal_strlit("focus pane left");
    reveal_strlit("focus pane right");
    reveal_strlit("focus pane up");
    reveal_strlit("global");
    reveal_strlit("grouped");
    reveal_strlit("height");
    reveal_strlit("herdr 内");
    reveal_strlit("idle");
    reveal_strlit("inside herdr");
    reveal_strlit("install");
    reveal_strlit("installed");
    reveal_strlit("integrations");
    reveal_strlit("keybinds");
    reveal_strlit("last pane");
    reveal_strlit("let agents report state directly instead of relying only on process detection");
    reveal_strlit("menu");
    reveal_strlit("move focus");
    reveal_strlit("move");
    reveal_strlit("navigation");
    reveal_strlit("navigator");
    reveal_strlit("new tab");
    reveal_strlit("new workspace");
    reveal_strlit("new worktree");
    reveal_strlit("new");
    reveal_strlit("next agent");
    reveal_strlit("next tab");
    reveal_strlit("next workspace");
    reveal_strlit("no agents");
    reveal_strlit("no integration targets available");
    reveal_strlit("no matching agents");
    reveal_strlit("no matching keybinds");
    reveal_strlit("no matching worktrees");
    reveal_strlit("no supported agent CLIs found on PATH");
    reveal_strlit("no workspace");
    reveal_strlit("not found");
    reveal_strlit("notification popups");
    reveal_strlit("off");
    reveal_strlit("on");
    reveal_strlit("open notification target");
    reveal_strlit("open workspace");
    reveal_strlit("open worktree");
    reveal_strlit("open");
    reveal_strlit("pane labels");
    reveal_strlit("pane");
    reveal_strlit("panes");
    reveal_strlit("play sounds when agents change state in background");
    reveal_strlit("prefix mode");
    reveal_strlit("press / to filter by command or shortcut");
    reveal_strlit("press install to add available or outdated integrations");
    reveal_strlit("previous agent");
    reveal_strlit("previous tab");
    reveal_strlit("previous workspace");
    reveal_strlit("priority");
    reveal_strlit("reload config");
    reveal_strlit("remove");
    reveal_strlit("removing…");
    reveal_strlit("rename pane");
    reveal_strlit("rename tab");
    reveal_strlit("rename workspace");
    reveal_strlit("repeat");
    reveal_strlit("resize mode");
    reveal_strlit("resize");
    reveal_strlit("save");
    reveal_strlit("scroll");
    reveal_strlit("search");
    reveal_strlit("section");
    reveal_strlit("select");
    reveal_strlit("selecting");
    reveal_strlit("send prefix");
    reveal_strlit("session navigator");
    reveal_strlit("settings");
    reveal_strlit("show detected agent names in split pane borders");
    reveal_strlit("sound alerts");
    reveal_strlit("sound");
    reveal_strlit("spaces");
    reveal_strlit("split horizontal");
    reveal_strlit("split vertical");
    reveal_strlit("split─");
    reveal_strlit("split│");
    reveal_strlit("switch tab 1-9");
    reveal_strlit("switch workspace 1-9");
    reveal_strlit("switch workspace");
    reveal_strlit("switch");
    reveal_strlit("tab");
    reveal_strlit("tabs");
    reveal_strlit("theme");
    reveal_strlit("toasts");
    reveal_strlit("toggle sidebar");
    reveal_strlit("unknown");
    reveal_strlit("unset");
    reveal_strlit("update available");
    reveal_strlit("update ready");
    reveal_strlit("via system");
    reveal_strlit("via terminal");
    reveal_strlit("waiting");
    reveal_strlit("what's new");
    reveal_strlit("width");
    reveal_strlit("working");
    reveal_strlit("workspace list");
    reveal_strlit("workspace nav");
    reveal_strlit("workspace navigation");
    reveal_strlit("workspace");
    reveal_strlit("workspaces / tabs");
    reveal_strlit("workspaces");
    reveal_strlit("ws");
    reveal_strlit("zoom pane");
    reveal_strlit("zoom");
    reveal_strlit("上一个 agent");
    reveal_strlit("上一个工作区");
    reveal_strlit("上一个标签页");
    reveal_strlit("上一个窗格");
    reveal_strlit("上移焦点");
    reveal_strlit("下一个 agent");
    reveal_strlit("下一个工作区");
    reveal_strlit("下一个标签页");
    reveal_strlit("下一个窗格");
    reveal_strlit("下移焦点");
    reveal_strlit("与聚焦窗格交换");
    reveal_strlit("个工作区");
    reveal_strlit("个检出");
    reveal_strlit("个窗格");
    reveal_strlit("主题");
    reveal_strlit("仍然删除");
    reveal_strlit("优先级");
    reveal_strlit("会话导航");
    reveal_strlit("保存");
    reveal_strlit("全局");
    reveal_strlit("全部空闲");
    reveal_strlit("关闭 worktree 组？");
    reveal_strlit("关闭");
    reveal_strlit("关闭工作区");
    reveal_strlit("关闭工作区？");
    reveal_strlit("关闭标签页");
    reveal_strlit("关闭窗格");
    reveal_strlit("关闭组");
    reveal_strlit("分割─");
    reveal_strlit("分割│");
    reveal_strlit("分支");
    reveal_strlit("分支不会被删除。Herdr 工作区将关闭。");
    reveal_strlit("分离");
    reveal_strlit("分组");
    reveal_strlit("切换");
    reveal_strlit("切换侧边栏");
    reveal_strlit("切换分区");
    reveal_strlit("切换工作区 1-9");
    reveal_strlit("切换工作区");
    reveal_strlit("切换标签页 1-9");
    reveal_strlit("创建中…");
    reveal_strlit("创建并打开");
    reveal_strlit("删除 worktree 检出");
    reveal_strlit("删除 worktree 检出...");
    reveal_strlit("删除 worktree 检出？");
    reveal_strlit("前缀");
    reveal_strlit("前缀模式");
    reveal_strlit("发送前缀");
    reveal_strlit("取消");
    reveal_strlit("可安装");
    reveal_strlit("右移焦点");
    reveal_strlit("后台 agent 状态变化时播放提示音");
    reveal_strlit("向下分割");
    reveal_strlit("向右分割");
    reveal_strlit("在分割窗格边框中显示检测到的 agent 名称");
    reveal_strlit("垂直分割");
    reveal_strlit("声音");
    reveal_strlit("声音提醒");
    reveal_strlit("复制");
    reveal_strlit("复制模式");
    reveal_strlit("安装");
    reveal_strlit("完成");
    reveal_strlit("宽度");
    reveal_strlit("导航");
    reveal_strlit("导航器");
    reveal_strlit("展开");
    reveal_strlit("工作中");
    reveal_strlit("工作区");
    reveal_strlit("工作区与标签页");
    reveal_strlit("工作区列表");
    reveal_strlit("工作区导航");
    reveal_strlit("左移焦点");
    reveal_strlit("已复制到剪贴板");
    reveal_strlit("已安装");
    reveal_strlit("已完成");
    reveal_strlit("已筛选");
    reveal_strlit("应用");
    reveal_strlit("开启");
    reveal_strlit("循环切换窗格");
    reveal_strlit("快捷键");
    reveal_strlit("所有检测到的集成均为最新");
    reveal_strlit("所有检测到的集成均已安装");
    reveal_strlit("打开 worktree");
    reveal_strlit("打开 worktree...");
    reveal_strlit("打开");
    reveal_strlit("打开工作区");
    reveal_strlit("打开通知目标");
    reveal_strlit("折叠");
    reveal_strlit("按 / 按命令或快捷键筛选");
    reveal_strlit("按「安装」添加可用或过时的集成");
    reveal_strlit("搜索");
    reveal_strlit("新功能");
    reveal_strlit("新建 worktree");
    reveal_strlit("新建");
    reveal_strlit("新建工作区");
    reveal_strlit("新建标签页");
    reveal_strlit("无 agent");
    reveal_strlit("无匹配的 agent");
    reveal_strlit("无匹配的 worktree");
    reveal_strlit("无匹配的快捷键");
    reveal_strlit("无可用的集成目标");
    reveal_strlit("无工作区");
    reveal_strlit("最后一个窗格");
    reveal_strlit("有更新");
    reveal_strlit("未找到");
    reveal_strlit("未知");
    reveal_strlit("未设置");
    reveal_strlit("标签页");
    reveal_strlit("检出路径");
    reveal_strlit("水平分割");
    reveal_strlit("清除  q 退出");
    reveal_strlit("清除");
    reveal_strlit("清除窗格名");
    reveal_strlit("滚动");
    reveal_strlit("确认");
    reveal_strlit("移动");
    reveal_strlit("移动焦点");
    reveal_strlit("移除");
    reveal_strlit("移除中…");
    reveal_strlit("空闲");
    reveal_strlit("窗格");
    reveal_strlit("窗格标签");
    reveal_strlit("等待中");
    reveal_strlit("筛选 worktree");
    reveal_strlit("筛选");
    reveal_strlit("经系统");
    reveal_strlit("经终端");
    reveal_strlit("编辑回滚");
    reveal_strlit("缩放");
    reveal_strlit("缩放窗格");
    reveal_strlit("聚焦 agent 1-9");
    reveal_strlit("脏文件或未跟踪文件将被永久删除。");
    reveal_strlit("自定义");
    reveal_strlit("自定义命令");
    reveal_strlit("菜单");
    reveal_strlit("让 agent 直接上报状态，而非仅依赖进程检测");
    reveal_strlit("设置");
    reveal_strlit("调整");
    reveal_strlit("调整大小模式");
    reveal_strlit("返回");
    reveal_strlit("这将移除检出文件夹：");
    reveal_strlit("退出");
    reveal_strlit("选择");
    reveal_strlit("选择中");
    reveal_strlit("选择后台通知弹窗的显示位置");
    reveal_strlit("通知");
    reveal_strlit("通知弹窗");
    reveal_strlit("重命名");
    reveal_strlit("重命名工作区");
    reveal_strlit("重命名标签页");
    reveal_strlit("重命名窗格");
    reveal_strlit("重复");
    reveal_strlit("重新加载配置");
    reveal_strlit("阻塞");
    reveal_strlit("集成");
    reveal_strlit("高度");
}

} // verus!
