use herdr::i18n::{
    current_language, detect, init, language_from_locale, tr, translate, Language,
    TranslationKey,
};

// ── from_code ──

#[test]
fn from_code_english_variants() {
    for code in [
        "en", "EN", "En", "en-US", "en-us", "en_US", "en-GB", "en-AU",
    ] {
        assert_eq!(Language::from_code(code), Some(Language::En), "code={code}");
    }
}

#[test]
fn from_code_chinese_variants() {
    for code in [
        "zh",
        "ZH",
        "zh-CN",
        "zh-cn",
        "zh_CN",
        "zh-Hans",
        "zh_Hans",
        "zh-Hans-CN",
        "zh_hans_cn",
        "zh-TW",
        "zh-Hant",
    ] {
        assert_eq!(
            Language::from_code(code),
            Some(Language::ZhCn),
            "code={code}"
        );
    }
}

#[test]
fn from_code_strips_modifier() {
    assert_eq!(
        Language::from_code("zh_CN.UTF-8@pinyin"),
        Some(Language::ZhCn)
    );
    assert_eq!(Language::from_code("en_US@latin"), Some(Language::En));
}

#[test]
fn from_code_unknown_returns_none() {
    for code in ["fr", "ja", "de", "", "xx", "c", "posix"] {
        assert_eq!(Language::from_code(code), None, "code={code}");
    }
}

// ── detection from LC_ALL / LANG (values as the environment holds them; None: unset) ──

#[test]
fn detect_lc_all_preferred_over_lang() {
    assert_eq!(detect(Some("zh_CN.UTF-8"), Some("en_US.UTF-8")), Language::ZhCn);
}

#[test]
fn detect_falls_back_to_lang_when_no_lc_all() {
    assert_eq!(detect(None, Some("zh_CN.UTF-8")), Language::ZhCn);
}

#[test]
fn detect_no_env_returns_english() {
    assert_eq!(detect(None, None), Language::En);
}

#[test]
fn detect_lang_c_returns_english() {
    assert_eq!(detect(None, Some("C")), Language::En);
}

#[test]
fn detect_lang_posix_returns_english() {
    assert_eq!(detect(None, Some("POSIX")), Language::En);
}

#[test]
fn detect_any_zh_prefix_is_chinese() {
    assert_eq!(detect(None, Some("zh_TW.Big5")), Language::ZhCn);
}

#[test]
fn detect_empty_locale_falls_back_to_english() {
    assert_eq!(detect(None, Some("")), Language::En);
}

#[test]
fn detect_empty_lc_all_falls_back_to_lang() {
    assert_eq!(detect(Some(""), Some("zh_CN.UTF-8")), Language::ZhCn);
}

#[test]
fn detect_whitespace_only_lc_all_falls_back_to_lang() {
    assert_eq!(detect(Some("   "), Some("en_US.UTF-8")), Language::En);
}

// ── default language ──

#[test]
fn default_language_is_english() {
    assert_eq!(Language::default(), Language::En);
}

// ── translation table ──

fn all_keys() -> Vec<TranslationKey> {
    vec![
        TranslationKey::GlobalGroup,
        TranslationKey::NavigationGroup,
        TranslationKey::WorkspacesTabsGroup,
        TranslationKey::PanesGroup,
        TranslationKey::CustomGroup,
        TranslationKey::PrefixMode,
        TranslationKey::KeybindsLabel,
        TranslationKey::Settings,
        TranslationKey::Detach,
        TranslationKey::ReloadConfig,
        TranslationKey::OpenNotificationTarget,
        TranslationKey::Back,
        TranslationKey::WorkspaceList,
        TranslationKey::MoveFocus,
        TranslationKey::CyclePane,
        TranslationKey::OpenWorkspace,
        TranslationKey::SwitchWorkspace,
        TranslationKey::WorkspaceNavigation,
        TranslationKey::SessionNavigator,
        TranslationKey::NewWorkspace,
        TranslationKey::NewWorktree,
        TranslationKey::OpenWorktree,
        TranslationKey::DeleteWorktreeCheckout,
        TranslationKey::RenameWorkspace,
        TranslationKey::CloseWorkspace,
        TranslationKey::PreviousWorkspace,
        TranslationKey::NextWorkspace,
        TranslationKey::SwitchWorkspace19,
        TranslationKey::PreviousAgent,
        TranslationKey::NextAgent,
        TranslationKey::FocusAgent19,
        TranslationKey::NewTab,
        TranslationKey::RenameTab,
        TranslationKey::PreviousTab,
        TranslationKey::NextTab,
        TranslationKey::SwitchTab19,
        TranslationKey::CloseTab,
        TranslationKey::SplitVertical,
        TranslationKey::SplitHorizontal,
        TranslationKey::ClosePane,
        TranslationKey::RenamePane,
        TranslationKey::EditScrollback,
        TranslationKey::CopyMode,
        TranslationKey::ZoomPane,
        TranslationKey::ResizeMode,
        TranslationKey::ToggleSidebar,
        TranslationKey::FocusPaneLeft,
        TranslationKey::FocusPaneDown,
        TranslationKey::FocusPaneUp,
        TranslationKey::FocusPaneRight,
        TranslationKey::CyclePaneNext,
        TranslationKey::CyclePanePrevious,
        TranslationKey::LastPane,
        TranslationKey::CustomCommand,
        TranslationKey::Unset,
        TranslationKey::NoMatchingKeybinds,
        TranslationKey::Close,
        TranslationKey::PressSlashToFilter,
        TranslationKey::FilterLabel,
        TranslationKey::ClearLabel,
        TranslationKey::ScrollLabel,
        TranslationKey::SearchLabel,
        TranslationKey::ModePrefix,
        TranslationKey::ModeCopy,
        TranslationKey::ModeNavigate,
        TranslationKey::ModeResize,
        TranslationKey::Cancel,
        TranslationKey::SendPrefix,
        TranslationKey::WorkspaceNavShort,
        TranslationKey::EnterSearchEscCancel,
        TranslationKey::Selecting,
        TranslationKey::Select,
        TranslationKey::Exit,
        TranslationKey::ClearQExit,
        TranslationKey::Move,
        TranslationKey::Repeat,
        TranslationKey::Copy,
        TranslationKey::WsShort,
        TranslationKey::Pane,
        TranslationKey::NavigatorShort,
        TranslationKey::SplitVertSymbol,
        TranslationKey::SplitHorizSymbol,
        TranslationKey::Zoom,
        TranslationKey::ResizeShort,
        TranslationKey::UpdateReady,
        TranslationKey::Width,
        TranslationKey::Height,
        TranslationKey::Done,
        TranslationKey::WhatsNew,
        TranslationKey::Save,
        TranslationKey::Confirm,
        TranslationKey::Open,
        TranslationKey::CreateAndOpen,
        TranslationKey::DeleteAnyway,
        TranslationKey::Remove,
        TranslationKey::Branch,
        TranslationKey::Checkout,
        TranslationKey::Creating,
        TranslationKey::DeleteWorktreeCheckoutQ,
        TranslationKey::RemovesCheckoutFolder,
        TranslationKey::BranchNotDeletedWorkspaceWillClose,
        TranslationKey::DirtyWillBeDeleted,
        TranslationKey::Removing,
        TranslationKey::NoMatchingWorktrees,
        TranslationKey::FilterWorktrees,
        TranslationKey::Checkouts,
        TranslationKey::CloseWorkspaceQ,
        TranslationKey::CloseWorktreeGroupQ,
        TranslationKey::PaneUnitSingular,
        TranslationKey::PaneUnitPlural,
        TranslationKey::WorkspaceUnitSingular,
        TranslationKey::WorkspaceUnitPlural,
        TranslationKey::CmRename,
        TranslationKey::CmClose,
        TranslationKey::CmCloseGroup,
        TranslationKey::CmNewWorktree,
        TranslationKey::CmOpenWorktree,
        TranslationKey::CmDeleteWorktree,
        TranslationKey::CmCollapse,
        TranslationKey::CmExpand,
        TranslationKey::CmNewTab,
        TranslationKey::CmRenamePane,
        TranslationKey::CmClearPaneName,
        TranslationKey::CmSwapWithFocusedPane,
        TranslationKey::CmSplitRight,
        TranslationKey::CmSplitDown,
        TranslationKey::CmZoom,
        TranslationKey::CmClosePane,
        TranslationKey::MobileSwitch,
        TranslationKey::NoWorkspace,
        TranslationKey::Filtered,
        TranslationKey::Agents,
        TranslationKey::NoMatchingAgents,
        TranslationKey::Spaces,
        TranslationKey::NewWorkspaceMobile,
        TranslationKey::Tabs,
        TranslationKey::NewTabMobile,
        TranslationKey::TabPrefix,
        TranslationKey::Menu,
        TranslationKey::NoAgents,
        TranslationKey::AllIdle,
        TranslationKey::BlockedLabel,
        TranslationKey::DoneLabel,
        TranslationKey::WorkingLabel,
        TranslationKey::IdleLabel,
        TranslationKey::WaitingAgent,
        TranslationKey::DoneAgent,
        TranslationKey::SidebarNew,
        TranslationKey::SortGrouped,
        TranslationKey::SortPriority,
        TranslationKey::UnknownLabel,
        TranslationKey::CopiedToClipboard,
        TranslationKey::SoundAlerts,
        TranslationKey::SoundAlertsDesc,
        TranslationKey::NotificationPopups,
        TranslationKey::NotificationPopupsDesc,
        TranslationKey::ToastInsideHerdr,
        TranslationKey::ToastViaTerminal,
        TranslationKey::ToastViaSystem,
        TranslationKey::ToggleOn,
        TranslationKey::ToggleOff,
        TranslationKey::AgentBorderLabels,
        TranslationKey::AgentBorderLabelsDesc,
        TranslationKey::AgentIntegrations,
        TranslationKey::AgentIntegrationsDesc,
        TranslationKey::NoIntegrationTargets,
        TranslationKey::IntegrationsHintInstall,
        TranslationKey::IntegrationsAllInstalled,
        TranslationKey::IntegrationsNoneFound,
        TranslationKey::Install,
        TranslationKey::Apply,
        TranslationKey::SectionHint,
        TranslationKey::SectionTheme,
        TranslationKey::SectionSound,
        TranslationKey::SectionToast,
        TranslationKey::SectionPaneLabels,
        TranslationKey::SectionIntegrations,
        TranslationKey::IntegrationInstalled,
        TranslationKey::IntegrationUpdateAvailable,
        TranslationKey::IntegrationAvailable,
        TranslationKey::IntegrationNotFound,
        TranslationKey::IntegrationsAllCurrent,
    ]
}

#[test]
fn every_key_has_both_translations() {
    for key in all_keys() {
        assert!(
            !translate(Language::En, key).is_empty(),
            "missing English text: {key:?}"
        );
        assert!(
            !translate(Language::ZhCn, key).is_empty(),
            "missing Chinese text: {key:?}"
        );
    }
}

#[test]
fn spot_check_translations_exact_values() {
    let cases: [(TranslationKey, &str, &str); 16] = [
        (TranslationKey::Settings, "settings", "设置"),
        (TranslationKey::Detach, "detach", "分离"),
        (TranslationKey::Cancel, "cancel", "取消"),
        (TranslationKey::Close, "close", "关闭"),
        (TranslationKey::ModePrefix, "PREFIX", "前缀"),
        (TranslationKey::ModeCopy, "COPY", "复制"),
        (TranslationKey::CreateAndOpen, "create and open", "创建并打开"),
        (TranslationKey::DeleteAnyway, "delete anyway", "仍然删除"),
        (TranslationKey::CmRename, "Rename", "重命名"),
        (TranslationKey::CmClosePane, "Close pane", "关闭窗格"),
        (
            TranslationKey::CmSwapWithFocusedPane,
            "Swap with focused pane",
            "与聚焦窗格交换",
        ),
        (TranslationKey::CloseWorkspaceQ, "Close workspace?", "关闭工作区？"),
        (TranslationKey::PaneUnitSingular, "pane", "个窗格"),
        (TranslationKey::Agents, "agents", "agent"),
        (TranslationKey::NoAgents, "no agents", "无 agent"),
        (TranslationKey::UpdateReady, "update ready", "有更新"),
    ];
    let mut checked = 0;
    for (key, en_expected, zh_expected) in cases {
        assert_eq!(
            translate(Language::En, key),
            en_expected,
            "English spot-check mismatch: {key:?}"
        );
        assert_eq!(
            translate(Language::ZhCn, key),
            zh_expected,
            "Chinese spot-check mismatch: {key:?}"
        );
        checked += 1;
    }
    assert_eq!(checked, 16, "spot-check count changed");
}

// ── further cases ──

#[test]
fn from_code_other_english_regions_and_separators() {
    assert_eq!(Language::from_code("EN_ca"), Some(Language::En));
    assert_eq!(Language::from_code("en-au@x"), Some(Language::En));
    // only the listed regions are English
    assert_eq!(Language::from_code("en-in"), None);
    assert_eq!(Language::from_code("eng"), None);
    // a bare "zh" must be followed by a separator to count as a prefix
    assert_eq!(Language::from_code("zhx"), None);
    assert_eq!(Language::from_code("zh_"), Some(Language::ZhCn));
    // the modifier is cut before anything else
    assert_eq!(Language::from_code("@en"), None);
}

#[test]
fn locale_reading_cases() {
    assert_eq!(language_from_locale("zh_CN.UTF-8"), Language::ZhCn);
    assert_eq!(language_from_locale("ZH"), Language::ZhCn);
    assert_eq!(language_from_locale("zh"), Language::ZhCn);
    assert_eq!(language_from_locale("c"), Language::En);
    assert_eq!(language_from_locale("posix.UTF-8"), Language::En);
    assert_eq!(language_from_locale("  zh_CN  "), Language::ZhCn);
    assert_eq!(language_from_locale(".UTF-8"), Language::En);
    assert_eq!(language_from_locale("fr_FR.UTF-8"), Language::En);
    assert_eq!(language_from_locale("en_GB@euro"), Language::En);
    assert_eq!(language_from_locale("zh-Hant-TW"), Language::ZhCn);
    // every main part that starts with "zh" is Chinese
    assert_eq!(language_from_locale("zhx_CN"), Language::ZhCn);
    assert_eq!(language_from_locale("ZHO.UTF-8"), Language::ZhCn);
    assert_eq!(language_from_locale("z"), Language::En);
    // a Unicode space is white space too
    assert_eq!(language_from_locale("\u{3000}zh_TW"), Language::ZhCn);
}

#[test]
fn locale_suffix_never_matters() {
    for (primary, suffix) in [("zh_CN", ".UTF-8"), ("en_US", "@latin"), ("C", ".UTF-8")] {
        let full = format!("{primary}{suffix}");
        assert_eq!(language_from_locale(&full), language_from_locale(primary));
    }
}

#[test]
fn detect_blank_lc_all_and_lang_give_english() {
    assert_eq!(detect(Some(" \t"), Some("\n")), Language::En);
    assert_eq!(detect(Some("fr_FR"), Some("zh_CN")), Language::En);
    assert_eq!(detect(Some("zhx_CN"), None), Language::ZhCn);
}

#[test]
fn language_is_resolved_once() {
    let mut cache = None;
    assert_eq!(
        current_language(&mut cache, None, Some("zh_CN.UTF-8")),
        Language::ZhCn
    );
    assert_eq!(cache, Some(Language::ZhCn));
    // later variables are ignored once a language is cached
    assert_eq!(
        current_language(&mut cache, Some("en_US"), Some("en_US")),
        Language::ZhCn
    );
    assert_eq!(
        tr(&mut cache, Some("en_US"), None, TranslationKey::Settings),
        "设置"
    );
}

#[test]
fn tr_and_init_resolve_the_language() {
    let mut cache = None;
    assert_eq!(tr(&mut cache, None, None, TranslationKey::Settings), "settings");
    assert_eq!(cache, Some(Language::En));

    let mut cache = None;
    init(&mut cache, Some("zh_CN.UTF-8"), None);
    assert_eq!(cache, Some(Language::ZhCn));
    assert_eq!(tr(&mut cache, None, None, TranslationKey::Close), "关闭");
}

#[test]
fn translations_have_exact_long_texts() {
    assert_eq!(
        translate(Language::En, TranslationKey::PressSlashToFilter),
        "press / to filter by command or shortcut"
    );
    assert_eq!(
        translate(Language::ZhCn, TranslationKey::IntegrationsNoneFound),
        "PATH 中未找到受支持的 agent CLI"
    );
    assert_eq!(translate(Language::En, TranslationKey::Creating), "creating…");
}
