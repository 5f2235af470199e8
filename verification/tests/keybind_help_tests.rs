use herdr::i18n::Language;
use herdr::keybind_help::{
    display_width_u16, entry_matches, filter_keybind_help_groups, help_entry, help_lines,
    indexed_label, indexed_range_prefix, join_with, keybind_help_groups, keybind_help_lines,
    keybind_label, overlay_chrome, overlay_fits, help_scroll_metrics, ChromeStyle,
    CustomCommandLabel, HelpGroup, HelpStyle, KeybindLabels, NavigateLabels,
};

fn groups() -> Vec<HelpGroup> {
    vec![
        (
            "workspaces / tabs",
            vec![
                help_entry("w", "workspace navigation"),
                help_entry("c", "new tab"),
            ],
        ),
        (
            "panes",
            vec![
                help_entry("v", "split vertical"),
                help_entry("x", "close pane"),
            ],
        ),
    ]
}

#[test]
fn keybind_help_filter_matches_labels_case_insensitively() {
    let filtered = filter_keybind_help_groups(groups(), "WoRk");

    assert_eq!(filtered.len(), 1);
    assert_eq!(filtered[0].0, "workspaces / tabs");
    assert_eq!(filtered[0].1.len(), 1);
    assert_eq!(filtered[0].1[0].1, "workspace navigation");
}

#[test]
fn keybind_help_filter_matches_shortcuts_without_matching_group_headings() {
    let filtered = filter_keybind_help_groups(groups(), "x");

    assert_eq!(filtered.len(), 1);
    assert_eq!(filtered[0].0, "panes");
    assert_eq!(filtered[0].1.len(), 1);
    assert_eq!(filtered[0].1[0].1, "close pane");

    assert!(filter_keybind_help_groups(groups(), "panes").is_empty());
}

#[test]
fn empty_query_keeps_every_group() {
    let filtered = filter_keybind_help_groups(groups(), "");
    assert_eq!(filtered, groups());
}

#[test]
fn filter_lowercases_non_ascii_text() {
    let gs: Vec<HelpGroup> = vec![("g", vec![help_entry("É", "café")])];
    assert_eq!(filter_keybind_help_groups(gs, "CAFÉ").len(), 1);
    let gs: Vec<HelpGroup> = vec![("g", vec![help_entry("k", "关闭窗格")])];
    assert_eq!(filter_keybind_help_groups(gs, "窗格")[0].1.len(), 1);
}

#[test]
fn entry_matching_looks_at_key_and_label() {
    assert!(entry_matches("ctrl+w", "close", "w"));
    assert!(entry_matches("a", "close pane", "pane"));
    assert!(!entry_matches("a", "b", "c"));
    assert!(entry_matches("a", "b", ""));
}

#[test]
fn keybind_label_falls_back_to_unset() {
    assert_eq!(keybind_label(&Some("ctrl+b".to_string()), Language::En), "ctrl+b");
    assert_eq!(keybind_label(&None, Language::En), "unset");
    assert_eq!(keybind_label(&None, Language::ZhCn), "未设置");
}

fn run(prefix: &str) -> Vec<String> {
    (1..=9).map(|i| format!("{prefix}{i}")).collect()
}

#[test]
fn indexed_runs_are_abbreviated() {
    let labels = run("alt+");
    assert_eq!(indexed_range_prefix(&labels, 0), Some("alt+".to_string()));
    assert_eq!(indexed_label(&labels, Language::En), "alt+1..9");

    let mut mixed = vec!["f1".to_string()];
    mixed.extend(run("ctrl+"));
    mixed.push("x".to_string());
    assert_eq!(indexed_range_prefix(&mixed, 0), None);
    assert_eq!(indexed_range_prefix(&mixed, 1), Some("ctrl+".to_string()));
    assert_eq!(indexed_label(&mixed, Language::En), "f1 / ctrl+1..9 / x");

    let short = run("g")[..8].to_vec();
    assert_eq!(indexed_label(&short, Language::En), "g1 / g2 / g3 / g4 / g5 / g6 / g7 / g8");

    let mut broken = run("p");
    broken[4] = "q5".to_string();
    assert_eq!(indexed_range_prefix(&broken, 0), None);

    assert_eq!(indexed_label(&Vec::new(), Language::ZhCn), "未设置");
}

#[test]
fn joining_puts_the_separator_between_parts() {
    let parts = vec!["a".to_string(), "b".to_string(), "c".to_string()];
    assert_eq!(join_with(&parts, " / "), "a / b / c");
    assert_eq!(join_with(&Vec::new(), " / "), "");
}

fn labels(custom: Vec<CustomCommandLabel>) -> KeybindLabels {
    let some = |s: &str| Some(s.to_string());
    KeybindLabels {
        help: some("?"),
        settings: some(","),
        detach: some("d"),
        reload_config: None,
        open_notification_target: some("o"),
        navigate: NavigateLabels {
            workspace_up: some("k"),
            workspace_down: some("j"),
            pane_left: some("h"),
            pane_down: some("j"),
            pane_up: some("k"),
            pane_right: None,
        },
        workspace_picker: some("w"),
        goto: some("g"),
        new_workspace: some("n"),
        new_worktree: some("t"),
        open_worktree: some("T"),
        remove_worktree: None,
        rename_workspace: some("r"),
        close_workspace: some("X"),
        previous_workspace: some("["),
        next_workspace: some("]"),
        switch_workspace: run("alt+"),
        previous_agent: some("{"),
        next_agent: some("}"),
        focus_agent: Vec::new(),
        new_tab: some("c"),
        rename_tab: some("R"),
        previous_tab: some("p"),
        next_tab: some("N"),
        switch_tab: vec!["1".to_string(), "2".to_string()],
        close_tab: some("&"),
        split_vertical: some("v"),
        split_horizontal: some("s"),
        close_pane: some("x"),
        rename_pane: some("e"),
        edit_scrollback: some("E"),
        copy_mode: some("["),
        zoom: some("z"),
        resize_mode: some("r"),
        toggle_sidebar: some("b"),
        focus_pane_left: some("h"),
        focus_pane_down: some("j"),
        focus_pane_up: some("k"),
        focus_pane_right: some("l"),
        cycle_pane_next: some("o"),
        cycle_pane_previous: some("O"),
        last_pane: some(";"),
        custom_commands: custom,
    }
}

#[test]
fn help_groups_follow_the_fixed_layout() {
    let groups = keybind_help_groups("ctrl+b", &labels(Vec::new()), Language::En);
    let headings: Vec<&str> = groups.iter().map(|g| g.0).collect();
    assert_eq!(headings, vec!["global", "navigation", "workspaces / tabs", "panes"]);
    assert_eq!(groups[0].1[0], ("ctrl+b".to_string(), "prefix mode".to_string()));
    assert_eq!(groups[0].1[4], ("unset".to_string(), "reload config".to_string()));
    assert_eq!(groups[1].1[1].0, "k / j");
    assert_eq!(groups[1].1[2].0, "h / j / k / unset / left / right");
    assert_eq!(groups[2].1[10], ("alt+1..9".to_string(), "switch workspace 1-9".to_string()));
    assert_eq!(groups[2].1[13], ("unset".to_string(), "focus agent 1-9".to_string()));
    assert_eq!(groups[2].1[18].0, "1 / 2");
    assert_eq!(groups[0].1.len(), 6);
    assert_eq!(groups[1].1.len(), 6);
    assert_eq!(groups[2].1.len(), 20);
    assert_eq!(groups[3].1.len(), 16);
}

#[test]
fn custom_commands_get_their_own_group() {
    let custom = vec![
        CustomCommandLabel { label: "F5".to_string(), description: Some("build".to_string()) },
        CustomCommandLabel { label: "F6".to_string(), description: None },
    ];
    let groups = keybind_help_groups("ctrl+b", &labels(custom), Language::ZhCn);
    assert_eq!(groups.len(), 5);
    assert_eq!(groups[4].0, "自定义");
    assert_eq!(groups[4].1[0], ("F5".to_string(), "build".to_string()));
    assert_eq!(groups[4].1[1], ("F6".to_string(), "自定义命令".to_string()));
    assert_eq!(groups[0].0, "全局");
}

#[test]
fn display_width_counts_wide_characters() {
    assert_eq!(display_width_u16("abc"), 3);
    assert_eq!(display_width_u16("窗格"), 4);
    assert_eq!(display_width_u16(""), 0);
}

#[test]
fn help_lines_pad_shortcuts_to_one_column() {
    let gs: Vec<HelpGroup> = vec![(
        "panes",
        vec![help_entry("ab", "split"), help_entry("abcd", "close")],
    )];
    let lines = help_lines(&gs, Language::En);
    assert_eq!(lines.len(), 4);
    assert_eq!(lines[0].width, 6);
    assert_eq!(lines[0].spans, vec![(" panes".to_string(), HelpStyle::Heading)]);
    assert_eq!(
        lines[1].spans,
        vec![(" ab   ".to_string(), HelpStyle::Key), ("split".to_string(), HelpStyle::Label)]
    );
    assert_eq!(lines[1].width, 11);
    assert_eq!(lines[2].spans[0].0, " abcd ");
    assert_eq!(lines[3].width, 0);
    assert!(lines[3].spans.is_empty());
}

#[test]
fn help_lines_without_groups_say_nothing_matches() {
    let lines = help_lines(&Vec::new(), Language::En);
    assert_eq!(lines.len(), 1);
    assert_eq!(lines[0].width, 21);
    assert_eq!(
        lines[0].spans,
        vec![
            (" ".to_string(), HelpStyle::Muted),
            ("no matching keybinds".to_string(), HelpStyle::Muted)
        ]
    );
}

#[test]
fn help_lines_follow_the_query() {
    let lines = keybind_help_lines("ctrl+b", &labels(Vec::new()), "DETACH", Language::En);
    assert_eq!(lines.len(), 3);
    assert_eq!(lines[0].spans[0].0, " global");
    assert_eq!(lines[1].spans[1].0, "detach");
    assert_eq!(lines[1].spans[0].0, " d ");
}

#[test]
fn query_case_never_matters() {
    let lower = filter_keybind_help_groups(groups(), "close");
    assert_eq!(filter_keybind_help_groups(groups(), "CLOSE"), lower);
    assert_eq!(filter_keybind_help_groups(groups(), "ClOsE"), lower);
}

#[test]
fn longer_queries_narrow_the_list() {
    let once = filter_keybind_help_groups(groups(), "pane");
    let twice = filter_keybind_help_groups(filter_keybind_help_groups(groups(), "pa"), "pane");
    assert_eq!(twice, once);
    let again = filter_keybind_help_groups(once.clone(), "pane");
    assert_eq!(again, once);
}

#[test]
fn overlay_needs_room() {
    assert!(overlay_fits(20, 6));
    assert!(!overlay_fits(19, 6));
    assert!(!overlay_fits(20, 5));
}

#[test]
fn scroll_metrics_saturate_and_clamp() {
    assert_eq!(help_scroll_metrics(10, 3, 0), (7, 10, 1));
    assert_eq!(help_scroll_metrics(2, 5, 12), (0, 2, 12));
}

#[test]
fn overlay_text_follows_search_focus() {
    let browsing = overlay_chrome(false, "", Language::En);
    assert_eq!(browsing.title, "keybinds");
    assert_eq!(browsing.close_label, "close");
    assert_eq!(
        browsing.search_row,
        vec![(" press / to filter by command or shortcut".to_string(), ChromeStyle::Hint)]
    );
    assert_eq!(browsing.footer[0], (" search ".to_string(), ChromeStyle::Hint));
    assert_eq!(browsing.footer[6], ("close ".to_string(), ChromeStyle::Hint));
    assert_eq!(browsing.footer.len(), 8);

    let typing = overlay_chrome(true, "pa", Language::ZhCn);
    assert_eq!(typing.close_label, "返回");
    assert_eq!(
        typing.search_row,
        vec![(" / ".to_string(), ChromeStyle::Prompt), ("pa".to_string(), ChromeStyle::Query)]
    );
    assert_eq!(typing.footer[0], (" 筛选 ".to_string(), ChromeStyle::Hint));
    assert_eq!(typing.footer[10], ("esc".to_string(), ChromeStyle::Text));
    assert_eq!(typing.footer.len(), 11);
}
