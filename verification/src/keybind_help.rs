//! Content of the keybinding help overlay: which shortcuts are listed, under
//! which headings, how indexed shortcuts are abbreviated, and how a search
//! query narrows the list.
use vstd::prelude::*;

use crate::i18n::{translate, translation, Language, TranslationKey};
use crate::text::{
    ascii_folded, chars_contain, chars_of, contains_seq, lemma_contains_transitive,
};
use vstd::string::StringExecFns;

verus! {

/// A help entry: the shortcut text and what it does.
pub type HelpEntry = (String, String);

/// A help group: its heading and its entries.
pub type HelpGroup = (&'static str, Vec<HelpEntry>);

/// The value of a help entry: shortcut text and description.
pub type EntryView = (Seq<char>, Seq<char>);

/// The value of a help group: heading and entries.
pub type GroupView = (Seq<char>, Seq<EntryView>);

/// Builds an entry from a shortcut text and a description.
pub fn help_entry(key: &str, label: &str) -> (r: HelpEntry)
    ensures
        r.deep_view() == (key@, label@),
{
    (key.to_owned(), label.to_owned())
}

/// The text shown for an action's shortcut: its label, or "unset" in `lang`
/// when no key is bound.
pub open spec fn label_text(label: Option<Seq<char>>, lang: Language) -> Seq<char> {
    match label {
        Some(l) => l,
        None => translation(lang, TranslationKey::Unset)@,
    }
}

/// The shortcut text of an action (`label` is `None` when nothing is bound).
pub fn keybind_label(label: &Option<String>, lang: Language) -> (r: String)
    ensures
        r@ == label_text(label.deep_view(), lang),
{
    match label {
        Some(l) => l.clone(),
        None => translate(lang, TranslationKey::Unset).to_owned(),
    }
}

/// The digit that ends the `i`-th label of an indexed run (`1` for the first).
pub open spec fn run_digit(i: int) -> char {
    (('1' as int) + i) as char
}

/// When `labels` begins with nine labels `p1`, `p2`, …, `p9` sharing a prefix
/// `p`, that prefix; otherwise `None`.
pub open spec fn range_prefix(labels: Seq<Seq<char>>) -> Option<Seq<char>> {
    if labels.len() >= 9 && labels[0].len() >= 1 && labels[0].last() == '1' && (forall|i: int|
        0 <= i < 9 ==> #[trigger] labels[i] == labels[0].drop_last().push(run_digit(i))) {
        Some(labels[0].drop_last())
    } else {
        None
    }
}

/// The pieces an indexed shortcut list is shown as: each run of nine labels
/// `p1`..`p9` becomes `p1..9`, every other label stands for itself.
pub open spec fn indexed_parts(labels: Seq<Seq<char>>) -> Seq<Seq<char>>
    decreases labels.len(),
{
    if labels.len() == 0 {
        Seq::empty()
    } else if range_prefix(labels) is Some {
        seq![range_prefix(labels)->0 + "1..9"@] + indexed_parts(labels.skip(9))
    } else {
        seq![labels[0]] + indexed_parts(labels.drop_first())
    }
}

/// `parts` joined with `sep` between neighbours.
pub open spec fn joined(parts: Seq<Seq<char>>, sep: Seq<char>) -> Seq<char>
    decreases parts.len(),
{
    if parts.len() == 0 {
        Seq::empty()
    } else if parts.len() == 1 {
        parts[0]
    } else {
        joined(parts.drop_last(), sep) + sep + parts.last()
    }
}

/// The text shown for an indexed shortcut list: "unset" when empty, otherwise
/// its pieces joined with ` / `.
pub open spec fn indexed_text(labels: Seq<Seq<char>>, lang: Language) -> Seq<char> {
    if labels.len() == 0 {
        translation(lang, TranslationKey::Unset)@
    } else {
        joined(indexed_parts(labels), " / "@)
    }
}

/// Nine labels `p1`..`p9` are shown as the single piece `p1..9`.
pub proof fn lemma_full_run_is_abbreviated(p: Seq<char>, lang: Language)
    ensures
        indexed_text(Seq::new(9, |i: int| p.push(run_digit(i))), lang) == p + "1..9"@,
{
    let labels = Seq::new(9, |i: int| p.push(run_digit(i)));
    assert(labels[0] == p.push('1'));
    assert(labels[0].drop_last() =~= p);
    assert forall|i: int| 0 <= i < 9 implies #[trigger] labels[i] == labels[0].drop_last().push(
        run_digit(i),
    ) by {
        assert(labels[i] == p.push(run_digit(i)));
    }
    assert(labels[0].last() == '1');
    assert(range_prefix(labels) == Some(p));
    assert(labels.skip(9) =~= Seq::<Seq<char>>::empty());
    assert(indexed_parts(labels.skip(9)) =~= Seq::<Seq<char>>::empty());
    assert(indexed_parts(labels) =~= seq![p + "1..9"@]);
    assert(joined(indexed_parts(labels), " / "@) == p + "1..9"@);
}

/// The nine labels `p1`, `p2`, …, `p9`.
pub open spec fn run_of(p: Seq<char>) -> Seq<Seq<char>> {
    Seq::new(9, |i: int| p.push((('1' as int) + i) as char))
}

proof fn lemma_joined_front(x: Seq<char>, parts: Seq<Seq<char>>, sep: Seq<char>)
    requires
        parts.len() > 0,
    ensures
        joined(seq![x] + parts, sep) == x + sep + joined(parts, sep),
    decreases parts.len(),
{
    let all = seq![x] + parts;
    assert(all.drop_last() =~= seq![x] + parts.drop_last());
    assert(all.last() == parts.last());
    assert(all.len() >= 2);
    assert(joined(all, sep) == joined(all.drop_last(), sep) + sep + all.last());
    if parts.len() == 1 {
        assert(seq![x] + parts.drop_last() =~= seq![x]);
        assert(joined(seq![x], sep) == x);
        assert(joined(parts, sep) == parts[0]);
        assert(parts.last() == parts[0]);
        assert(joined(all, sep) =~= x + sep + joined(parts, sep));
    } else {
        lemma_joined_front(x, parts.drop_last(), sep);
        assert(joined(parts, sep) == joined(parts.drop_last(), sep) + sep + parts.last());
        assert(joined(all, sep) =~= x + sep + joined(parts, sep));
    }
}

proof fn lemma_indexed_parts_nonempty(labels: Seq<Seq<char>>)
    requires
        labels.len() > 0,
    ensures
        indexed_parts(labels).len() > 0,
{
}

/// An indexed shortcut list with nothing bound reads "unset".
pub proof fn lemma_indexed_empty(lang: Language)
    ensures
        indexed_text(Seq::empty(), lang) == translation(lang, TranslationKey::Unset)@,
{
}

/// A run `p1`..`p9` at the front is shown as `p1..9`, and the rest of the
/// list is shown after it as it would be on its own (runs in it abbreviated
/// too), separated by ` / `.
pub proof fn lemma_indexed_run_first(p: Seq<char>, rest: Seq<Seq<char>>, lang: Language)
    ensures
        indexed_text(run_of(p) + rest, lang) == if rest.len() == 0 {
            p + "1..9"@
        } else {
            p + "1..9"@ + " / "@ + indexed_text(rest, lang)
        },
{
    let labels = run_of(p) + rest;
    assert(labels[0] == p.push('1'));
    assert(labels[0].drop_last() =~= p);
    assert forall|i: int| 0 <= i < 9 implies #[trigger] labels[i] == labels[0].drop_last().push(
        run_digit(i),
    ) by {
        assert(labels[i] == run_of(p)[i]);
    }
    assert(range_prefix(labels) == Some(p));
    assert(labels.skip(9) =~= rest);
    let x = p + "1..9"@;
    assert(indexed_parts(labels) == seq![x] + indexed_parts(rest));
    if rest.len() == 0 {
        assert(indexed_parts(rest) =~= Seq::<Seq<char>>::empty());
        assert(seq![x] + indexed_parts(rest) =~= seq![x]);
    } else {
        lemma_indexed_parts_nonempty(rest);
        lemma_joined_front(x, indexed_parts(rest), " / "@);
    }
}

/// A label that does not end in `1` can not open a run: it is shown as it
/// is, followed by the rest of the list as that would be shown on its own.
pub proof fn lemma_indexed_plain_first(l: Seq<char>, rest: Seq<Seq<char>>, lang: Language)
    requires
        l.len() == 0 || l.last() != '1',
    ensures
        indexed_text(seq![l] + rest, lang) == if rest.len() == 0 {
            l
        } else {
            l + " / "@ + indexed_text(rest, lang)
        },
{
    let labels = seq![l] + rest;
    assert(labels[0] == l);
    assert(range_prefix(labels) is None);
    assert(labels.drop_first() =~= rest);
    assert(indexed_parts(labels) == seq![l] + indexed_parts(rest));
    if rest.len() == 0 {
        assert(indexed_parts(rest) =~= Seq::<Seq<char>>::empty());
        assert(seq![l] + indexed_parts(rest) =~= seq![l]);
    } else {
        lemma_indexed_parts_nonempty(rest);
        lemma_joined_front(l, indexed_parts(rest), " / "@);
    }
}

/// The run prefix of `labels` from `start` on, if nine labels `p1`..`p9` begin there.
#[verifier::loop_isolation(false)]
pub fn indexed_range_prefix(labels: &Vec<String>, start: usize) -> (r: Option<String>)
    requires
        start <= labels@.len(),
    ensures
        r.deep_view() == range_prefix(labels.deep_view().skip(start as int)),
{
    let ghost ls = labels.deep_view().skip(start as int);
    if labels.len() - start < 9 {
        return None;
    }
    assert(ls[0] == labels@[start as int]@);
    let first = chars_of(labels[start].as_str());
    if first.len() == 0 || first[first.len() - 1] != '1' {
        return None;
    }
    let n = labels.len();
    let flen = first.len();
    let plen = flen - 1;
    let ghost p = first@.drop_last();
    let mut off: usize = 0;
    while off < 9
        invariant
            start + 9 <= n,
            ls == labels.deep_view().skip(start as int),
            first@ == ls[0],
            plen + 1 == flen,
            p == first@.drop_last(),
            off <= 9,
            forall|i: int| 0 <= i < off ==> #[trigger] ls[i] == p.push(run_digit(i)),
        decreases 9 - off,
    {
        assert(ls[off as int] == labels@[start + off]@);
        let c = chars_of(labels[start + off].as_str());
        assert(c@ == ls[off as int]);
        let digit = ((49u8 + off as u8) as char);
        assert(digit == run_digit(off as int));
        if c.len() != plen + 1 || c[plen] != digit {
            assert(ls[off as int] != p.push(run_digit(off as int))) by {
                if ls[off as int] == p.push(run_digit(off as int)) {
                    assert(c@[plen as int] == p.push(run_digit(off as int))[plen as int]);
                }
            }
            return None;
        }
        let mut k: usize = 0;
        while k < plen
            invariant
                k <= plen,
                plen + 1 == flen,
                plen + 1 == c@.len(),
                forall|m: int| 0 <= m < k ==> c@[m] == first@[m],
            decreases plen - k,
        {
            if c[k] != first[k] {
                assert(ls[off as int] != p.push(run_digit(off as int))) by {
                    if ls[off as int] == p.push(run_digit(off as int)) {
                        assert(c@[k as int] == p[k as int]);
                    }
                }
                return None;
            }
            k = k + 1;
        }
        assert(c@ =~= p.push(run_digit(off as int)));
        off = off + 1;
    }
    let prefix = labels[start].as_str().substring_char(0, plen).to_owned();
    assert(prefix@ =~= p);
    Some(prefix)
}

/// `parts` joined with `sep` between neighbours.
pub fn join_with(parts: &Vec<String>, sep: &str) -> (r: String)
    ensures
        r@ == joined(parts.deep_view(), sep@),
{
    let mut r = String::new();
    let ghost ps = parts.deep_view();
    let mut i: usize = 0;
    while i < parts.len()
        invariant
            i <= parts@.len(),
            ps == parts.deep_view(),
            r@ == joined(ps.take(i as int), sep@),
        decreases parts.len() - i,
    {
        assert(ps[i as int] == parts@[i as int]@);
        if i == 0 {
            r.append(parts[i].as_str());
            assert(ps.take(1).len() == 1);
            assert(r@ =~= joined(ps.take(1), sep@));
        } else {
            r.append(sep);
            r.append(parts[i].as_str());
            assert(ps.take(i + 1).drop_last() =~= ps.take(i as int));
            assert(r@ =~= joined(ps.take(i + 1), sep@));
        }
        i = i + 1;
    }
    assert(ps.take(i as int) =~= ps);
    r
}

/// The text shown for an indexed shortcut list such as "switch workspace 1-9".
pub fn indexed_label(labels: &Vec<String>, lang: Language) -> (r: String)
    ensures
        r@ == indexed_text(labels.deep_view(), lang),
{
    if labels.len() == 0 {
        return translate(lang, TranslationKey::Unset).to_owned();
    }
    let ghost all = labels.deep_view();
    let mut parts: Vec<String> = Vec::new();
    let mut index: usize = 0;
    assert(all.skip(0) =~= all);
    assert(parts.deep_view() + indexed_parts(all) =~= indexed_parts(all));
    while index < labels.len()
        invariant
            index <= labels@.len(),
            all == labels.deep_view(),
            indexed_parts(all) == parts.deep_view() + indexed_parts(all.skip(index as int)),
        decreases labels.len() - index,
    {
        let ghost rest = all.skip(index as int);
        let ghost old_parts = parts.deep_view();
        match indexed_range_prefix(labels, index) {
            Some(prefix) => {
                assert(range_prefix(rest) is Some);
                let part = prefix.concat("1..9");
                parts.push(part);
                assert(rest.skip(9) =~= all.skip(index + 9));
                assert(parts.deep_view() =~= old_parts + seq![range_prefix(rest)->0 + "1..9"@]);
                assert(indexed_parts(all) =~= parts.deep_view() + indexed_parts(all.skip(index + 9)));
                index = index + 9;
            },
            None => {
                assert(rest[0] == labels@[index as int]@);
                parts.push(labels[index].clone());
                assert(rest.drop_first() =~= all.skip(index + 1));
                assert(parts.deep_view() =~= old_parts + seq![rest[0]]);
                assert(indexed_parts(all) =~= parts.deep_view() + indexed_parts(all.skip(index + 1)));
                index = index + 1;
            },
        }
    }
    assert(all.skip(index as int) =~= Seq::<Seq<char>>::empty());
    assert(parts.deep_view() =~= indexed_parts(all));
    join_with(&parts, " / ")
}

/// The shortcut labels of the navigation-mode actions (`None`: nothing bound).
pub struct NavigateLabels {
    pub workspace_up: Option<String>,
    pub workspace_down: Option<String>,
    pub pane_left: Option<String>,
    pub pane_down: Option<String>,
    pub pane_up: Option<String>,
    pub pane_right: Option<String>,
}

/// A user-defined command: its shortcut label and optional description.
pub struct CustomCommandLabel {
    pub label: String,
    pub description: Option<String>,
}

/// The shortcut labels the help overlay lists, one per action (`None`:
/// nothing bound); indexed actions hold the labels of their bindings in order.
pub struct KeybindLabels {
    pub help: Option<String>,
    pub settings: Option<String>,
    pub detach: Option<String>,
    pub reload_config: Option<String>,
    pub open_notification_target: Option<String>,
    pub navigate: NavigateLabels,
    pub workspace_picker: Option<String>,
    pub goto: Option<String>,
    pub new_workspace: Option<String>,
    pub new_worktree: Option<String>,
    pub open_worktree: Option<String>,
    pub remove_worktree: Option<String>,
    pub rename_workspace: Option<String>,
    pub close_workspace: Option<String>,
    pub previous_workspace: Option<String>,
    pub next_workspace: Option<String>,
    pub switch_workspace: Vec<String>,
    pub previous_agent: Option<String>,
    pub next_agent: Option<String>,
    pub focus_agent: Vec<String>,
    pub new_tab: Option<String>,
    pub rename_tab: Option<String>,
    pub previous_tab: Option<String>,
    pub next_tab: Option<String>,
    pub switch_tab: Vec<String>,
    pub close_tab: Option<String>,
    pub split_vertical: Option<String>,
    pub split_horizontal: Option<String>,
    pub close_pane: Option<String>,
    pub rename_pane: Option<String>,
    pub edit_scrollback: Option<String>,
    pub copy_mode: Option<String>,
    pub zoom: Option<String>,
    pub resize_mode: Option<String>,
    pub toggle_sidebar: Option<String>,
    pub focus_pane_left: Option<String>,
    pub focus_pane_down: Option<String>,
    pub focus_pane_up: Option<String>,
    pub focus_pane_right: Option<String>,
    pub cycle_pane_next: Option<String>,
    pub cycle_pane_previous: Option<String>,
    pub last_pane: Option<String>,
    pub custom_commands: Vec<CustomCommandLabel>,
}

/// The shortcut text of an action's label.
pub open spec fn key_text(label: Option<String>, lang: Language) -> Seq<char> {
    label_text(label.deep_view(), lang)
}

/// An entry with shortcut text `key` and the text of `what` in `lang`.
pub open spec fn entry_of(key: Seq<char>, what: TranslationKey, lang: Language) -> EntryView {
    (key, translation(lang, what)@)
}

/// The "global" group: the prefix key, then help, settings, detach, reload
/// config and open notification target.
pub open spec fn global_entries(prefix: Seq<char>, kb: KeybindLabels, lang: Language) -> Seq<EntryView> {
    seq![
        entry_of(prefix, TranslationKey::PrefixMode, lang),
        entry_of(key_text(kb.help, lang), TranslationKey::KeybindsLabel, lang),
        entry_of(key_text(kb.settings, lang), TranslationKey::Settings, lang),
        entry_of(key_text(kb.detach, lang), TranslationKey::Detach, lang),
        entry_of(key_text(kb.reload_config, lang), TranslationKey::ReloadConfig, lang),
        entry_of(key_text(kb.open_notification_target, lang), TranslationKey::OpenNotificationTarget, lang),
    ]
}

/// The "navigation" group of navigation mode.
pub open spec fn navigation_entries(kb: KeybindLabels, lang: Language) -> Seq<EntryView> {
    let nav = kb.navigate;
    seq![
        entry_of("esc"@, TranslationKey::Back, lang),
        entry_of(
            key_text(nav.workspace_up, lang) + " / "@ + key_text(nav.workspace_down, lang),
            TranslationKey::WorkspaceList,
            lang,
        ),
        entry_of(
            key_text(nav.pane_left, lang) + " / "@ + key_text(nav.pane_down, lang) + " / "@
                + key_text(nav.pane_up, lang) + " / "@ + key_text(nav.pane_right, lang)
                + " / left / right"@,
            TranslationKey::MoveFocus,
            lang,
        ),
        entry_of("tab / shift+tab"@, TranslationKey::CyclePane, lang),
        entry_of("enter"@, TranslationKey::OpenWorkspace, lang),
        entry_of("1..9"@, TranslationKey::SwitchWorkspace, lang),
    ]
}

/// The "workspaces / tabs" group.
pub open spec fn workspace_tab_entries(kb: KeybindLabels, lang: Language) -> Seq<EntryView> {
    seq![
        entry_of(key_text(kb.workspace_picker, lang), TranslationKey::WorkspaceNavigation, lang),
        entry_of(key_text(kb.goto, lang), TranslationKey::SessionNavigator, lang),
        entry_of(key_text(kb.new_workspace, lang), TranslationKey::NewWorkspace, lang),
        entry_of(key_text(kb.new_worktree, lang), TranslationKey::NewWorktree, lang),
        entry_of(key_text(kb.open_worktree, lang), TranslationKey::OpenWorktree, lang),
        entry_of(key_text(kb.remove_worktree, lang), TranslationKey::DeleteWorktreeCheckout, lang),
        entry_of(key_text(kb.rename_workspace, lang), TranslationKey::RenameWorkspace, lang),
        entry_of(key_text(kb.close_workspace, lang), TranslationKey::CloseWorkspace, lang),
        entry_of(key_text(kb.previous_workspace, lang), TranslationKey::PreviousWorkspace, lang),
        entry_of(key_text(kb.next_workspace, lang), TranslationKey::NextWorkspace, lang),
        entry_of(indexed_text(kb.switch_workspace.deep_view(), lang), TranslationKey::SwitchWorkspace19, lang),
        entry_of(key_text(kb.previous_agent, lang), TranslationKey::PreviousAgent, lang),
        entry_of(key_text(kb.next_agent, lang), TranslationKey::NextAgent, lang),
        entry_of(indexed_text(kb.focus_agent.deep_view(), lang), TranslationKey::FocusAgent19, lang),
        entry_of(key_text(kb.new_tab, lang), TranslationKey::NewTab, lang),
        entry_of(key_text(kb.rename_tab, lang), TranslationKey::RenameTab, lang),
        entry_of(key_text(kb.previous_tab, lang), TranslationKey::PreviousTab, lang),
        entry_of(key_text(kb.next_tab, lang), TranslationKey::NextTab, lang),
        entry_of(indexed_text(kb.switch_tab.deep_view(), lang), TranslationKey::SwitchTab19, lang),
        entry_of(key_text(kb.close_tab, lang), TranslationKey::CloseTab, lang),
    ]
}

/// The "panes" group.
pub open spec fn pane_entries(kb: KeybindLabels, lang: Language) -> Seq<EntryView> {
    seq![
        entry_of(key_text(kb.split_vertical, lang), TranslationKey::SplitVertical, lang),
        entry_of(key_text(kb.split_horizontal, lang), TranslationKey::SplitHorizontal, lang),
        entry_of(key_text(kb.close_pane, lang), TranslationKey::ClosePane, lang),
        entry_of(key_text(kb.rename_pane, lang), TranslationKey::RenamePane, lang),
        entry_of(key_text(kb.edit_scrollback, lang), TranslationKey::EditScrollback, lang),
        entry_of(key_text(kb.copy_mode, lang), TranslationKey::CopyMode, lang),
        entry_of(key_text(kb.zoom, lang), TranslationKey::ZoomPane, lang),
        entry_of(key_text(kb.resize_mode, lang), TranslationKey::ResizeMode, lang),
        entry_of(key_text(kb.toggle_sidebar, lang), TranslationKey::ToggleSidebar, lang),
        entry_of(key_text(kb.focus_pane_left, lang), TranslationKey::FocusPaneLeft, lang),
        entry_of(key_text(kb.focus_pane_down, lang), TranslationKey::FocusPaneDown, lang),
        entry_of(key_text(kb.focus_pane_up, lang), TranslationKey::FocusPaneUp, lang),
        entry_of(key_text(kb.focus_pane_right, lang), TranslationKey::FocusPaneRight, lang),
        entry_of(key_text(kb.cycle_pane_next, lang), TranslationKey::CyclePaneNext, lang),
        entry_of(key_text(kb.cycle_pane_previous, lang), TranslationKey::CyclePanePrevious, lang),
        entry_of(key_text(kb.last_pane, lang), TranslationKey::LastPane, lang),
    ]
}

/// The entry of a custom command: its label, described by its description or
/// else by "custom command" in `lang`.
pub open spec fn custom_entry(cmd: CustomCommandLabel, lang: Language) -> EntryView {
    (
        cmd.label@,
        match cmd.description {
            Some(d) => d@,
            None => translation(lang, TranslationKey::CustomCommand)@,
        },
    )
}

/// The "custom" group, one entry per custom command in order.
pub open spec fn custom_entries(cmds: Seq<CustomCommandLabel>, lang: Language) -> Seq<EntryView> {
    Seq::new(cmds.len(), |i: int| custom_entry(cmds[i], lang))
}

/// The groups of the help overlay, in order: global, navigation,
/// workspaces / tabs, panes, and custom when custom commands exist.
pub open spec fn help_groups(prefix: Seq<char>, kb: KeybindLabels, lang: Language) -> Seq<GroupView> {
    seq![
        (translation(lang, TranslationKey::GlobalGroup)@, global_entries(prefix, kb, lang)),
        (translation(lang, TranslationKey::NavigationGroup)@, navigation_entries(kb, lang)),
        (translation(lang, TranslationKey::WorkspacesTabsGroup)@, workspace_tab_entries(kb, lang)),
        (translation(lang, TranslationKey::PanesGroup)@, pane_entries(kb, lang)),
    ] + if kb.custom_commands@.len() > 0 {
        seq![(translation(lang, TranslationKey::CustomGroup)@, custom_entries(kb.custom_commands@, lang))]
    } else {
        Seq::empty()
    }
}

/// Every entry pairs an action's description with that same action's
/// shortcut text (its label, "unset" when nothing is bound, or the abbreviated
/// list of an indexed action), under the heading of its group; the groups have
/// exactly these entries, and custom commands, when there are any, each show
/// their own label with their own description (or "custom command").
pub proof fn lemma_help_groups_pair_actions(prefix: Seq<char>, kb: KeybindLabels, lang: Language)
    ensures
        help_groups(prefix, kb, lang).len() == if kb.custom_commands@.len() > 0 { 5int } else { 4int },
        help_groups(prefix, kb, lang)[0].0 == translation(lang, TranslationKey::GlobalGroup)@,
        help_groups(prefix, kb, lang)[1].0 == translation(lang, TranslationKey::NavigationGroup)@,
        help_groups(prefix, kb, lang)[2].0 == translation(lang, TranslationKey::WorkspacesTabsGroup)@,
        help_groups(prefix, kb, lang)[3].0 == translation(lang, TranslationKey::PanesGroup)@,
        kb.custom_commands@.len() > 0 ==> help_groups(prefix, kb, lang)[4].0 == translation(lang, TranslationKey::CustomGroup)@,
        help_groups(prefix, kb, lang)[0].1.len() == 6,
        help_groups(prefix, kb, lang)[0].1.contains((prefix, translation(lang, TranslationKey::PrefixMode)@)),
        help_groups(prefix, kb, lang)[0].1.contains((label_text(kb.help.deep_view(), lang), translation(lang, TranslationKey::KeybindsLabel)@)),
        help_groups(prefix, kb, lang)[0].1.contains((label_text(kb.settings.deep_view(), lang), translation(lang, TranslationKey::Settings)@)),
        help_groups(prefix, kb, lang)[0].1.contains((label_text(kb.detach.deep_view(), lang), translation(lang, TranslationKey::Detach)@)),
        help_groups(prefix, kb, lang)[0].1.contains((label_text(kb.reload_config.deep_view(), lang), translation(lang, TranslationKey::ReloadConfig)@)),
        help_groups(prefix, kb, lang)[0].1.contains((label_text(kb.open_notification_target.deep_view(), lang), translation(lang, TranslationKey::OpenNotificationTarget)@)),
        help_groups(prefix, kb, lang)[1].1.len() == 6,
        help_groups(prefix, kb, lang)[1].1.contains(("esc"@, translation(lang, TranslationKey::Back)@)),
        help_groups(prefix, kb, lang)[1].1.contains((label_text(kb.navigate.workspace_up.deep_view(), lang) + " / "@ + label_text(kb.navigate.workspace_down.deep_view(), lang), translation(lang, TranslationKey::WorkspaceList)@)),
        help_groups(prefix, kb, lang)[1].1.contains((label_text(kb.navigate.pane_left.deep_view(), lang) + " / "@ + label_text(kb.navigate.pane_down.deep_view(), lang) + " / "@ + label_text(kb.navigate.pane_up.deep_view(), lang) + " / "@ + label_text(kb.navigate.pane_right.deep_view(), lang) + " / left / right"@, translation(lang, TranslationKey::MoveFocus)@)),
        help_groups(prefix, kb, lang)[1].1.contains(("tab / shift+tab"@, translation(lang, TranslationKey::CyclePane)@)),
        help_groups(prefix, kb, lang)[1].1.contains(("enter"@, translation(lang, TranslationKey::OpenWorkspace)@)),
        help_groups(prefix, kb, lang)[1].1.contains(("1..9"@, translation(lang, TranslationKey::SwitchWorkspace)@)),
        help_groups(prefix, kb, lang)[2].1.len() == 20,
        help_groups(prefix, kb, lang)[2].1.contains((label_text(kb.workspace_picker.deep_view(), lang), translation(lang, TranslationKey::WorkspaceNavigation)@)),
        help_groups(prefix, kb, lang)[2].1.contains((label_text(kb.goto.deep_view(), lang), translation(lang, TranslationKey::SessionNavigator)@)),
        help_groups(prefix, kb, lang)[2].1.contains((label_text(kb.new_workspace.deep_view(), lang), translation(lang, TranslationKey::NewWorkspace)@)),
        help_groups(prefix, kb, lang)[2].1.contains((label_text(kb.new_worktree.deep_view(), lang), translation(lang, TranslationKey::NewWorktree)@)),
        help_groups(prefix, kb, lang)[2].1.contains((label_text(kb.open_worktree.deep_view(), lang), translation(lang, TranslationKey::OpenWorktree)@)),
        help_groups(prefix, kb, lang)[2].1.contains((label_text(kb.remove_worktree.deep_view(), lang), translation(lang, TranslationKey::DeleteWorktreeCheckout)@)),
        help_groups(prefix, kb, lang)[2].1.contains((label_text(kb.rename_workspace.deep_view(), lang), translation(lang, TranslationKey::RenameWorkspace)@)),
        help_groups(prefix, kb, lang)[2].1.contains((label_text(kb.close_workspace.deep_view(), lang), translation(lang, TranslationKey::CloseWorkspace)@)),
        help_groups(prefix, kb, lang)[2].1.contains((label_text(kb.previous_workspace.deep_view(), lang), translation(lang, TranslationKey::PreviousWorkspace)@)),
        help_groups(prefix, kb, lang)[2].1.contains((label_text(kb.next_workspace.deep_view(), lang), translation(lang, TranslationKey::NextWorkspace)@)),
        help_groups(prefix, kb, lang)[2].1.contains((indexed_text(kb.switch_workspace.deep_view(), lang), translation(lang, TranslationKey::SwitchWorkspace19)@)),
        help_groups(prefix, kb, lang)[2].1.contains((label_text(kb.previous_agent.deep_view(), lang), translation(lang, TranslationKey::PreviousAgent)@)),
        help_groups(prefix, kb, lang)[2].1.contains((label_text(kb.next_agent.deep_view(), lang), translation(lang, TranslationKey::NextAgent)@)),
        help_groups(prefix, kb, lang)[2].1.contains((indexed_text(kb.focus_agent.deep_view(), lang), translation(lang, TranslationKey::FocusAgent19)@)),
        help_groups(prefix, kb, lang)[2].1.contains((label_text(kb.new_tab.deep_view(), lang), translation(lang, TranslationKey::NewTab)@)),
        help_groups(prefix, kb, lang)[2].1.contains((label_text(kb.rename_tab.deep_view(), lang), translation(lang, TranslationKey::RenameTab)@)),
        help_groups(prefix, kb, lang)[2].1.contains((label_text(kb.previous_tab.deep_view(), lang), translation(lang, TranslationKey::PreviousTab)@)),
        help_groups(prefix, kb, lang)[2].1.contains((label_text(kb.next_tab.deep_view(), lang), translation(lang, TranslationKey::NextTab)@)),
        help_groups(prefix, kb, lang)[2].1.contains((indexed_text(kb.switch_tab.deep_view(), lang), translation(lang, TranslationKey::SwitchTab19)@)),
        help_groups(prefix, kb, lang)[2].1.contains((label_text(kb.close_tab.deep_view(), lang), translation(lang, TranslationKey::CloseTab)@)),
        help_groups(prefix, kb, lang)[3].1.len() == 16,
        help_groups(prefix, kb, lang)[3].1.contains((label_text(kb.split_vertical.deep_view(), lang), translation(lang, TranslationKey::SplitVertical)@)),
        help_groups(prefix, kb, lang)[3].1.contains((label_text(kb.split_horizontal.deep_view(), lang), translation(lang, TranslationKey::SplitHorizontal)@)),
        help_groups(prefix, kb, lang)[3].1.contains((label_text(kb.close_pane.deep_view(), lang), translation(lang, TranslationKey::ClosePane)@)),
        help_groups(prefix, kb, lang)[3].1.contains((label_text(kb.rename_pane.deep_view(), lang), translation(lang, TranslationKey::RenamePane)@)),
        help_groups(prefix, kb, lang)[3].1.contains((label_text(kb.edit_scrollback.deep_view(), lang), translation(lang, TranslationKey::EditScrollback)@)),
        help_groups(prefix, kb, lang)[3].1.contains((label_text(kb.copy_mode.deep_view(), lang), translation(lang, TranslationKey::CopyMode)@)),
        help_groups(prefix, kb, lang)[3].1.contains((label_text(kb.zoom.deep_view(), lang), translation(lang, TranslationKey::ZoomPane)@)),
        help_groups(prefix, kb, lang)[3].1.contains((label_text(kb.resize_mode.deep_view(), lang), translation(lang, TranslationKey::ResizeMode)@)),
        help_groups(prefix, kb, lang)[3].1.contains((label_text(kb.toggle_sidebar.deep_view(), lang), translation(lang, TranslationKey::ToggleSidebar)@)),
        help_groups(prefix, kb, lang)[3].1.contains((label_text(kb.focus_pane_left.deep_view(), lang), translation(lang, TranslationKey::FocusPaneLeft)@)),
        help_groups(prefix, kb, lang)[3].1.contains((label_text(kb.focus_pane_down.deep_view(), lang), translation(lang, TranslationKey::FocusPaneDown)@)),
        help_groups(prefix, kb, lang)[3].1.contains((label_text(kb.focus_pane_up.deep_view(), lang), translation(lang, TranslationKey::FocusPaneUp)@)),
        help_groups(prefix, kb, lang)[3].1.contains((label_text(kb.focus_pane_right.deep_view(), lang), translation(lang, TranslationKey::FocusPaneRight)@)),
        help_groups(prefix, kb, lang)[3].1.contains((label_text(kb.cycle_pane_next.deep_view(), lang), translation(lang, TranslationKey::CyclePaneNext)@)),
        help_groups(prefix, kb, lang)[3].1.contains((label_text(kb.cycle_pane_previous.deep_view(), lang), translation(lang, TranslationKey::CyclePanePrevious)@)),
        help_groups(prefix, kb, lang)[3].1.contains((label_text(kb.last_pane.deep_view(), lang), translation(lang, TranslationKey::LastPane)@)),
        kb.custom_commands@.len() > 0 ==> help_groups(prefix, kb, lang)[4].1.len() == kb.custom_commands@.len(),
        kb.custom_commands@.len() > 0 ==> forall|i: int|
            0 <= i < kb.custom_commands@.len() ==> #[trigger] help_groups(prefix, kb, lang)[4].1[i] == (
                kb.custom_commands@[i].label@,
                match kb.custom_commands@[i].description {
                    Some(d) => d@,
                    None => translation(lang, TranslationKey::CustomCommand)@,
                },
            ),
{
    assert(help_groups(prefix, kb, lang)[0].1[0] == (prefix, translation(lang, TranslationKey::PrefixMode)@));
    assert(help_groups(prefix, kb, lang)[0].1[1] == (label_text(kb.help.deep_view(), lang), translation(lang, TranslationKey::KeybindsLabel)@));
    assert(help_groups(prefix, kb, lang)[0].1[2] == (label_text(kb.settings.deep_view(), lang), translation(lang, TranslationKey::Settings)@));
    assert(help_groups(prefix, kb, lang)[0].1[3] == (label_text(kb.detach.deep_view(), lang), translation(lang, TranslationKey::Detach)@));
    assert(help_groups(prefix, kb, lang)[0].1[4] == (label_text(kb.reload_config.deep_view(), lang), translation(lang, TranslationKey::ReloadConfig)@));
    assert(help_groups(prefix, kb, lang)[0].1[5] == (label_text(kb.open_notification_target.deep_view(), lang), translation(lang, TranslationKey::OpenNotificationTarget)@));
    assert(help_groups(prefix, kb, lang)[1].1[0] == ("esc"@, translation(lang, TranslationKey::Back)@));
    assert(help_groups(prefix, kb, lang)[1].1[1] == (label_text(kb.navigate.workspace_up.deep_view(), lang) + " / "@ + label_text(kb.navigate.workspace_down.deep_view(), lang), translation(lang, TranslationKey::WorkspaceList)@));
    assert(help_groups(prefix, kb, lang)[1].1[2] == (label_text(kb.navigate.pane_left.deep_view(), lang) + " / "@ + label_text(kb.navigate.pane_down.deep_view(), lang) + " / "@ + label_text(kb.navigate.pane_up.deep_view(), lang) + " / "@ + label_text(kb.navigate.pane_right.deep_view(), lang) + " / left / right"@, translation(lang, TranslationKey::MoveFocus)@));
    assert(help_groups(prefix, kb, lang)[1].1[3] == ("tab / shift+tab"@, translation(lang, TranslationKey::CyclePane)@));
    assert(help_groups(prefix, kb, lang)[1].1[4] == ("enter"@, translation(lang, TranslationKey::OpenWorkspace)@));
    assert(help_groups(prefix, kb, lang)[1].1[5] == ("1..9"@, translation(lang, TranslationKey::SwitchWorkspace)@));
    assert(help_groups(prefix, kb, lang)[2].1[0] == (label_text(kb.workspace_picker.deep_view(), lang), translation(lang, TranslationKey::WorkspaceNavigation)@));
    assert(help_groups(prefix, kb, lang)[2].1[1] == (label_text(kb.goto.deep_view(), lang), translation(lang, TranslationKey::SessionNavigator)@));
    assert(help_groups(prefix, kb, lang)[2].1[2] == (label_text(kb.new_workspace.deep_view(), lang), translation(lang, TranslationKey::NewWorkspace)@));
    assert(help_groups(prefix, kb, lang)[2].1[3] == (label_text(kb.new_worktree.deep_view(), lang), translation(lang, TranslationKey::NewWorktree)@));
    assert(help_groups(prefix, kb, lang)[2].1[4] == (label_text(kb.open_worktree.deep_view(), lang), translation(lang, TranslationKey::OpenWorktree)@));
    assert(help_groups(prefix, kb, lang)[2].1[5] == (label_text(kb.remove_worktree.deep_view(), lang), translation(lang, TranslationKey::DeleteWorktreeCheckout)@));
    assert(help_groups(prefix, kb, lang)[2].1[6] == (label_text(kb.rename_workspace.deep_view(), lang), translation(lang, TranslationKey::RenameWorkspace)@));
    assert(help_groups(prefix, kb, lang)[2].1[7] == (label_text(kb.close_workspace.deep_view(), lang), translation(lang, TranslationKey::CloseWorkspace)@));
    assert(help_groups(prefix, kb, lang)[2].1[8] == (label_text(kb.previous_workspace.deep_view(), lang), translation(lang, TranslationKey::PreviousWorkspace)@));
    assert(help_groups(prefix, kb, lang)[2].1[9] == (label_text(kb.next_workspace.deep_view(), lang), translation(lang, TranslationKey::NextWorkspace)@));
    assert(help_groups(prefix, kb, lang)[2].1[10] == (indexed_text(kb.switch_workspace.deep_view(), lang), translation(lang, TranslationKey::SwitchWorkspace19)@));
    assert(help_groups(prefix, kb, lang)[2].1[11] == (label_text(kb.previous_agent.deep_view(), lang), translation(lang, TranslationKey::PreviousAgent)@));
    assert(help_groups(prefix, kb, lang)[2].1[12] == (label_text(kb.next_agent.deep_view(), lang), translation(lang, TranslationKey::NextAgent)@));
    assert(help_groups(prefix, kb, lang)[2].1[13] == (indexed_text(kb.focus_agent.deep_view(), lang), translation(lang, TranslationKey::FocusAgent19)@));
    assert(help_groups(prefix, kb, lang)[2].1[14] == (label_text(kb.new_tab.deep_view(), lang), translation(lang, TranslationKey::NewTab)@));
    assert(help_groups(prefix, kb, lang)[2].1[15] == (label_text(kb.rename_tab.deep_view(), lang), translation(lang, TranslationKey::RenameTab)@));
    assert(help_groups(prefix, kb, lang)[2].1[16] == (label_text(kb.previous_tab.deep_view(), lang), translation(lang, TranslationKey::PreviousTab)@));
    assert(help_groups(prefix, kb, lang)[2].1[17] == (label_text(kb.next_tab.deep_view(), lang), translation(lang, TranslationKey::NextTab)@));
    assert(help_groups(prefix, kb, lang)[2].1[18] == (indexed_text(kb.switch_tab.deep_view(), lang), translation(lang, TranslationKey::SwitchTab19)@));
    assert(help_groups(prefix, kb, lang)[2].1[19] == (label_text(kb.close_tab.deep_view(), lang), translation(lang, TranslationKey::CloseTab)@));
    assert(help_groups(prefix, kb, lang)[3].1[0] == (label_text(kb.split_vertical.deep_view(), lang), translation(lang, TranslationKey::SplitVertical)@));
    assert(help_groups(prefix, kb, lang)[3].1[1] == (label_text(kb.split_horizontal.deep_view(), lang), translation(lang, TranslationKey::SplitHorizontal)@));
    assert(help_groups(prefix, kb, lang)[3].1[2] == (label_text(kb.close_pane.deep_view(), lang), translation(lang, TranslationKey::ClosePane)@));
    assert(help_groups(prefix, kb, lang)[3].1[3] == (label_text(kb.rename_pane.deep_view(), lang), translation(lang, TranslationKey::RenamePane)@));
    assert(help_groups(prefix, kb, lang)[3].1[4] == (label_text(kb.edit_scrollback.deep_view(), lang), translation(lang, TranslationKey::EditScrollback)@));
    assert(help_groups(prefix, kb, lang)[3].1[5] == (label_text(kb.copy_mode.deep_view(), lang), translation(lang, TranslationKey::CopyMode)@));
    assert(help_groups(prefix, kb, lang)[3].1[6] == (label_text(kb.zoom.deep_view(), lang), translation(lang, TranslationKey::ZoomPane)@));
    assert(help_groups(prefix, kb, lang)[3].1[7] == (label_text(kb.resize_mode.deep_view(), lang), translation(lang, TranslationKey::ResizeMode)@));
    assert(help_groups(prefix, kb, lang)[3].1[8] == (label_text(kb.toggle_sidebar.deep_view(), lang), translation(lang, TranslationKey::ToggleSidebar)@));
    assert(help_groups(prefix, kb, lang)[3].1[9] == (label_text(kb.focus_pane_left.deep_view(), lang), translation(lang, TranslationKey::FocusPaneLeft)@));
    assert(help_groups(prefix, kb, lang)[3].1[10] == (label_text(kb.focus_pane_down.deep_view(), lang), translation(lang, TranslationKey::FocusPaneDown)@));
    assert(help_groups(prefix, kb, lang)[3].1[11] == (label_text(kb.focus_pane_up.deep_view(), lang), translation(lang, TranslationKey::FocusPaneUp)@));
    assert(help_groups(prefix, kb, lang)[3].1[12] == (label_text(kb.focus_pane_right.deep_view(), lang), translation(lang, TranslationKey::FocusPaneRight)@));
    assert(help_groups(prefix, kb, lang)[3].1[13] == (label_text(kb.cycle_pane_next.deep_view(), lang), translation(lang, TranslationKey::CyclePaneNext)@));
    assert(help_groups(prefix, kb, lang)[3].1[14] == (label_text(kb.cycle_pane_previous.deep_view(), lang), translation(lang, TranslationKey::CyclePanePrevious)@));
    assert(help_groups(prefix, kb, lang)[3].1[15] == (label_text(kb.last_pane.deep_view(), lang), translation(lang, TranslationKey::LastPane)@));
}

/// The shortcut text of an action: its label when bound, "unset" otherwise.
pub proof fn lemma_label_text(label: Option<Seq<char>>, lang: Language)
    ensures
        label is Some ==> label_text(label, lang) == label->0,
        label is None ==> label_text(label, lang) == translation(lang, TranslationKey::Unset)@,
{
}

fn push_entry(entries: &mut Vec<HelpEntry>, key: String, label: &'static str)
    ensures
        final(entries).deep_view() == old(entries).deep_view().push((key@, label@)),
{
    let ghost before = entries.deep_view();
    entries.push((key, label.to_owned()));
    assert(entries.deep_view() =~= before.push((key@, label@)));
}

fn global_help_entries(prefix_label: &str, kb: &KeybindLabels, lang: Language) -> (r: Vec<HelpEntry>)
    ensures
        r.deep_view() == global_entries(prefix_label@, *kb, lang),
{
    let mut v: Vec<HelpEntry> = Vec::new();
    push_entry(&mut v, prefix_label.to_owned(), translate(lang, TranslationKey::PrefixMode));
    push_entry(&mut v, keybind_label(&kb.help, lang), translate(lang, TranslationKey::KeybindsLabel));
    push_entry(&mut v, keybind_label(&kb.settings, lang), translate(lang, TranslationKey::Settings));
    push_entry(&mut v, keybind_label(&kb.detach, lang), translate(lang, TranslationKey::Detach));
    push_entry(&mut v, keybind_label(&kb.reload_config, lang), translate(lang, TranslationKey::ReloadConfig));
    push_entry(&mut v, keybind_label(&kb.open_notification_target, lang), translate(lang, TranslationKey::OpenNotificationTarget));
    assert(v.deep_view() =~= global_entries(prefix_label@, *kb, lang));
    v
}

fn navigation_help_entries(kb: &KeybindLabels, lang: Language) -> (r: Vec<HelpEntry>)
    ensures
        r.deep_view() == navigation_entries(*kb, lang),
{
    let nav = &kb.navigate;
    let mut v: Vec<HelpEntry> = Vec::new();
    push_entry(&mut v, "esc".to_owned(), translate(lang, TranslationKey::Back));
    let mut list = keybind_label(&nav.workspace_up, lang);
    list.append(" / ");
    list.append(keybind_label(&nav.workspace_down, lang).as_str());
    push_entry(&mut v, list, translate(lang, TranslationKey::WorkspaceList));
    let mut focus = keybind_label(&nav.pane_left, lang);
    focus.append(" / ");
    focus.append(keybind_label(&nav.pane_down, lang).as_str());
    focus.append(" / ");
    focus.append(keybind_label(&nav.pane_up, lang).as_str());
    focus.append(" / ");
    focus.append(keybind_label(&nav.pane_right, lang).as_str());
    focus.append(" / left / right");
    push_entry(&mut v, focus, translate(lang, TranslationKey::MoveFocus));
    push_entry(&mut v, "tab / shift+tab".to_owned(), translate(lang, TranslationKey::CyclePane));
    push_entry(&mut v, "enter".to_owned(), translate(lang, TranslationKey::OpenWorkspace));
    push_entry(&mut v, "1..9".to_owned(), translate(lang, TranslationKey::SwitchWorkspace));
    assert(v.deep_view() =~= navigation_entries(*kb, lang));
    v
}

fn workspace_tab_help_entries(kb: &KeybindLabels, lang: Language) -> (r: Vec<HelpEntry>)
    ensures
        r.deep_view() == workspace_tab_entries(*kb, lang),
{
    let mut v: Vec<HelpEntry> = Vec::new();
    push_entry(&mut v, keybind_label(&kb.workspace_picker, lang), translate(lang, TranslationKey::WorkspaceNavigation));
    push_entry(&mut v, keybind_label(&kb.goto, lang), translate(lang, TranslationKey::SessionNavigator));
    push_entry(&mut v, keybind_label(&kb.new_workspace, lang), translate(lang, TranslationKey::NewWorkspace));
    push_entry(&mut v, keybind_label(&kb.new_worktree, lang), translate(lang, TranslationKey::NewWorktree));
    push_entry(&mut v, keybind_label(&kb.open_worktree, lang), translate(lang, TranslationKey::OpenWorktree));
    push_entry(&mut v, keybind_label(&kb.remove_worktree, lang), translate(lang, TranslationKey::DeleteWorktreeCheckout));
    push_entry(&mut v, keybind_label(&kb.rename_workspace, lang), translate(lang, TranslationKey::RenameWorkspace));
    push_entry(&mut v, keybind_label(&kb.close_workspace, lang), translate(lang, TranslationKey::CloseWorkspace));
    push_entry(&mut v, keybind_label(&kb.previous_workspace, lang), translate(lang, TranslationKey::PreviousWorkspace));
    push_entry(&mut v, keybind_label(&kb.next_workspace, lang), translate(lang, TranslationKey::NextWorkspace));
    push_entry(&mut v, indexed_label(&kb.switch_workspace, lang), translate(lang, TranslationKey::SwitchWorkspace19));
    push_entry(&mut v, keybind_label(&kb.previous_agent, lang), translate(lang, TranslationKey::PreviousAgent));
    push_entry(&mut v, keybind_label(&kb.next_agent, lang), translate(lang, TranslationKey::NextAgent));
    push_entry(&mut v, indexed_label(&kb.focus_agent, lang), translate(lang, TranslationKey::FocusAgent19));
    push_entry(&mut v, keybind_label(&kb.new_tab, lang), translate(lang, TranslationKey::NewTab));
    push_entry(&mut v, keybind_label(&kb.rename_tab, lang), translate(lang, TranslationKey::RenameTab));
    push_entry(&mut v, keybind_label(&kb.previous_tab, lang), translate(lang, TranslationKey::PreviousTab));
    push_entry(&mut v, keybind_label(&kb.next_tab, lang), translate(lang, TranslationKey::NextTab));
    push_entry(&mut v, indexed_label(&kb.switch_tab, lang), translate(lang, TranslationKey::SwitchTab19));
    push_entry(&mut v, keybind_label(&kb.close_tab, lang), translate(lang, TranslationKey::CloseTab));
    assert(v.deep_view() =~= workspace_tab_entries(*kb, lang));
    v
}

fn pane_help_entries(kb: &KeybindLabels, lang: Language) -> (r: Vec<HelpEntry>)
    ensures
        r.deep_view() == pane_entries(*kb, lang),
{
    let mut v: Vec<HelpEntry> = Vec::new();
    push_entry(&mut v, keybind_label(&kb.split_vertical, lang), translate(lang, TranslationKey::SplitVertical));
    push_entry(&mut v, keybind_label(&kb.split_horizontal, lang), translate(lang, TranslationKey::SplitHorizontal));
    push_entry(&mut v, keybind_label(&kb.close_pane, lang), translate(lang, TranslationKey::ClosePane));
    push_entry(&mut v, keybind_label(&kb.rename_pane, lang), translate(lang, TranslationKey::RenamePane));
    push_entry(&mut v, keybind_label(&kb.edit_scrollback, lang), translate(lang, TranslationKey::EditScrollback));
    push_entry(&mut v, keybind_label(&kb.copy_mode, lang), translate(lang, TranslationKey::CopyMode));
    push_entry(&mut v, keybind_label(&kb.zoom, lang), translate(lang, TranslationKey::ZoomPane));
    push_entry(&mut v, keybind_label(&kb.resize_mode, lang), translate(lang, TranslationKey::ResizeMode));
    push_entry(&mut v, keybind_label(&kb.toggle_sidebar, lang), translate(lang, TranslationKey::ToggleSidebar));
    push_entry(&mut v, keybind_label(&kb.focus_pane_left, lang), translate(lang, TranslationKey::FocusPaneLeft));
    push_entry(&mut v, keybind_label(&kb.focus_pane_down, lang), translate(lang, TranslationKey::FocusPaneDown));
    push_entry(&mut v, keybind_label(&kb.focus_pane_up, lang), translate(lang, TranslationKey::FocusPaneUp));
    push_entry(&mut v, keybind_label(&kb.focus_pane_right, lang), translate(lang, TranslationKey::FocusPaneRight));
    push_entry(&mut v, keybind_label(&kb.cycle_pane_next, lang), translate(lang, TranslationKey::CyclePaneNext));
    push_entry(&mut v, keybind_label(&kb.cycle_pane_previous, lang), translate(lang, TranslationKey::CyclePanePrevious));
    push_entry(&mut v, keybind_label(&kb.last_pane, lang), translate(lang, TranslationKey::LastPane));
    assert(v.deep_view() =~= pane_entries(*kb, lang));
    v
}

fn custom_help_entries(cmds: &Vec<CustomCommandLabel>, lang: Language) -> (r: Vec<HelpEntry>)
    ensures
        r.deep_view() == custom_entries(cmds@, lang),
{
    let mut v: Vec<HelpEntry> = Vec::new();
    let mut i: usize = 0;
    while i < cmds.len()
        invariant
            i <= cmds@.len(),
            v.deep_view() == custom_entries(cmds@.take(i as int), lang),
        decreases cmds.len() - i,
    {
        let cmd = &cmds[i];
        let description = match &cmd.description {
            Some(d) => d.clone(),
            None => translate(lang, TranslationKey::CustomCommand).to_owned(),
        };
        let ghost before = v.deep_view();
        v.push((cmd.label.clone(), description));
        assert(v.deep_view() =~= before.push(custom_entry(cmds@[i as int], lang)));
        assert(v.deep_view() =~= custom_entries(cmds@.take(i + 1), lang));
        i = i + 1;
    }
    assert(cmds@.take(i as int) =~= cmds@);
    v
}

/// The groups of the help overlay for the given shortcut labels, with the
/// prefix key shown as `prefix_label` and every text in `lang`.
pub fn keybind_help_groups(prefix_label: &str, kb: &KeybindLabels, lang: Language) -> (r: Vec<
    HelpGroup,
>)
    ensures
        r.deep_view() == help_groups(prefix_label@, *kb, lang),
{
    let mut groups: Vec<HelpGroup> = Vec::new();
    groups.push((translate(lang, TranslationKey::GlobalGroup), global_help_entries(prefix_label, kb, lang)));
    groups.push((translate(lang, TranslationKey::NavigationGroup), navigation_help_entries(kb, lang)));
    groups.push((translate(lang, TranslationKey::WorkspacesTabsGroup), workspace_tab_help_entries(kb, lang)));
    groups.push((translate(lang, TranslationKey::PanesGroup), pane_help_entries(kb, lang)));
    if kb.custom_commands.len() > 0 {
        groups.push((translate(lang, TranslationKey::CustomGroup), custom_help_entries(&kb.custom_commands, lang)));
    }
    assert(groups.deep_view() =~= help_groups(prefix_label@, *kb, lang));
    groups
}

/// The Unicode lower-case form of a text, as `str::to_lowercase` computes it
/// (a function of the text alone).
pub uninterp spec fn lowercase(s: Seq<char>) -> Seq<char>;

/// Calls `str::to_lowercase`. Claims that the result is `lowercase` of the
/// argument, and that it is also `lowercase` of the argument with its ASCII
/// letters already lower-cased: Unicode lower-cases `A`..`Z` to `a`..`z` one
/// for one, and both are cased letters, so the only context-dependent rule
/// (final sigma) sees the same neighbours. What the mapping does to other
/// characters (the Unicode case tables) is left unsaid.
#[verifier::external_body]
fn to_lowercase(s: &str) -> (r: String)
    ensures
        r@ == lowercase(s@),
        r@ == lowercase(ascii_folded(s@)),
{
    s.to_lowercase()
}

/// An entry matches a lower-cased query when its lower-cased shortcut text or
/// its lower-cased description contains the query.
pub open spec fn entry_matches_query(e: EntryView, lowered_query: Seq<char>) -> bool {
    contains_seq(lowercase(e.0), lowered_query) || contains_seq(lowercase(e.1), lowered_query)
}

/// The entries of `es` that match, in order.
pub open spec fn kept_entries(es: Seq<EntryView>, lowered_query: Seq<char>) -> Seq<EntryView>
    decreases es.len(),
{
    if es.len() == 0 {
        Seq::empty()
    } else {
        let rest = kept_entries(es.drop_last(), lowered_query);
        if entry_matches_query(es.last(), lowered_query) {
            rest.push(es.last())
        } else {
            rest
        }
    }
}

/// Each group reduced to its matching entries; groups left empty are dropped.
/// Headings themselves are not searched.
pub open spec fn kept_groups(gs: Seq<GroupView>, lowered_query: Seq<char>) -> Seq<GroupView>
    decreases gs.len(),
{
    if gs.len() == 0 {
        Seq::empty()
    } else {
        let rest = kept_groups(gs.drop_last(), lowered_query);
        let es = kept_entries(gs.last().1, lowered_query);
        if es.len() > 0 {
            rest.push((gs.last().0, es))
        } else {
            rest
        }
    }
}

/// The form a query is searched in: lower-cased (which takes in folding its
/// ASCII letters first).
pub open spec fn query_form(query: Seq<char>) -> Seq<char> {
    lowercase(ascii_folded(query))
}

/// What the overlay lists for `query`: everything when the query is empty,
/// otherwise the matches of its lower-cased form.
pub open spec fn filtered_groups(gs: Seq<GroupView>, query: Seq<char>) -> Seq<GroupView> {
    if query.len() == 0 {
        gs
    } else {
        kept_groups(gs, query_form(query))
    }
}

/// Decides whether an entry matches, given its lower-cased shortcut text, its
/// lower-cased description and the lower-cased query.
pub fn entry_matches(lowered_key: &str, lowered_label: &str, lowered_query: &str) -> (r: bool)
    ensures
        r == (contains_seq(lowered_key@, lowered_query@) || contains_seq(
            lowered_label@,
            lowered_query@,
        )),
{
    let q = chars_of(lowered_query);
    let k = chars_of(lowered_key);
    if chars_contain(&k, &q) {
        return true;
    }
    let l = chars_of(lowered_label);
    chars_contain(&l, &q)
}

fn matching_entries(entries: &Vec<HelpEntry>, lowered_query: &String) -> (r: Vec<HelpEntry>)
    ensures
        r.deep_view() == kept_entries(entries.deep_view(), lowered_query@),
{
    let ghost es = entries.deep_view();
    let mut kept: Vec<HelpEntry> = Vec::new();
    let mut i: usize = 0;
    while i < entries.len()
        invariant
            i <= entries@.len(),
            es == entries.deep_view(),
            kept.deep_view() == kept_entries(es.take(i as int), lowered_query@),
        decreases entries.len() - i,
    {
        let entry = &entries[i];
        assert(es[i as int] == (entry.0@, entry.1@));
        let lowered_key = to_lowercase(entry.0.as_str());
        let lowered_label = to_lowercase(entry.1.as_str());
        let hit = entry_matches(lowered_key.as_str(), lowered_label.as_str(), lowered_query.as_str());
        assert(es.take(i + 1).drop_last() =~= es.take(i as int));
        assert(es.take(i + 1).last() == es[i as int]);
        if hit {
            let ghost before = kept.deep_view();
            kept.push((entry.0.clone(), entry.1.clone()));
            assert(kept.deep_view() =~= before.push(es[i as int]));
        }
        i = i + 1;
    }
    assert(es.take(i as int) =~= es);
    kept
}

/// Narrows the help groups to the entries whose shortcut text or description
/// contains `query`, ignoring case; groups with no match disappear. An empty
/// query keeps everything.
pub fn filter_keybind_help_groups(groups: Vec<HelpGroup>, query: &str) -> (r: Vec<HelpGroup>)
    ensures
        r.deep_view() == filtered_groups(groups.deep_view(), query@),
{
    if query.is_empty() {
        return groups;
    }
    let lowered_query = to_lowercase(query);
    let ghost gs = groups.deep_view();
    let mut out: Vec<HelpGroup> = Vec::new();
    let mut g: usize = 0;
    while g < groups.len()
        invariant
            g <= groups@.len(),
            gs == groups.deep_view(),
            lowered_query@ == query_form(query@),
            out.deep_view() == kept_groups(gs.take(g as int), lowered_query@),
        decreases groups.len() - g,
    {
        let group = &groups[g];
        assert(gs[g as int] == (group.0@, group.1.deep_view()));
        let kept = matching_entries(&group.1, &lowered_query);
        assert(gs.take(g + 1).drop_last() =~= gs.take(g as int));
        assert(gs.take(g + 1).last() == gs[g as int]);
        if kept.len() > 0 {
            let ghost before = out.deep_view();
            out.push((group.0, kept));
            assert(out.deep_view() =~= before.push((gs[g as int].0, kept_entries(gs[g as int].1, lowered_query@))));
        }
        g = g + 1;
    }
    assert(gs.take(g as int) =~= gs);
    out
}

/// Searching ignores the ASCII case of the query.
pub proof fn lemma_filter_ignores_query_case(gs: Seq<GroupView>, q1: Seq<char>, q2: Seq<char>)
    requires
        ascii_folded(q1) == ascii_folded(q2),
    ensures
        filtered_groups(gs, q1) == filtered_groups(gs, q2),
{
    assert(q1.len() == ascii_folded(q1).len());
    assert(q2.len() == ascii_folded(q2).len());
}

proof fn lemma_kept_entries_narrow(es: Seq<EntryView>, lq1: Seq<char>, lq2: Seq<char>)
    requires
        contains_seq(lq2, lq1),
    ensures
        kept_entries(kept_entries(es, lq1), lq2) == kept_entries(es, lq2),
    decreases es.len(),
{
    if es.len() > 0 {
        let e = es.last();
        let rest1 = kept_entries(es.drop_last(), lq1);
        lemma_kept_entries_narrow(es.drop_last(), lq1, lq2);
        if entry_matches_query(e, lq2) {
            if contains_seq(lowercase(e.0), lq2) {
                lemma_contains_transitive(lowercase(e.0), lq2, lq1);
            } else {
                lemma_contains_transitive(lowercase(e.1), lq2, lq1);
            }
        }
        if entry_matches_query(e, lq1) {
            assert(rest1.push(e).drop_last() =~= rest1);
        }
    }
}

proof fn lemma_kept_groups_narrow(gs: Seq<GroupView>, lq1: Seq<char>, lq2: Seq<char>)
    requires
        contains_seq(lq2, lq1),
    ensures
        kept_groups(kept_groups(gs, lq1), lq2) == kept_groups(gs, lq2),
    decreases gs.len(),
{
    if gs.len() > 0 {
        let g = gs.last();
        let rest1 = kept_groups(gs.drop_last(), lq1);
        let e1 = kept_entries(g.1, lq1);
        lemma_kept_groups_narrow(gs.drop_last(), lq1, lq2);
        lemma_kept_entries_narrow(g.1, lq1, lq2);
        if e1.len() > 0 {
            assert(rest1.push((g.0, e1)).drop_last() =~= rest1);
        } else {
            assert(e1 =~= Seq::<EntryView>::empty());
        }
    }
}

/// Typing more narrows the list: when the searched form of `q2` contains that
/// of `q1` (or `q1` is empty), filtering by `q1` and then by `q2` lists the
/// same as filtering by `q2` alone. With `q1 == q2` this is idempotence.
pub proof fn lemma_filter_narrows(gs: Seq<GroupView>, q1: Seq<char>, q2: Seq<char>)
    requires
        q2.len() > 0,
        q1.len() == 0 || contains_seq(query_form(q2), query_form(q1)),
    ensures
        filtered_groups(filtered_groups(gs, q1), q2) == filtered_groups(gs, q2),
{
    if q1.len() > 0 {
        lemma_kept_groups_narrow(gs, query_form(q1), query_form(q2));
    }
}

proof fn lemma_kept_entries_match(es: Seq<EntryView>, lq: Seq<char>)
    ensures
        forall|j: int|
            0 <= j < kept_entries(es, lq).len() ==> entry_matches_query(
                #[trigger] kept_entries(es, lq)[j],
                lq,
            ),
        kept_entries(es, lq).len() <= es.len(),
    decreases es.len(),
{
    if es.len() > 0 {
        lemma_kept_entries_match(es.drop_last(), lq);
    }
}

proof fn lemma_kept_entries_complete(es: Seq<EntryView>, lq: Seq<char>, j: int)
    requires
        0 <= j < es.len(),
        entry_matches_query(es[j], lq),
    ensures
        kept_entries(es, lq).contains(es[j]),
    decreases es.len(),
{
    let rest = kept_entries(es.drop_last(), lq);
    if j == es.len() - 1 {
        assert(kept_entries(es, lq) == rest.push(es[j]));
        assert(rest.push(es[j])[rest.len() as int] == es[j]);
    } else {
        assert(es.drop_last()[j] == es[j]);
        lemma_kept_entries_complete(es.drop_last(), lq, j);
        let k = choose|k: int| 0 <= k < rest.len() && rest[k] == es[j];
        if entry_matches_query(es.last(), lq) {
            assert(rest.push(es.last())[k] == es[j]);
        }
    }
}

proof fn lemma_kept_groups_complete(gs: Seq<GroupView>, lq: Seq<char>, i: int, j: int)
    requires
        0 <= i < gs.len(),
        0 <= j < gs[i].1.len(),
        entry_matches_query(gs[i].1[j], lq),
    ensures
        exists|k: int|
            0 <= k < kept_groups(gs, lq).len() && (#[trigger] kept_groups(gs, lq)[k]).0 == gs[i].0
                && kept_groups(gs, lq)[k].1.contains(gs[i].1[j]),
    decreases gs.len(),
{
    let rest = kept_groups(gs.drop_last(), lq);
    let es = kept_entries(gs.last().1, lq);
    if i == gs.len() - 1 {
        lemma_kept_entries_complete(gs[i].1, lq, j);
        assert(es.len() > 0);
        let r = rest.push((gs.last().0, es));
        assert(kept_groups(gs, lq) == r);
        assert(r[rest.len() as int] == (gs.last().0, es));
        let k = rest.len() as int;
        assert(0 <= k < kept_groups(gs, lq).len() && kept_groups(gs, lq)[k].0 == gs[i].0
            && kept_groups(gs, lq)[k].1.contains(gs[i].1[j]));
    } else {
        assert(gs.drop_last()[i] == gs[i]);
        lemma_kept_groups_complete(gs.drop_last(), lq, i, j);
        let k = choose|k: int|
            0 <= k < rest.len() && (#[trigger] rest[k]).0 == gs[i].0 && rest[k].1.contains(
                gs[i].1[j],
            );
        if es.len() > 0 {
            assert(rest.push((gs.last().0, es))[k] == rest[k]);
        }
        assert(kept_groups(gs, lq)[k] == rest[k]);
        assert(0 <= k < kept_groups(gs, lq).len() && kept_groups(gs, lq)[k].0 == gs[i].0
            && kept_groups(gs, lq)[k].1.contains(gs[i].1[j]));
    }
}

/// An empty query lists everything as it is.
pub proof fn lemma_filter_empty_query(gs: Seq<GroupView>, query: Seq<char>)
    requires
        query.len() == 0,
    ensures
        filtered_groups(gs, query) == gs,
{
}

/// Search lists exactly the matching entries. For a non-empty query `q`, let
/// `lq` be `q` lower-cased as a whole (`lowercase(ascii_folded(q))`):
/// every listed entry has a lower-cased shortcut or description containing all
/// of `lq`; every entry of the input with that property is listed, under its
/// own heading; and no listed group is empty (headings are not searched).
pub proof fn lemma_filter_keeps_exactly_matches(gs: Seq<GroupView>, query: Seq<char>)
    requires
        query.len() > 0,
    ensures
        forall|i: int, j: int|
            0 <= i < filtered_groups(gs, query).len() && 0 <= j < filtered_groups(
                gs,
                query,
            )[i].1.len() ==> ({
                let e = #[trigger] filtered_groups(gs, query)[i].1[j];
                contains_seq(lowercase(e.0), lowercase(ascii_folded(query))) || contains_seq(
                    lowercase(e.1),
                    lowercase(ascii_folded(query)),
                )
            }),
        forall|i: int|
            0 <= i < filtered_groups(gs, query).len() ==> (#[trigger] filtered_groups(
                gs,
                query,
            )[i]).1.len() > 0,
        forall|i: int, j: int|
            0 <= i < gs.len() && 0 <= j < gs[i].1.len() && (contains_seq(
                lowercase((#[trigger] gs[i].1[j]).0),
                lowercase(ascii_folded(query)),
            ) || contains_seq(lowercase(gs[i].1[j].1), lowercase(ascii_folded(query))))
                ==> exists|k: int|
                0 <= k < filtered_groups(gs, query).len() && (#[trigger] filtered_groups(
                    gs,
                    query,
                )[k]).0 == gs[i].0 && filtered_groups(gs, query)[k].1.contains(gs[i].1[j]),
{
    let lq = lowercase(ascii_folded(query));
    assert(filtered_groups(gs, query) == kept_groups(gs, lq));
    lemma_kept_groups_match(gs, lq);
    assert forall|i: int, j: int|
        0 <= i < gs.len() && 0 <= j < gs[i].1.len() && (contains_seq(
            lowercase((#[trigger] gs[i].1[j]).0),
            lq,
        ) || contains_seq(lowercase(gs[i].1[j].1), lq)) implies exists|k: int|
        0 <= k < kept_groups(gs, lq).len() && (#[trigger] kept_groups(gs, lq)[k]).0 == gs[i].0
            && kept_groups(gs, lq)[k].1.contains(gs[i].1[j]) by {
        lemma_kept_groups_complete(gs, lq, i, j);
    }
}

proof fn lemma_kept_groups_match(gs: Seq<GroupView>, lq: Seq<char>)
    ensures
        kept_groups(gs, lq).len() <= gs.len(),
        forall|i: int|
            0 <= i < kept_groups(gs, lq).len() ==> (#[trigger] kept_groups(gs, lq)[i]).1.len() > 0,
        forall|i: int, j: int|
            0 <= i < kept_groups(gs, lq).len() && 0 <= j < kept_groups(gs, lq)[i].1.len()
                ==> entry_matches_query(#[trigger] kept_groups(gs, lq)[i].1[j], lq),
    decreases gs.len(),
{
    if gs.len() > 0 {
        lemma_kept_groups_match(gs.drop_last(), lq);
        lemma_kept_entries_match(gs.last().1, lq);
    }
}

/// How a piece of a help line is drawn.
#[derive(Debug, Clone, Copy, PartialEq, Eq, Structural)]
pub enum HelpStyle {
    /// A group heading.
    Heading,
    /// A shortcut text.
    Key,
    /// A description.
    Label,
    /// The notice that nothing matches.
    Muted,
}

impl DeepView for HelpStyle {
    type V = HelpStyle;

    open spec fn deep_view(&self) -> HelpStyle {
        *self
    }
}

/// A line of the help overlay: its display width and its styled pieces
/// (no pieces: an empty line).
pub struct HelpLine {
    pub width: usize,
    pub spans: Vec<(String, HelpStyle)>,
}

/// The value of a help line: width and styled pieces.
pub type LineView = (usize, Seq<(Seq<char>, HelpStyle)>);

impl DeepView for HelpLine {
    type V = LineView;

    open spec fn deep_view(&self) -> LineView {
        (self.width, self.spans.deep_view())
    }
}

/// The number of terminal columns a text takes, as ratatui measures the
/// content of a span (Unicode display width).
pub uninterp spec fn display_width(s: Seq<char>) -> nat;

/// Calls ratatui's `Span::width` on a raw span of `s`; claims only that the
/// result is `display_width` of the text. The width tables are left unsaid.
#[verifier::external_body]
fn span_width(s: &str) -> (r: usize)
    ensures
        r == display_width(s@),
{
    ratatui::text::Span::raw(s).width()
}

/// The display width, capped at `u16::MAX`.
pub open spec fn width16(s: Seq<char>) -> u16 {
    if display_width(s) > 65535 {
        65535
    } else {
        display_width(s) as u16
    }
}

/// The display width of `s` in terminal columns, capped at `u16::MAX`.
pub fn display_width_u16(s: &str) -> (r: u16)
    ensures
        r == width16(s@),
{
    let w = span_width(s);
    if w > 65535 {
        65535
    } else {
        w as u16
    }
}

/// The shortcut texts of all entries of all groups, in order.
pub open spec fn all_keys(gs: Seq<GroupView>) -> Seq<Seq<char>>
    decreases gs.len(),
{
    if gs.len() == 0 {
        Seq::empty()
    } else {
        all_keys(gs.drop_last()) + gs.last().1.map_values(|e: EntryView| e.0)
    }
}

/// The widest of `ks`, if any.
pub open spec fn max_width(ks: Seq<Seq<char>>) -> Option<u16>
    decreases ks.len(),
{
    if ks.len() == 0 {
        None
    } else {
        let w = width16(ks.last());
        match max_width(ks.drop_last()) {
            None => Some(w),
            Some(m) => Some(
                if w > m {
                    w
                } else {
                    m
                },
            ),
        }
    }
}

/// The width of the shortcut column: the widest shortcut text, 8 when there
/// are no entries.
pub open spec fn key_column_width(gs: Seq<GroupView>) -> u16 {
    match max_width(all_keys(gs)) {
        Some(m) => m,
        None => 8,
    }
}

/// `n` spaces.
pub open spec fn spaces(n: int) -> Seq<char> {
    Seq::new(n as nat, |i: int| ' ')
}

/// A shortcut text padded to the column: a space, the text, spaces up to the
/// column width, and a space.
pub open spec fn padded_key(key: Seq<char>, column: u16) -> Seq<char> {
    " "@ + key + spaces(
        if column > width16(key) {
            column - width16(key)
        } else {
            0
        },
    ) + " "@
}

/// The line of a heading.
pub open spec fn heading_line(heading: Seq<char>) -> LineView {
    ((width16(heading) + 1) as usize, seq![(" "@ + heading, HelpStyle::Heading)])
}

/// The line of an entry, its shortcut padded to `column`.
pub open spec fn entry_line(e: EntryView, column: u16) -> LineView {
    (
        (width16(padded_key(e.0, column)) + width16(e.1)) as usize,
        seq![(padded_key(e.0, column), HelpStyle::Key), (e.1, HelpStyle::Label)],
    )
}

/// The empty line after each group.
pub open spec fn blank_line() -> LineView {
    (0, Seq::empty())
}

/// The lines of a group: heading, entries, empty line.
pub open spec fn group_lines(g: GroupView, column: u16) -> Seq<LineView> {
    seq![heading_line(g.0)] + g.1.map_values(|e: EntryView| entry_line(e, column)) + seq![
        blank_line(),
    ]
}

/// The lines of several groups, in order.
pub open spec fn groups_lines(gs: Seq<GroupView>, column: u16) -> Seq<LineView>
    decreases gs.len(),
{
    if gs.len() == 0 {
        Seq::empty()
    } else {
        groups_lines(gs.drop_last(), column) + group_lines(gs.last(), column)
    }
}

/// The lines the overlay shows for `gs`: a muted "no matching keybinds" line
/// when there are no groups, otherwise every group's lines with shortcuts
/// padded to one common column.
pub open spec fn help_lines_of(gs: Seq<GroupView>, lang: Language) -> Seq<LineView> {
    if gs.len() == 0 {
        let label = translation(lang, TranslationKey::NoMatchingKeybinds)@;
        seq![((width16(label) + 1) as usize, seq![(" "@, HelpStyle::Muted), (label, HelpStyle::Muted)])]
    } else {
        groups_lines(gs, key_column_width(gs))
    }
}

/// The number of lines taken by the groups before group `i`: a heading, the
/// entries and an empty line each.
pub open spec fn lines_before(gs: Seq<GroupView>, i: int) -> int
    decreases i,
{
    if i <= 0 || i > gs.len() {
        0
    } else {
        lines_before(gs, i - 1) + gs[i - 1].1.len() + 2
    }
}

proof fn lemma_lines_before_prefix(gs: Seq<GroupView>, i: int)
    requires
        gs.len() > 0,
        0 <= i < gs.len(),
    ensures
        lines_before(gs.drop_last(), i) == lines_before(gs, i),
    decreases i,
{
    if i > 0 {
        lemma_lines_before_prefix(gs, i - 1);
        assert(gs.drop_last()[i - 1] == gs[i - 1]);
    }
}

proof fn lemma_lines_before_grows(gs: Seq<GroupView>, i: int, k: int)
    requires
        0 <= i <= k <= gs.len(),
    ensures
        lines_before(gs, i) <= lines_before(gs, k),
    decreases k - i,
{
    if i < k {
        lemma_lines_before_grows(gs, i, k - 1);
    }
}

proof fn lemma_groups_lines_shape(gs: Seq<GroupView>, column: u16)
    ensures
        groups_lines(gs, column).len() == lines_before(gs, gs.len() as int),
        forall|i: int|
            0 <= i < gs.len() ==> groups_lines(gs, column)[#[trigger] lines_before(gs, i)]
                == heading_line(gs[i].0),
        forall|i: int, j: int|
            0 <= i < gs.len() && 0 <= j < gs[i].1.len() ==> groups_lines(gs, column)[lines_before(
                gs,
                i,
            ) + 1 + j] == entry_line(#[trigger] gs[i].1[j], column),
        forall|i: int|
            0 <= i < gs.len() ==> groups_lines(gs, column)[#[trigger] lines_before(gs, i)
                + gs[i].1.len() + 1] == blank_line(),
    decreases gs.len(),
{
    if gs.len() > 0 {
        let init = gs.drop_last();
        let n = gs.len() - 1;
        lemma_groups_lines_shape(init, column);
        let a = groups_lines(init, column);
        let g = gs.last();
        let b = group_lines(g, column);
        assert(groups_lines(gs, column) == a + b);
        lemma_lines_before_prefix(gs, n);
        assert(lines_before(init, n) == lines_before(gs, n));
        assert(a.len() == lines_before(gs, n));
        assert forall|i: int| 0 <= i < n implies lines_before(init, i) == lines_before(gs, i) by {
            lemma_lines_before_prefix(gs, i);
        }
        assert forall|i: int|
            0 <= i < gs.len() implies groups_lines(gs, column)[#[trigger] lines_before(gs, i)]
            == heading_line(gs[i].0) by {
            if i < n {
                assert(init[i] == gs[i]);
                lemma_lines_before_grows(init, i + 1, n);
                lemma_lines_before_grows(init, 0, i);
                lemma_lines_before_prefix(gs, i);
                assert(lines_before(init, i + 1) == lines_before(init, i) + init[i].1.len() + 2);
                assert(a[lines_before(init, i)] == heading_line(init[i].0));
            } else {
                assert(b[0] == heading_line(g.0));
            }
        }
        assert forall|i: int, j: int|
            0 <= i < gs.len() && 0 <= j < gs[i].1.len() implies groups_lines(gs, column)[lines_before(
            gs,
            i,
        ) + 1 + j] == entry_line(#[trigger] gs[i].1[j], column) by {
            if i < n {
                assert(init[i] == gs[i]);
                lemma_lines_before_grows(init, i + 1, n);
                lemma_lines_before_grows(init, 0, i);
                lemma_lines_before_prefix(gs, i);
                assert(lines_before(init, i + 1) == lines_before(init, i) + init[i].1.len() + 2);
                assert(a[lines_before(init, i) + 1 + j] == entry_line(init[i].1[j], column));
            } else {
                assert(b[1 + j] == entry_line(g.1[j], column));
            }
        }
        assert forall|i: int|
            0 <= i < gs.len() implies groups_lines(gs, column)[#[trigger] lines_before(gs, i)
            + gs[i].1.len() + 1] == blank_line() by {
            if i < n {
                assert(init[i] == gs[i]);
                lemma_lines_before_grows(init, i + 1, n);
                lemma_lines_before_grows(init, 0, i);
                lemma_lines_before_prefix(gs, i);
                assert(lines_before(init, i + 1) == lines_before(init, i) + init[i].1.len() + 2);
                assert(a[lines_before(init, i) + init[i].1.len() + 1] == blank_line());
            } else {
                assert(b[g.1.len() as int + 1] == blank_line());
            }
        }
    }
}

/// `key` is the shortcut text of some entry of `gs`.
pub open spec fn is_listed_key(gs: Seq<GroupView>, key: Seq<char>) -> bool {
    exists|i: int, j: int|
        0 <= i < gs.len() && 0 <= j < gs[i].1.len() && (#[trigger] gs[i].1[j]).0 == key
}

proof fn lemma_all_keys(gs: Seq<GroupView>)
    ensures
        forall|i: int, j: int|
            0 <= i < gs.len() && 0 <= j < gs[i].1.len() ==> all_keys(gs).contains(
                (#[trigger] gs[i].1[j]).0,
            ),
        forall|k: int|
            0 <= k < all_keys(gs).len() ==> is_listed_key(gs, #[trigger] all_keys(gs)[k]),
    decreases gs.len(),
{
    if gs.len() > 0 {
        let init = gs.drop_last();
        let n = gs.len() - 1;
        lemma_all_keys(init);
        let a = all_keys(init);
        let b = gs.last().1.map_values(|e: EntryView| e.0);
        assert(all_keys(gs) == a + b);
        assert forall|i: int, j: int|
            0 <= i < gs.len() && 0 <= j < gs[i].1.len() implies all_keys(gs).contains(
            (#[trigger] gs[i].1[j]).0,
        ) by {
            if i < n {
                assert(init[i] == gs[i]);
                assert(a.contains(init[i].1[j].0));
                let k = choose|k: int| 0 <= k < a.len() && a[k] == init[i].1[j].0;
                assert((a + b)[k] == a[k]);
            } else {
                assert((a + b)[a.len() + j] == b[j]);
            }
        }
        assert forall|k: int| 0 <= k < all_keys(gs).len() implies is_listed_key(
            gs,
            #[trigger] all_keys(gs)[k],
        ) by {
            if k < a.len() {
                assert(all_keys(init)[k] == a[k]);
                assert(is_listed_key(init, all_keys(init)[k]));
                let (i, j) = choose|i: int, j: int|
                    0 <= i < init.len() && 0 <= j < init[i].1.len() && (#[trigger] init[i].1[j]).0
                        == a[k];
                assert(init[i] == gs[i]);
                assert(all_keys(gs)[k] == a[k]);
                assert(gs[i].1[j].0 == all_keys(gs)[k]);
                assert(0 <= i < gs.len() && 0 <= j < gs[i].1.len() && gs[i].1[j].0
                    == all_keys(gs)[k]);
            } else {
                let j = k - a.len();
                assert(all_keys(gs)[k] == b[j]);
                assert(b[j] == gs.last().1[j].0);
                assert(gs[n] == gs.last());
                assert(gs[n].1[j].0 == all_keys(gs)[k]);
                assert(0 <= n < gs.len() && 0 <= j < gs[n].1.len() && gs[n].1[j].0
                    == all_keys(gs)[k]);
            }
        }
    } else {
        assert(all_keys(gs).len() == 0);
    }
}

proof fn lemma_max_width(ks: Seq<Seq<char>>)
    ensures
        max_width(ks) is Some <==> ks.len() > 0,
        max_width(ks) is Some ==> (forall|k: int|
            0 <= k < ks.len() ==> width16(#[trigger] ks[k]) <= max_width(ks)->0),
        max_width(ks) is Some ==> exists|k: int|
            0 <= k < ks.len() && width16(#[trigger] ks[k]) == max_width(ks)->0,
    decreases ks.len(),
{
    if ks.len() > 0 {
        let init = ks.drop_last();
        lemma_max_width(init);
        let w = width16(ks.last());
        assert forall|k: int| 0 <= k < ks.len() implies width16(#[trigger] ks[k]) <= max_width(ks)->0 by {
            if k < init.len() {
                assert(init[k] == ks[k]);
            }
        }
        if init.len() > 0 {
            let k = choose|k: int| 0 <= k < init.len() && width16(#[trigger] init[k]) == max_width(init)->0;
            assert(init[k] == ks[k]);
            if w > max_width(init)->0 {
                assert(width16(ks[ks.len() - 1]) == max_width(ks)->0);
            } else {
                assert(width16(ks[k]) == max_width(ks)->0);
            }
        } else {
            assert(width16(ks[ks.len() - 1]) == max_width(ks)->0);
        }
    }
}

/// The shortcut column is as wide as the widest shortcut: no shortcut is
/// wider, and one is exactly that wide; with no entries at all it is 8.
pub proof fn lemma_key_column_is_widest(gs: Seq<GroupView>)
    ensures
        forall|i: int, j: int|
            0 <= i < gs.len() && 0 <= j < gs[i].1.len() ==> width16((#[trigger] gs[i].1[j]).0)
                <= key_column_width(gs),
        (exists|i: int, j: int|
            0 <= i < gs.len() && 0 <= j < gs[i].1.len() && width16((#[trigger] gs[i].1[j]).0)
                == key_column_width(gs)) || (key_column_width(gs) == 8 && forall|i: int|
            0 <= i < gs.len() ==> (#[trigger] gs[i]).1.len() == 0),
{
    let ks = all_keys(gs);
    lemma_all_keys(gs);
    lemma_max_width(ks);
    assert forall|i: int, j: int|
        0 <= i < gs.len() && 0 <= j < gs[i].1.len() implies width16((#[trigger] gs[i].1[j]).0)
        <= key_column_width(gs) by {
        assert(ks.contains(gs[i].1[j].0));
        let k = choose|k: int| 0 <= k < ks.len() && ks[k] == gs[i].1[j].0;
        assert(width16(ks[k]) <= max_width(ks)->0);
    }
    if ks.len() > 0 {
        let k = choose|k: int| 0 <= k < ks.len() && width16(#[trigger] ks[k]) == max_width(ks)->0;
        assert(is_listed_key(gs, ks[k]));
        let (i, j) = choose|i: int, j: int|
            0 <= i < gs.len() && 0 <= j < gs[i].1.len() && (#[trigger] gs[i].1[j]).0 == ks[k];
        assert(width16(gs[i].1[j].0) == key_column_width(gs));
    } else {
        assert forall|i: int| 0 <= i < gs.len() implies (#[trigger] gs[i]).1.len() == 0 by {
            if gs[i].1.len() > 0 {
                assert(ks.contains(gs[i].1[0].0));
            }
        }
    }
}

/// The overlay lines follow the groups in order. Group `i` takes the lines
/// from `lines_before(gs, i)` on: its heading (a space and the heading), then
/// one line per entry in order (the shortcut after a space, padded with spaces
/// to the shortcut column and followed by a space, then the description), then
/// an empty line; nothing else is listed. Without groups there is one muted
/// "no matching keybinds" line.
pub proof fn lemma_help_lines_follow_groups(gs: Seq<GroupView>, lang: Language)
    ensures
        gs.len() == 0 ==> help_lines_of(gs, lang) == seq![
            (
                (width16(translation(lang, TranslationKey::NoMatchingKeybinds)@) + 1) as usize,
                seq![
                    (" "@, HelpStyle::Muted),
                    (translation(lang, TranslationKey::NoMatchingKeybinds)@, HelpStyle::Muted),
                ],
            ),
        ],
        gs.len() > 0 ==> help_lines_of(gs, lang).len() == lines_before(gs, gs.len() as int),
        forall|i: int|
            0 <= i < gs.len() ==> help_lines_of(gs, lang)[#[trigger] lines_before(gs, i)] == (
                (width16(gs[i].0) + 1) as usize,
                seq![(" "@ + gs[i].0, HelpStyle::Heading)],
            ),
        forall|i: int, j: int|
            0 <= i < gs.len() && 0 <= j < gs[i].1.len() ==> ({
                let e = #[trigger] gs[i].1[j];
                let column = key_column_width(gs);
                let pad: int = if column > width16(e.0) {
                    column - width16(e.0)
                } else {
                    0
                };
                let key = " "@ + e.0 + Seq::new(pad as nat, |k: int| ' ') + " "@;
                help_lines_of(gs, lang)[lines_before(gs, i) + 1 + j] == (
                    (width16(key) + width16(e.1)) as usize,
                    seq![(key, HelpStyle::Key), (e.1, HelpStyle::Label)],
                )
            }),
        forall|i: int|
            0 <= i < gs.len() ==> help_lines_of(gs, lang)[#[trigger] lines_before(gs, i)
                + gs[i].1.len() + 1] == (0usize, Seq::<(Seq<char>, HelpStyle)>::empty()),
{
    let column = key_column_width(gs);
    lemma_groups_lines_shape(gs, column);
    assert forall|i: int, j: int|
        0 <= i < gs.len() && 0 <= j < gs[i].1.len() implies ({
        let e = #[trigger] gs[i].1[j];
        let pad: int = if column > width16(e.0) {
            column - width16(e.0)
        } else {
            0
        };
        let key = " "@ + e.0 + Seq::new(pad as nat, |k: int| ' ') + " "@;
        help_lines_of(gs, lang)[lines_before(gs, i) + 1 + j] == (
            (width16(key) + width16(e.1)) as usize,
            seq![(key, HelpStyle::Key), (e.1, HelpStyle::Label)],
        )
    }) by {
        let e = gs[i].1[j];
        let pad: int = if column > width16(e.0) {
            column - width16(e.0)
        } else {
            0
        };
        assert(spaces(pad) =~= Seq::new(pad as nat, |k: int| ' '));
    }
}

fn key_column(groups: &Vec<HelpGroup>) -> (r: u16)
    ensures
        r == key_column_width(groups.deep_view()),
{
    let ghost gs = groups.deep_view();
    let mut widest: Option<u16> = None;
    let mut g: usize = 0;
    while g < groups.len()
        invariant
            g <= groups@.len(),
            gs == groups.deep_view(),
            widest == max_width(all_keys(gs.take(g as int))),
        decreases groups.len() - g,
    {
        let entries = &groups[g].1;
        let ghost es = entries.deep_view();
        let ghost before = all_keys(gs.take(g as int));
        assert(gs.take(g + 1).drop_last() =~= gs.take(g as int));
        assert(gs.take(g + 1).last() == gs[g as int]);
        assert(gs[g as int].1 == es);
        let mut e: usize = 0;
        while e < entries.len()
            invariant
                e <= entries@.len(),
                es == entries.deep_view(),
                widest == max_width(before + es.take(e as int).map_values(|x: EntryView| x.0)),
            decreases entries.len() - e,
        {
            let w = display_width_u16(entries[e].0.as_str());
            assert(es[e as int].0 == entries@[e as int].0@);
            let ghost ks = before + es.take(e + 1).map_values(|x: EntryView| x.0);
            assert(ks.drop_last() =~= before + es.take(e as int).map_values(|x: EntryView| x.0));
            assert(ks.last() == es[e as int].0);
            widest = match widest {
                None => Some(w),
                Some(m) => Some(
                    if w > m {
                        w
                    } else {
                        m
                    },
                ),
            };
            e = e + 1;
        }
        assert(es.take(e as int) =~= es);
        assert(all_keys(gs.take(g + 1)) =~= before + es.map_values(|x: EntryView| x.0));
        g = g + 1;
    }
    assert(gs.take(g as int) =~= gs);
    match widest {
        Some(m) => m,
        None => 8,
    }
}

fn pad_key(key: &str, column: u16) -> (r: String)
    ensures
        r@ == padded_key(key@, column),
{
    let w = display_width_u16(key);
    let padding: u16 = if column > w {
        column - w
    } else {
        0
    };
    let mut r = String::new();
    r.append(" ");
    r.append(key);
    let mut i: u16 = 0;
    proof {
        reveal_strlit(" ");
    }
    while i < padding
        invariant
            i <= padding,
            r@ == " "@ + key@ + spaces(i as int),
            " "@ == seq![' '],
        decreases padding - i,
    {
        r.append(" ");
        assert(r@ =~= " "@ + key@ + spaces(i + 1));
        i = i + 1;
    }
    r.append(" ");
    r
}

fn push_line(lines: &mut Vec<HelpLine>, line: HelpLine)
    ensures
        final(lines).deep_view() == old(lines).deep_view().push(line.deep_view()),
{
    let ghost before = lines.deep_view();
    let ghost lv = line.deep_view();
    lines.push(line);
    assert(lines.deep_view() =~= before.push(lv));
}

/// Lays out the (already filtered) help groups as overlay lines.
pub fn help_lines(groups: &Vec<HelpGroup>, lang: Language) -> (r: Vec<HelpLine>)
    ensures
        r.deep_view() == help_lines_of(groups.deep_view(), lang),
{
    let mut lines: Vec<HelpLine> = Vec::new();
    if groups.len() == 0 {
        let label = translate(lang, TranslationKey::NoMatchingKeybinds);
        let width = display_width_u16(label) as usize + 1;
        let mut spans: Vec<(String, HelpStyle)> = Vec::new();
        spans.push((" ".to_owned(), HelpStyle::Muted));
        spans.push((label.to_owned(), HelpStyle::Muted));
        assert(spans.deep_view() =~= seq![(" "@, HelpStyle::Muted), (label@, HelpStyle::Muted)]);
        push_line(&mut lines, HelpLine { width, spans });
        assert(lines.deep_view() =~= help_lines_of(groups.deep_view(), lang));
        return lines;
    }
    let column = key_column(groups);
    let ghost gs = groups.deep_view();
    let mut g: usize = 0;
    while g < groups.len()
        invariant
            g <= groups@.len(),
            gs == groups.deep_view(),
            column == key_column_width(gs),
            lines.deep_view() == groups_lines(gs.take(g as int), column),
        decreases groups.len() - g,
    {
        let heading = groups[g].0;
        let entries = &groups[g].1;
        let ghost es = entries.deep_view();
        let ghost before = lines.deep_view();
        assert(gs[g as int] == (heading@, es));
        let mut heading_text = String::new();
        heading_text.append(" ");
        heading_text.append(heading);
        let mut heading_spans: Vec<(String, HelpStyle)> = Vec::new();
        heading_spans.push((heading_text, HelpStyle::Heading));
        assert(heading_spans.deep_view() =~= seq![(" "@ + heading@, HelpStyle::Heading)]);
        let hw = display_width_u16(heading) as usize + 1;
        push_line(&mut lines, HelpLine { width: hw, spans: heading_spans });
        assert(lines.deep_view() =~= before + seq![heading_line(heading@)]);
        let mut e: usize = 0;
        while e < entries.len()
            invariant
                e <= entries@.len(),
                es == entries.deep_view(),
                lines.deep_view() == before + seq![heading_line(heading@)] + es.take(
                    e as int,
                ).map_values(|x: EntryView| entry_line(x, column)),
            decreases entries.len() - e,
        {
            let key = &entries[e].0;
            let label = &entries[e].1;
            assert(es[e as int] == (key@, label@));
            let padded = pad_key(key.as_str(), column);
            let width = display_width_u16(padded.as_str()) as usize + display_width_u16(
                label.as_str(),
            ) as usize;
            let mut spans: Vec<(String, HelpStyle)> = Vec::new();
            spans.push((padded, HelpStyle::Key));
            spans.push((label.clone(), HelpStyle::Label));
            assert(spans.deep_view() =~= seq![
                (padded_key(key@, column), HelpStyle::Key),
                (label@, HelpStyle::Label),
            ]);
            let ghost mid = lines.deep_view();
            push_line(&mut lines, HelpLine { width, spans });
            assert(lines.deep_view() =~= mid.push(entry_line(es[e as int], column)));
            assert(es.take(e + 1).map_values(|x: EntryView| entry_line(x, column)) =~= es.take(
                e as int,
            ).map_values(|x: EntryView| entry_line(x, column)).push(entry_line(es[e as int], column)));
            e = e + 1;
        }
        assert(es.take(e as int) =~= es);
        let blank: Vec<(String, HelpStyle)> = Vec::new();
        assert(blank.deep_view() =~= Seq::<(Seq<char>, HelpStyle)>::empty());
        push_line(&mut lines, HelpLine { width: 0, spans: blank });
        assert(gs.take(g + 1).drop_last() =~= gs.take(g as int));
        assert(gs.take(g + 1).last() == gs[g as int]);
        assert(lines.deep_view() =~= groups_lines(gs.take(g + 1), column));
        g = g + 1;
    }
    assert(gs.take(g as int) =~= gs);
    lines
}

/// The overlay lines for the given shortcut labels and search query: the help
/// groups, narrowed by the query, laid out.
pub fn keybind_help_lines(prefix_label: &str, kb: &KeybindLabels, query: &str, lang: Language) -> (r: Vec<
    HelpLine,
>)
    ensures
        r.deep_view() == help_lines_of(
            filtered_groups(help_groups(prefix_label@, *kb, lang), query@),
            lang,
        ),
{
    let groups = filter_keybind_help_groups(keybind_help_groups(prefix_label, kb, lang), query);
    help_lines(&groups, lang)
}

/// Whether the overlay's inner area is large enough to be drawn into.
pub fn overlay_fits(width: u16, height: u16) -> (r: bool)
    ensures
        r == (height >= 6 && width >= 20),
{
    !(height < 6 || width < 20)
}

/// The scroll state handed to the overlay's scrollbar: the offset from the
/// bottom (the maximum scroll less the current one, never below zero), the
/// maximum offset, and the visible rows (at least one).
pub fn help_scroll_metrics(max_scroll: u16, scroll: u16, body_height: u16) -> (r: (
    usize,
    usize,
    usize,
))
    ensures
        r.0 == (if max_scroll > scroll {
            max_scroll - scroll
        } else {
            0
        }),
        r.1 == max_scroll,
        r.2 == (if body_height > 1 {
            body_height
        } else {
            1
        }),
{
    let offset: u16 = if max_scroll > scroll {
        max_scroll - scroll
    } else {
        0
    };
    let rows: u16 = if body_height > 1 {
        body_height
    } else {
        1
    };
    (offset as usize, max_scroll as usize, rows as usize)
}

/// How a piece of the overlay's search row or footer is drawn.
#[derive(Debug, Clone, Copy, PartialEq, Eq, Structural)]
pub enum ChromeStyle {
    /// The search prompt (accent colour, bold).
    Prompt,
    /// The query being typed (text colour, bold).
    Query,
    /// A hint or separator (dim).
    Hint,
    /// A key name (text colour).
    Text,
}

impl DeepView for ChromeStyle {
    type V = ChromeStyle;

    open spec fn deep_view(&self) -> ChromeStyle {
        *self
    }
}

/// The overlay's fixed text: title, label of the close button, search row and
/// footer.
pub struct OverlayChrome {
    pub title: &'static str,
    pub close_label: &'static str,
    pub search_row: Vec<(String, ChromeStyle)>,
    pub footer: Vec<(String, ChromeStyle)>,
}

/// The value of the overlay's fixed text.
pub type ChromeView = (
    Seq<char>,
    Seq<char>,
    Seq<(Seq<char>, ChromeStyle)>,
    Seq<(Seq<char>, ChromeStyle)>,
);

impl DeepView for OverlayChrome {
    type V = ChromeView;

    open spec fn deep_view(&self) -> ChromeView {
        (self.title@, self.close_label@, self.search_row.deep_view(), self.footer.deep_view())
    }
}

/// The text of `key` in `lang`.
pub open spec fn tr_text(key: TranslationKey, lang: Language) -> Seq<char> {
    translation(lang, key)@
}

/// The overlay's fixed text. While the search field has focus the close
/// button reads "back", the search row shows the prompt and the query, and
/// the footer explains editing; otherwise the button reads "close", the row
/// invites pressing `/`, and the footer explains browsing.
pub open spec fn overlay_chrome_of(search_focused: bool, query: Seq<char>, lang: Language) -> ChromeView {
    let title = tr_text(TranslationKey::KeybindsLabel, lang);
    if search_focused {
        (
            title,
            tr_text(TranslationKey::Back, lang),
            seq![(" / "@, ChromeStyle::Prompt), (query, ChromeStyle::Query)],
            seq![
                (" "@ + tr_text(TranslationKey::FilterLabel, lang) + " "@, ChromeStyle::Hint),
                ("type/backspace"@, ChromeStyle::Text),
                (" · "@, ChromeStyle::Hint),
                (tr_text(TranslationKey::ClearLabel, lang) + " "@, ChromeStyle::Hint),
                ("ctrl+u"@, ChromeStyle::Text),
                (" · "@, ChromeStyle::Hint),
                (tr_text(TranslationKey::ScrollLabel, lang) + " "@, ChromeStyle::Hint),
                ("↑↓/pgup/pgdn"@, ChromeStyle::Text),
                (" · "@, ChromeStyle::Hint),
                (tr_text(TranslationKey::Back, lang) + " "@, ChromeStyle::Hint),
                ("esc"@, ChromeStyle::Text),
            ],
        )
    } else {
        (
            title,
            tr_text(TranslationKey::Close, lang),
            seq![(" "@ + tr_text(TranslationKey::PressSlashToFilter, lang), ChromeStyle::Hint)],
            seq![
                (" "@ + tr_text(TranslationKey::SearchLabel, lang) + " "@, ChromeStyle::Hint),
                ("/"@, ChromeStyle::Text),
                (" · "@, ChromeStyle::Hint),
                (tr_text(TranslationKey::ScrollLabel, lang) + " "@, ChromeStyle::Hint),
                ("j/k/↑↓/pgup/pgdn"@, ChromeStyle::Text),
                (" · "@, ChromeStyle::Hint),
                (tr_text(TranslationKey::Close, lang) + " "@, ChromeStyle::Hint),
                ("esc/enter"@, ChromeStyle::Text),
            ],
        )
    }
}

/// While the search field has focus, the close button reads "back" and the
/// search row shows the query itself after a ` / ` prompt; otherwise the
/// button reads "close" and the row is a single hint. The title is
/// "keybinds" either way.
pub proof fn lemma_overlay_chrome_follows_focus(query: Seq<char>, lang: Language)
    ensures
        overlay_chrome_of(true, query, lang).0 == translation(lang, TranslationKey::KeybindsLabel)@,
        overlay_chrome_of(false, query, lang).0 == translation(lang, TranslationKey::KeybindsLabel)@,
        overlay_chrome_of(true, query, lang).1 == translation(lang, TranslationKey::Back)@,
        overlay_chrome_of(false, query, lang).1 == translation(lang, TranslationKey::Close)@,
        overlay_chrome_of(true, query, lang).2 == seq![
            (" / "@, ChromeStyle::Prompt),
            (query, ChromeStyle::Query),
        ],
        overlay_chrome_of(false, query, lang).2.len() == 1,
{
}

fn push_piece(pieces: &mut Vec<(String, ChromeStyle)>, text: String, style: ChromeStyle)
    ensures
        final(pieces).deep_view() == old(pieces).deep_view().push((text@, style)),
{
    let ghost before = pieces.deep_view();
    pieces.push((text, style));
    assert(pieces.deep_view() =~= before.push((text@, style)));
}

/// `text` followed by a space.
fn then_space(text: &str) -> (r: String)
    ensures
        r@ == text@ + " "@,
{
    let mut r = text.to_owned();
    r.append(" ");
    r
}

/// A space, then `text`, then a space.
fn spaced(text: &str) -> (r: String)
    ensures
        r@ == " "@ + text@ + " "@,
{
    let mut r = " ".to_owned();
    r.append(text);
    r.append(" ");
    r
}

/// The overlay's fixed text for the given search state and language.
pub fn overlay_chrome(search_focused: bool, query: &str, lang: Language) -> (r: OverlayChrome)
    ensures
        r.deep_view() == overlay_chrome_of(search_focused, query@, lang),
{
    let title = translate(lang, TranslationKey::KeybindsLabel);
    let mut search_row: Vec<(String, ChromeStyle)> = Vec::new();
    let mut footer: Vec<(String, ChromeStyle)> = Vec::new();
    if search_focused {
        push_piece(&mut search_row, " / ".to_owned(), ChromeStyle::Prompt);
        push_piece(&mut search_row, query.to_owned(), ChromeStyle::Query);
        push_piece(&mut footer, spaced(translate(lang, TranslationKey::FilterLabel)), ChromeStyle::Hint);
        push_piece(&mut footer, "type/backspace".to_owned(), ChromeStyle::Text);
        push_piece(&mut footer, " · ".to_owned(), ChromeStyle::Hint);
        push_piece(&mut footer, then_space(translate(lang, TranslationKey::ClearLabel)), ChromeStyle::Hint);
        push_piece(&mut footer, "ctrl+u".to_owned(), ChromeStyle::Text);
        push_piece(&mut footer, " · ".to_owned(), ChromeStyle::Hint);
        push_piece(&mut footer, then_space(translate(lang, TranslationKey::ScrollLabel)), ChromeStyle::Hint);
        push_piece(&mut footer, "↑↓/pgup/pgdn".to_owned(), ChromeStyle::Text);
        push_piece(&mut footer, " · ".to_owned(), ChromeStyle::Hint);
        push_piece(&mut footer, then_space(translate(lang, TranslationKey::Back)), ChromeStyle::Hint);
        push_piece(&mut footer, "esc".to_owned(), ChromeStyle::Text);
        let r = OverlayChrome {
            title,
            close_label: translate(lang, TranslationKey::Back),
            search_row,
            footer,
        };
        assert(r.deep_view() =~= overlay_chrome_of(search_focused, query@, lang));
        r
    } else {
        let mut hint = " ".to_owned();
        hint.append(translate(lang, TranslationKey::PressSlashToFilter));
        push_piece(&mut search_row, hint, ChromeStyle::Hint);
        push_piece(&mut footer, spaced(translate(lang, TranslationKey::SearchLabel)), ChromeStyle::Hint);
        push_piece(&mut footer, "/".to_owned(), ChromeStyle::Text);
        push_piece(&mut footer, " · ".to_owned(), ChromeStyle::Hint);
        push_piece(&mut footer, then_space(translate(lang, TranslationKey::ScrollLabel)), ChromeStyle::Hint);
        push_piece(&mut footer, "j/k/↑↓/pgup/pgdn".to_owned(), ChromeStyle::Text);
        push_piece(&mut footer, " · ".to_owned(), ChromeStyle::Hint);
        push_piece(&mut footer, then_space(translate(lang, TranslationKey::Close)), ChromeStyle::Hint);
        push_piece(&mut footer, "esc/enter".to_owned(), ChromeStyle::Text);
        let r = OverlayChrome {
            title,
            close_label: translate(lang, TranslationKey::Close),
            search_row,
            footer,
        };
        assert(r.deep_view() =~= overlay_chrome_of(search_focused, query@, lang));
        r
    }
}

} // verus!
