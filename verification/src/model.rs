//! The abstract state of the browser and what each key, event and clock tick
//! does to it.

use vstd::prelude::*;
use crate::app::{Action, Event, FocusedPanel, SingleRepoPanel};
use crate::input::{Key, KeyInput, Platform};
use crate::input;
use crate::repo::{ContentEntry, RepoInfo};
use crate::selection::ListSelection;
use crate::selection;
use crate::tree::TreeNode;
use crate::tree;

verus! {

/// How long after the last move of the repository selection its readme is
/// fetched, in nanoseconds (300 ms): moving quickly through the list fetches
/// only the readme the selection rests on.
pub const SELECT_DELAY_NANOS: u64 = 300_000_000;

/// The state of the browser, with collections as sequences.
pub struct AppView {
    pub exit: bool,
    pub repos: Seq<RepoInfo>,
    pub chosen_repo: Option<RepoInfo>,
    pub list: ListSelection,
    pub readme: Option<String>,
    /// When the repository selection last moved, in nanoseconds of the clock
    /// that the caller reads, while its readme is still to be fetched.
    pub last_selection_change: Option<u64>,
    pub focus: FocusedPanel,
    pub readme_scroll: u16,
    pub selected_tab: usize,
    pub repo_files: Option<Seq<ContentEntry>>,
    pub file_tree: Option<Seq<TreeNode>>,
    pub file_tree_state: ListSelection,
    pub current_path: Seq<char>,
}

impl AppView {
    /// The one invariant of the state: the tab index names one of the two
    /// tabs.
    pub open spec fn wf(self) -> bool {
        self.selected_tab < 2
    }

    /// The repository selection, if any, names a repository of the list.
    pub open spec fn selection_in_range(self) -> bool {
        match self.list.selected {
            Some(i) => i < self.repos.len(),
            None => true,
        }
    }

    /// The repository selection, if any, names a repository of the list that
    /// has an owner, so that its readme and files can be fetched.
    pub open spec fn selection_fetchable(self) -> bool {
        match self.list.selected {
            Some(i) => i < self.repos.len() && self.repos[i as int].owner is Some,
            None => true,
        }
    }

    /// What holds in every state that the browser reaches from its start:
    /// the tab index names one of the two tabs, the current path stays the
    /// root and no listing is kept aside, the chosen repository is one of the
    /// list, and every node of the file tree is a closed top-level node.
    pub open spec fn reachable_inv(self) -> bool {
        &&& self.wf()
        &&& self.current_path.len() == 0
        &&& self.repo_files is None
        &&& (self.chosen_repo matches Some(r) ==> self.repos.contains(r))
        &&& (self.file_tree matches Some(t) ==> forall|i: int|
            0 <= i < t.len() ==> (#[trigger] t[i]).depth == 0 && !t[i].is_open)
    }
}

/// The state right after start-up with a given list of repositories.
pub open spec fn initial(repos: Seq<RepoInfo>) -> AppView {
    AppView {
        exit: false,
        repos,
        chosen_repo: None,
        list: ListSelection { selected: None, offset: 0 },
        readme: None,
        last_selection_change: None,
        focus: FocusedPanel::RepoList,
        readme_scroll: 0,
        selected_tab: 0,
        repo_files: None,
        file_tree: None,
        file_tree_state: ListSelection { selected: None, offset: 0 },
        current_path: Seq::empty(),
    }
}

/// The state with the program marked to end when `key` is a quit key.
pub open spec fn after_quit_check(v: AppView, key: Key) -> AppView {
    if input::is_quit_key(key) {
        AppView { exit: true, ..v }
    } else {
        v
    }
}

/// A key in a panel of the chosen repository: `B` goes back to the list, `h`
/// and `l` focus the file tree and the tabs, Tab switches tabs while the tabs
/// have the focus.
pub open spec fn single_repo_key(v: AppView, key: Key) -> AppView {
    let v = after_quit_check(v, key);
    match key {
        Key::Char(c) => {
            if c == 'B' {
                AppView { focus: FocusedPanel::RepoList, ..v }
            } else if c == 'h' {
                AppView { focus: FocusedPanel::SingleRepo(SingleRepoPanel::Origin), ..v }
            } else if c == 'l' {
                AppView { focus: FocusedPanel::SingleRepo(SingleRepoPanel::Tabs), ..v }
            } else {
                v
            }
        },
        Key::Tab => {
            if v.focus == FocusedPanel::SingleRepo(SingleRepoPanel::Tabs) {
                AppView { selected_tab: ((v.selected_tab + 1) % 2) as usize, ..v }
            } else {
                v
            }
        },
        _ => v,
    }
}

/// The readme scrolled one line down.
pub open spec fn scrolled_down(v: AppView) -> AppView {
    AppView { readme_scroll: (v.readme_scroll + 1) as u16, ..v }
}

/// The readme scrolled one line up, staying at the top.
pub open spec fn scrolled_up(v: AppView) -> AppView {
    AppView { readme_scroll: if v.readme_scroll == 0 { 0 } else { (v.readme_scroll - 1) as u16 }, ..v }
}

/// A key while the readme has the focus: `h`/Left focus the list, `l`/Right
/// the readme, `j`/Down and `k`/Up scroll it.
pub open spec fn description_key(v: AppView, key: Key) -> AppView {
    let v = after_quit_check(v, key);
    match key {
        Key::Char(c) => {
            if c == 'h' {
                AppView { focus: FocusedPanel::RepoList, ..v }
            } else if c == 'l' {
                AppView { focus: FocusedPanel::Description, ..v }
            } else if c == 'j' {
                scrolled_down(v)
            } else if c == 'k' {
                scrolled_up(v)
            } else {
                v
            }
        },
        Key::Left => AppView { focus: FocusedPanel::RepoList, ..v },
        Key::Right => AppView { focus: FocusedPanel::Description, ..v },
        Key::Down => scrolled_down(v),
        Key::Up => scrolled_up(v),
        _ => v,
    }
}

/// The selection moved to `selected` at time `now`: the shown readme is
/// dropped and the fetch of the new one waits for the selection to rest;
/// with `reset_scroll` the readme's scroll goes back to the top.
pub open spec fn selection_moved(v: AppView, selected: usize, now: u64, reset_scroll: bool) -> AppView {
    AppView {
        list: ListSelection { selected: Some(selected), offset: v.list.offset },
        last_selection_change: Some(now),
        readme: None,
        readme_scroll: if reset_scroll { 0 } else { v.readme_scroll },
        ..v
    }
}

/// The fetch of the file listing of `chosen`, if a repository was chosen.
pub open spec fn files_action(chosen: Option<RepoInfo>) -> Option<Action> {
    match chosen {
        Some(r) => Some(Action::FetchFiles { owner: r.owner->0, repo: r.name }),
        None => None,
    }
}

/// The repository under the selection, if any.
pub open spec fn selected_repo(v: AppView) -> Option<RepoInfo> {
    match v.list.selected {
        Some(i) => Some(v.repos[i as int]),
        None => None,
    }
}

/// A key while the repository list has the focus: `k`/Up and `j`/Down move
/// the selection (the letters also scroll the readme back to the top), `h`/Left
/// and `l`/Right focus the list or the readme, Enter opens the selected
/// repository and asks for its files.
pub open spec fn repos_key(v: AppView, key: Key, now: u64) -> (AppView, Option<Action>) {
    let v = after_quit_check(v, key);
    match key {
        Key::Char(c) => {
            if c == 'k' {
                (selection_moved(v, selection::previous_index(v.list.selected), now, true), None)
            } else if c == 'j' {
                (selection_moved(v, selection::next_index(v.list.selected), now, true), None)
            } else if c == 'h' {
                (AppView { focus: FocusedPanel::RepoList, ..v }, None)
            } else if c == 'l' {
                (AppView { focus: FocusedPanel::Description, ..v }, None)
            } else {
                (v, None)
            }
        },
        Key::Up => (selection_moved(v, selection::previous_index(v.list.selected), now, false), None),
        Key::Down => (selection_moved(v, selection::next_index(v.list.selected), now, false), None),
        Key::Enter => {
            let chosen = selected_repo(v);
            (
                AppView {
                    chosen_repo: chosen,
                    focus: FocusedPanel::SingleRepo(SingleRepoPanel::Origin),
                    ..v
                },
                files_action(chosen),
            )
        },
        Key::Left => (AppView { focus: FocusedPanel::RepoList, ..v }, None),
        Key::Right => (AppView { focus: FocusedPanel::Description, ..v }, None),
        _ => (v, None),
    }
}

/// A key event, handed to the panel that has the focus when the platform
/// lets it through.
pub open spec fn input_step(v: AppView, input: KeyInput, platform: Platform, now: u64) -> (
    AppView,
    Option<Action>,
) {
    if input::dispatches(input, platform) {
        match v.focus {
            FocusedPanel::RepoList => repos_key(v, input.code, now),
            FocusedPanel::Description => (description_key(v, input.code), None),
            FocusedPanel::SingleRepo(_) => (single_repo_key(v, input.code), None),
        }
    } else {
        (v, None)
    }
}

/// The inputs on which handling a key event is defined: Enter in the list
/// needs a selection that names a repository with an owner, and scrolling
/// the readme down needs room below the largest scroll.
pub open spec fn input_ok(v: AppView, input: KeyInput, platform: Platform) -> bool {
    input::dispatches(input, platform) ==> {
        &&& (v.focus == FocusedPanel::RepoList && input.code == Key::Enter) ==> v.selection_fetchable()
        &&& (v.focus == FocusedPanel::Description && input::is_scroll_down_key(input.code))
            ==> v.readme_scroll < u16::MAX
    }
}

/// The time since the selection last moved has reached the delay.
pub open spec fn delay_elapsed(v: AppView, now: u64) -> bool {
    match v.last_selection_change {
        Some(t) => now >= t && now - t >= SELECT_DELAY_NANOS,
        None => false,
    }
}

/// The fetch of the readme of the selected repository, if any.
pub open spec fn readme_action(v: AppView) -> Option<Action> {
    match selected_repo(v) {
        Some(r) => Some(Action::FetchReadme { owner: r.owner->0, repo: r.name }),
        None => None,
    }
}

/// A tick of the clock: once the selection has rested for the delay, its
/// readme is fetched, once.
pub open spec fn tick_step(v: AppView, now: u64) -> (AppView, Option<Action>) {
    if delay_elapsed(v, now) {
        (AppView { last_selection_change: None, ..v }, readme_action(v))
    } else {
        (v, None)
    }
}

/// The tree after a directory listing arrived for the current path: at the
/// root the listing becomes the whole tree; below it, its nodes go right after
/// the first node with the current path, one level deeper per `/` in that
/// path, and the tree stays as it is when there is no such node.
pub open spec fn files_step(v: AppView, entries: Seq<ContentEntry>) -> AppView {
    let depth = tree::count_char(v.current_path, '/') as usize;
    let nodes = tree::nodes_of(entries, depth);
    if v.current_path.len() == 0 {
        AppView { file_tree: Some(nodes), ..v }
    } else {
        match v.file_tree {
            Some(t) => {
                if exists|p: int| tree::is_first_with_path(t, v.current_path, p) {
                    let p = choose|p: int| tree::is_first_with_path(t, v.current_path, p);
                    AppView { file_tree: Some(tree::inserted_after(t, p, nodes)), ..v }
                } else {
                    v
                }
            },
            None => v,
        }
    }
}

/// An event: a key, a fetched readme (shown from then on) or a fetched
/// directory listing.
pub open spec fn event_step(v: AppView, event: Event, platform: Platform, now: u64) -> (
    AppView,
    Option<Action>,
) {
    match event {
        Event::Input(input) => input_step(v, input, platform, now),
        Event::ReadmeFetched(text) => (AppView { readme: Some(text), ..v }, None),
        Event::FilesFetched(entries) => (files_step(v, entries@), None),
    }
}

/// The inputs on which handling an event is defined.
pub open spec fn event_ok(v: AppView, event: Event, platform: Platform) -> bool {
    match event {
        Event::Input(input) => input_ok(v, input, platform),
        _ => true,
    }
}

/// The inputs on which a tick is defined: a readme is fetched only for a
/// selection that names a repository with an owner.
pub open spec fn tick_ok(v: AppView, now: u64) -> bool {
    delay_elapsed(v, now) ==> v.selection_fetchable()
}

/// The actions of an optional action, as a sequence.
pub open spec fn actions_of(a: Option<Action>) -> Seq<Action> {
    match a {
        Some(x) => seq![x],
        None => Seq::empty(),
    }
}

/// One turn of the main loop: a tick of the clock, then the event that
/// arrived, if any.
pub open spec fn turn_step(v: AppView, event: Option<Event>, platform: Platform, now: u64) -> (
    AppView,
    Seq<Action>,
) {
    let (v1, a1) = tick_step(v, now);
    match event {
        Some(e) => {
            let (v2, a2) = event_step(v1, e, platform, now);
            (v2, actions_of(a1) + actions_of(a2))
        },
        None => (v1, actions_of(a1)),
    }
}

/// The inputs on which a turn of the main loop is defined.
pub open spec fn turn_ok(v: AppView, event: Option<Event>, platform: Platform, now: u64) -> bool {
    &&& tick_ok(v, now)
    &&& match event {
        Some(e) => event_ok(tick_step(v, now).0, e, platform),
        None => true,
    }
}

} // verus!
