//! Properties of the browser that span several keys, events or ticks.

use vstd::prelude::*;
use crate::app::{Action, Event, FocusedPanel, SingleRepoPanel};
use crate::input::{Key, KeyInput, Platform};
use crate::model::AppView;
use crate::model;
use crate::repo::{ContentEntry, RepoInfo};
use crate::selection::ListSelection;
use crate::tree::TreeNode;
use crate::tree;

verus! {

/// Every turn of the main loop keeps the state well formed: the tab index
/// stays 0 or 1.
pub proof fn law_turn_keeps_wf(v: AppView, event: Option<Event>, platform: Platform, now: u64)
    requires
        v.wf(),
    ensures
        model::turn_step(v, event, platform, now).0.wf(),
{
}

/// Once the program is marked to end, no turn unmarks it.
pub proof fn law_exit_is_sticky(v: AppView, event: Option<Event>, platform: Platform, now: u64)
    requires
        v.exit,
    ensures
        model::turn_step(v, event, platform, now).0.exit,
{
}

/// Esc and `q` end the program from every panel, whenever the platform lets
/// the key event through.
pub proof fn law_quit_keys_end(v: AppView, input: KeyInput, platform: Platform, now: u64)
    requires
        crate::input::is_quit_key(input.code),
        crate::input::dispatches(input, platform),
    ensures
        model::input_step(v, input, platform, now).0.exit,
{
}

/// On a platform other than Windows and Linux, key events change nothing and
/// ask for nothing.
pub proof fn law_other_platform_ignores_keys(v: AppView, input: KeyInput, now: u64)
    ensures
        model::input_step(v, input, Platform::Other, now) == (v, None::<Action>),
{
}

/// On Windows, key events other than presses change nothing and ask for
/// nothing.
pub proof fn law_windows_ignores_non_press(v: AppView, input: KeyInput, now: u64)
    requires
        !input.press,
    ensures
        model::input_step(v, input, Platform::Windows, now) == (v, None::<Action>),
{
}

/// Tab while the tabs have the focus switches to the other tab, and pressed
/// twice brings back the tab that was shown.
pub proof fn law_tab_twice_restores(v: AppView)
    requires
        v.wf(),
        v.focus == FocusedPanel::SingleRepo(SingleRepoPanel::Tabs),
    ensures
        model::single_repo_key(v, Key::Tab) == (AppView { selected_tab: (1 - v.selected_tab) as usize, ..v }),
        model::single_repo_key(model::single_repo_key(v, Key::Tab), Key::Tab) == v,
{
}

/// In the readme, the arrow keys do what `h`, `l`, `j` and `k` do.
pub proof fn law_description_arrows_match_letters(v: AppView)
    ensures
        model::description_key(v, Key::Left) == model::description_key(v, Key::Char('h')),
        model::description_key(v, Key::Right) == model::description_key(v, Key::Char('l')),
        model::description_key(v, Key::Down) == model::description_key(v, Key::Char('j')),
        model::description_key(v, Key::Up) == model::description_key(v, Key::Char('k')),
{
}

/// In the repository list, Left and Right do what `h` and `l` do, and Up and
/// Down move the selection as `k` and `j` do; the letters differ from the
/// arrows only in that they also scroll the readme back to the top.
pub proof fn law_list_arrows_match_letters(v: AppView, now: u64)
    ensures
        model::repos_key(v, Key::Left, now) == model::repos_key(v, Key::Char('h'), now),
        model::repos_key(v, Key::Right, now) == model::repos_key(v, Key::Char('l'), now),
        model::repos_key(v, Key::Char('k'), now) == (
            AppView { readme_scroll: 0, ..model::repos_key(v, Key::Up, now).0 },
            None::<Action>,
        ),
        model::repos_key(v, Key::Char('j'), now) == (
            AppView { readme_scroll: 0, ..model::repos_key(v, Key::Down, now).0 },
            None::<Action>,
        ),
{
}

/// Scrolling the readme down and then up returns it to where it was.
pub proof fn law_scroll_down_up_returns(v: AppView)
    requires
        v.readme_scroll < u16::MAX,
    ensures
        model::description_key(model::description_key(v, Key::Char('j')), Key::Char('k')) == v,
        model::description_key(model::description_key(v, Key::Down), Key::Up) == v,
{
}

/// Scrolling the readme up and then down returns it to where it was, except
/// at the top, where up stays and down then goes to the second line.
pub proof fn law_scroll_up_down(v: AppView)
    ensures
        v.readme_scroll > 0 ==> model::description_key(
            model::description_key(v, Key::Char('k')),
            Key::Char('j'),
        ) == v,
        v.readme_scroll > 0 ==> model::description_key(model::description_key(v, Key::Up), Key::Down) == v,
        v.readme_scroll == 0 ==> model::description_key(
            model::description_key(v, Key::Char('k')),
            Key::Char('j'),
        ) == (AppView { readme_scroll: 1, ..v }),
        v.readme_scroll == 0 ==> model::description_key(model::description_key(v, Key::Up), Key::Down)
            == (AppView { readme_scroll: 1, ..v }),
{
}

/// Moving the selection drops the shown readme and starts the wait for the
/// new one at that moment.
pub proof fn law_move_drops_readme(v: AppView, key: Key, now: u64)
    requires
        key == Key::Up || key == Key::Down || key == Key::Char('j') || key == Key::Char('k'),
    ensures
        model::repos_key(v, key, now).0.readme is None,
        model::repos_key(v, key, now).0.last_selection_change == Some(now),
        model::repos_key(v, key, now).0.list.selected is Some,
{
}

/// Before the selection has rested for the delay, a tick changes nothing and
/// asks for nothing.
pub proof fn law_tick_waits(v: AppView, now: u64)
    requires
        v.last_selection_change matches Some(t) && (now < t || now - t < model::SELECT_DELAY_NANOS),
    ensures
        model::tick_step(v, now) == (v, None::<Action>),
{
}

/// Once it has rested, a tick asks for the readme of the selected repository,
/// and a second tick does not ask again.
pub proof fn law_tick_fetches_once(v: AppView, now: u64, later: u64)
    requires
        v.last_selection_change matches Some(t) && now >= t && now - t >= model::SELECT_DELAY_NANOS,
        v.list.selected matches Some(i) && i < v.repos.len() && v.repos[i as int].owner is Some,
    ensures
        model::tick_step(v, now).1 == Some(
            Action::FetchReadme {
                owner: v.repos[v.list.selected->0 as int].owner->0,
                repo: v.repos[v.list.selected->0 as int].name,
            },
        ),
        model::tick_step(model::tick_step(v, now).0, later) == (model::tick_step(v, now).0, None::<Action>),
{
}

/// Once it has rested with nothing selected, a tick ends the wait and asks
/// for nothing.
pub proof fn law_tick_without_selection(v: AppView, now: u64)
    requires
        v.last_selection_change matches Some(t) && now >= t && now - t >= model::SELECT_DELAY_NANOS,
        v.list.selected is None,
    ensures
        model::tick_step(v, now) == (AppView { last_selection_change: None, ..v }, None::<Action>),
{
}

/// With no wait under way, a tick changes nothing and asks for nothing.
pub proof fn law_tick_idle(v: AppView, now: u64)
    requires
        v.last_selection_change is None,
    ensures
        model::tick_step(v, now) == (v, None::<Action>),
{
}

/// Only a move of the selection in the list starts a wait for a readme: from
/// a state with no wait under way, a turn whose event is anything else leaves
/// none under way.
pub proof fn law_only_moves_start_the_wait(v: AppView, event: Option<Event>, platform: Platform, now: u64)
    requires
        v.last_selection_change is None,
        !(event matches Some(Event::Input(input)) && crate::input::dispatches(input, platform)
            && v.focus == FocusedPanel::RepoList && (input.code == Key::Up || input.code == Key::Down
            || input.code == Key::Char('j') || input.code == Key::Char('k'))),
    ensures
        model::turn_step(v, event, platform, now).0.last_selection_change is None,
        model::turn_step(v, event, platform, now).1.len() <= 1,
{
}

/// On Linux every key event, whatever its kind, goes to the panel that has
/// the focus.
pub proof fn law_linux_dispatches_every_event(v: AppView, input: KeyInput, now: u64)
    ensures
        model::input_step(v, input, Platform::Linux, now) == match v.focus {
            FocusedPanel::RepoList => model::repos_key(v, input.code, now),
            FocusedPanel::Description => (model::description_key(v, input.code), None),
            FocusedPanel::SingleRepo(_) => (model::single_repo_key(v, input.code), None),
        },
{
}

/// On Windows a key press goes to the panel that has the focus, as on Linux.
pub proof fn law_windows_dispatches_presses(v: AppView, input: KeyInput, now: u64)
    requires
        input.press,
    ensures
        model::input_step(v, input, Platform::Windows, now) == model::input_step(
            v,
            input,
            Platform::Linux,
            now,
        ),
{
}

/// The browser starts in a state where `reachable_inv` holds.
pub proof fn law_start_is_reachable(repos: Seq<RepoInfo>)
    ensures
        model::initial(repos).reachable_inv(),
        (AppView {
            list: ListSelection { selected: Some(0usize), offset: 0 },
            ..model::initial(repos)
        }).reachable_inv(),
{
}

/// Every turn of the main loop, and every record of the renderer's list
/// selection, keeps `reachable_inv`: so in every state reached from the
/// start the current path is the root, no listing is kept aside, the chosen
/// repository is one of the list, every tree node is closed and top-level,
/// and the tab index is 0 or 1.
pub proof fn law_reachable_inv_kept(
    v: AppView,
    event: Option<Event>,
    platform: Platform,
    now: u64,
    list: ListSelection,
)
    requires
        v.reachable_inv(),
        model::turn_ok(v, event, platform, now),
    ensures
        model::turn_step(v, event, platform, now).0.reachable_inv(),
        (AppView { list, ..v }).reachable_inv(),
        (AppView {
            list: ListSelection { selected: Some(0usize), offset: v.list.offset },
            ..v
        }).reachable_inv(),
{
    let v1 = model::tick_step(v, now).0;
    assert(v1.reachable_inv());
    match event {
        Some(e) => {
            let v2 = model::event_step(v1, e, platform, now).0;
            match e {
                Event::FilesFetched(entries) => {
                    assert(tree::count_char(v1.current_path, '/') == 0);
                    let nodes = tree::nodes_of(entries@, 0);
                    assert(v2.file_tree == Some(nodes));
                },
                Event::Input(input) => {
                    if crate::input::dispatches(input, platform) && v1.focus == FocusedPanel::RepoList
                        && input.code == Key::Enter {
                        if let Some(i) = v1.list.selected {
                            assert(v2.chosen_repo == Some(v1.repos[i as int]));
                        }
                    }
                },
                _ => {},
            }
        },
        None => {},
    }
}

/// A fetched readme is shown as it came, and nothing else changes.
pub proof fn law_readme_shown(v: AppView, text: String, platform: Platform, now: u64)
    ensures
        model::event_step(v, Event::ReadmeFetched(text), platform, now) == (
            AppView { readme: Some(text), ..v },
            None::<Action>,
        ),
{
}

/// Enter in the list opens the selected repository and asks for its files;
/// with nothing selected it opens none and asks for nothing.
pub proof fn law_enter_opens_selected(v: AppView, now: u64)
    requires
        v.selection_in_range(),
    ensures
        model::repos_key(v, Key::Enter, now).0.focus == FocusedPanel::SingleRepo(SingleRepoPanel::Origin),
        model::repos_key(v, Key::Enter, now).0.chosen_repo == model::selected_repo(v),
        model::repos_key(v, Key::Enter, now).1 == match model::selected_repo(v) {
            Some(r) => Some(Action::FetchFiles { owner: r.owner->0, repo: r.name }),
            None => None,
        },
{
}

/// `B` on the chosen repository's screen goes back to the list, whichever of
/// its panels has the focus.
pub proof fn law_back_to_list(v: AppView, panel: SingleRepoPanel)
    requires
        v.focus == FocusedPanel::SingleRepo(panel),
    ensures
        model::single_repo_key(v, Key::Char('B')).focus == FocusedPanel::RepoList,
{
}

/// At the repository root a listing becomes the whole tree: one closed node
/// per entry, in order, at depth 0, a directory exactly when its type is
/// `"dir"`.
pub proof fn law_root_listing_is_tree(v: AppView, entries: Seq<ContentEntry>)
    requires
        v.current_path.len() == 0,
    ensures
        model::files_step(v, entries).file_tree matches Some(t) && {
            &&& t.len() == entries.len()
            &&& forall|i: int| 0 <= i < entries.len() ==> {
                &&& #[trigger] t[i].name == entries[i].name
                &&& t[i].path == entries[i].path
                &&& t[i].depth == 0
                &&& !t[i].is_open
                &&& t[i].is_dir == (entries[i].kind@ == "dir"@)
            }
        },
{
}

/// Inserting nodes after a position keeps the old tree: taking the inserted
/// block out gives it back, and the block sits right after the position.
pub proof fn law_insert_keeps_tree(t: Seq<TreeNode>, p: int, nodes: Seq<TreeNode>)
    requires
        0 <= p < t.len(),
    ensures
        tree::inserted_after(t, p, nodes).len() == t.len() + nodes.len(),
        tree::inserted_after(t, p, nodes).subrange(p + 1, p + 1 + nodes.len()) == nodes,
        tree::inserted_after(t, p, nodes).take(p + 1) + tree::inserted_after(t, p, nodes).skip(
            p + 1 + nodes.len(),
        ) == t,
{
    let r = tree::inserted_after(t, p, nodes);
    assert(r.subrange(p + 1, p + 1 + nodes.len()) =~= nodes);
    assert(r.take(p + 1) + r.skip(p + 1 + nodes.len()) =~= t);
}

/// Below the root, a listing goes right after the first node with the current
/// path, one level deeper per `/` in that path, and the rest of the tree stays.
pub proof fn law_listing_goes_below_its_directory(v: AppView, entries: Seq<ContentEntry>, p: int)
    requires
        v.current_path.len() > 0,
        v.file_tree matches Some(t) && tree::is_first_with_path(t, v.current_path, p),
    ensures
        model::files_step(v, entries).file_tree == Some(
            tree::inserted_after(
                v.file_tree->0,
                p,
                tree::nodes_of(entries, tree::count_char(v.current_path, '/') as usize),
            ),
        ),
{
    let t = v.file_tree->0;
    let q = choose|q: int| tree::is_first_with_path(t, v.current_path, q);
    tree::lemma_first_with_path_unique(t, v.current_path, p, q);
}

/// The browser starts on the list, with nothing selected, chosen, fetched or
/// scrolled, on the first tab, not ending.
pub proof fn law_initial_state(repos: Seq<RepoInfo>)
    ensures
        model::initial(repos).repos == repos,
        !model::initial(repos).exit,
        model::initial(repos).focus == FocusedPanel::RepoList,
        model::initial(repos).list.selected is None,
        model::initial(repos).list.offset == 0,
        model::initial(repos).chosen_repo is None,
        model::initial(repos).readme is None,
        model::initial(repos).last_selection_change is None,
        model::initial(repos).readme_scroll == 0,
        model::initial(repos).selected_tab == 0,
        model::initial(repos).file_tree is None,
        model::initial(repos).repo_files is None,
        model::initial(repos).current_path.len() == 0,
{
}

/// In the list, Up and `k` select the repository before the selected one
/// (staying on the first), or the last one (`usize::MAX` until the list is
/// drawn) when nothing is selected; they drop the shown readme, start the
/// wait for the new one now and keep everything else; `k` also scrolls the
/// readme back to the top.
pub proof fn law_list_up_selects_previous(v: AppView, now: u64)
    ensures
        model::repos_key(v, Key::Up, now) == (
            AppView {
                list: ListSelection {
                    selected: Some(
                        match v.list.selected {
                            Some(i) => if i == 0 { 0usize } else { (i - 1) as usize },
                            None => usize::MAX,
                        },
                    ),
                    offset: v.list.offset,
                },
                last_selection_change: Some(now),
                readme: None,
                ..v
            },
            None::<Action>,
        ),
        model::repos_key(v, Key::Char('k'), now) == (
            AppView {
                list: ListSelection {
                    selected: Some(
                        match v.list.selected {
                            Some(i) => if i == 0 { 0usize } else { (i - 1) as usize },
                            None => usize::MAX,
                        },
                    ),
                    offset: v.list.offset,
                },
                last_selection_change: Some(now),
                readme: None,
                readme_scroll: 0,
                ..v
            },
            None::<Action>,
        ),
{
}

/// In the list, Down and `j` select the repository after the selected one,
/// or the first one when nothing is selected; they drop the shown readme,
/// start the wait for the new one now and keep everything else; `j` also
/// scrolls the readme back to the top.
pub proof fn law_list_down_selects_next(v: AppView, now: u64)
    ensures
        model::repos_key(v, Key::Down, now) == (
            AppView {
                list: ListSelection {
                    selected: Some(
                        match v.list.selected {
                            Some(i) => if i == usize::MAX { i } else { (i + 1) as usize },
                            None => 0usize,
                        },
                    ),
                    offset: v.list.offset,
                },
                last_selection_change: Some(now),
                readme: None,
                ..v
            },
            None::<Action>,
        ),
        model::repos_key(v, Key::Char('j'), now) == (
            AppView {
                list: ListSelection {
                    selected: Some(
                        match v.list.selected {
                            Some(i) => if i == usize::MAX { i } else { (i + 1) as usize },
                            None => 0usize,
                        },
                    ),
                    offset: v.list.offset,
                },
                last_selection_change: Some(now),
                readme: None,
                readme_scroll: 0,
                ..v
            },
            None::<Action>,
        ),
{
}

/// With repository `i` selected, Up and `k` select repository `i - 1`, and
/// Down and `j` repository `i + 1` (staying on the first and on the largest
/// index).
pub proof fn law_list_moves_by_one(v: AppView, i: usize, now: u64)
    requires
        v.list.selected == Some(i),
    ensures
        i > 0 ==> model::repos_key(v, Key::Up, now).0.list.selected == Some((i - 1) as usize),
        i > 0 ==> model::repos_key(v, Key::Char('k'), now).0.list.selected == Some((i - 1) as usize),
        i == 0 ==> model::repos_key(v, Key::Up, now).0.list.selected == Some(0usize),
        i < usize::MAX ==> model::repos_key(v, Key::Down, now).0.list.selected == Some((i + 1) as usize),
        i < usize::MAX ==> model::repos_key(v, Key::Char('j'), now).0.list.selected == Some((i + 1) as usize),
{
}

/// In the list, `h` and Left focus the list, `l` and Right the readme, and
/// nothing else changes.
pub proof fn law_list_focus_keys(v: AppView, now: u64)
    ensures
        model::repos_key(v, Key::Char('h'), now) == (AppView { focus: FocusedPanel::RepoList, ..v }, None::<Action>),
        model::repos_key(v, Key::Left, now) == (AppView { focus: FocusedPanel::RepoList, ..v }, None::<Action>),
        model::repos_key(v, Key::Char('l'), now) == (AppView { focus: FocusedPanel::Description, ..v }, None::<Action>),
        model::repos_key(v, Key::Right, now) == (AppView { focus: FocusedPanel::Description, ..v }, None::<Action>),
{
}

/// In the list, Enter chooses the selected repository (none when nothing is
/// selected), focuses its file panel and asks for the files of the chosen
/// repository; nothing else changes.
pub proof fn law_list_enter(v: AppView, now: u64)
    ensures
        model::repos_key(v, Key::Enter, now) == (
            AppView {
                chosen_repo: match v.list.selected {
                    Some(i) => Some(v.repos[i as int]),
                    None => None,
                },
                focus: FocusedPanel::SingleRepo(SingleRepoPanel::Origin),
                ..v
            },
            match v.list.selected {
                Some(i) => Some(
                    Action::FetchFiles { owner: v.repos[i as int].owner->0, repo: v.repos[i as int].name },
                ),
                None => None,
            },
        ),
{
}

/// In every panel, Esc and `q` mark the program to end and change nothing
/// else.
pub proof fn law_quit_changes_nothing_else(v: AppView, now: u64)
    ensures
        model::repos_key(v, Key::Esc, now) == (AppView { exit: true, ..v }, None::<Action>),
        model::repos_key(v, Key::Char('q'), now) == (AppView { exit: true, ..v }, None::<Action>),
        model::description_key(v, Key::Esc) == (AppView { exit: true, ..v }),
        model::description_key(v, Key::Char('q')) == (AppView { exit: true, ..v }),
        model::single_repo_key(v, Key::Esc) == (AppView { exit: true, ..v }),
        model::single_repo_key(v, Key::Char('q')) == (AppView { exit: true, ..v }),
{
}

/// In the list, a key other than the ones it knows changes nothing and asks
/// for nothing.
pub proof fn law_list_other_keys(v: AppView, key: Key, now: u64)
    requires
        key != Key::Esc && key != Key::Char('q') && key != Key::Char('k') && key != Key::Char('j')
            && key != Key::Char('h') && key != Key::Char('l') && key != Key::Up && key != Key::Down
            && key != Key::Left && key != Key::Right && key != Key::Enter,
    ensures
        model::repos_key(v, key, now) == (v, None::<Action>),
{
}

/// In the readme panel, `h` and Left focus the list and `l` and Right keep
/// the focus on the readme; `j` and Down scroll one line down; `k` and Up
/// scroll one line up, staying at the top; nothing else changes.
pub proof fn law_description_keys(v: AppView)
    ensures
        model::description_key(v, Key::Char('h')) == (AppView { focus: FocusedPanel::RepoList, ..v }),
        model::description_key(v, Key::Left) == (AppView { focus: FocusedPanel::RepoList, ..v }),
        model::description_key(v, Key::Char('l')) == (AppView { focus: FocusedPanel::Description, ..v }),
        model::description_key(v, Key::Right) == (AppView { focus: FocusedPanel::Description, ..v }),
        v.readme_scroll < u16::MAX ==> model::description_key(v, Key::Char('j')) == (AppView {
            readme_scroll: (v.readme_scroll + 1) as u16,
            ..v
        }),
        v.readme_scroll < u16::MAX ==> model::description_key(v, Key::Down) == (AppView {
            readme_scroll: (v.readme_scroll + 1) as u16,
            ..v
        }),
        model::description_key(v, Key::Char('k')) == (AppView {
            readme_scroll: if v.readme_scroll == 0 { 0u16 } else { (v.readme_scroll - 1) as u16 },
            ..v
        }),
        model::description_key(v, Key::Up) == (AppView {
            readme_scroll: if v.readme_scroll == 0 { 0u16 } else { (v.readme_scroll - 1) as u16 },
            ..v
        }),
{
}

/// In the readme panel, a key other than the ones it knows changes nothing.
pub proof fn law_description_other_keys(v: AppView, key: Key)
    requires
        key != Key::Esc && key != Key::Char('q') && key != Key::Char('k') && key != Key::Char('j')
            && key != Key::Char('h') && key != Key::Char('l') && key != Key::Up && key != Key::Down
            && key != Key::Left && key != Key::Right,
    ensures
        model::description_key(v, key) == v,
{
}

/// On the chosen repository's screen, `B` goes back to the list, `h` focuses
/// the file panel, `l` the tabs; Tab switches to the other tab while the tabs
/// have the focus and changes nothing otherwise; every other key changes
/// nothing.
pub proof fn law_single_repo_keys(v: AppView, key: Key)
    requires
        v.wf(),
    ensures
        model::single_repo_key(v, Key::Char('B')) == (AppView { focus: FocusedPanel::RepoList, ..v }),
        model::single_repo_key(v, Key::Char('h')) == (AppView {
            focus: FocusedPanel::SingleRepo(SingleRepoPanel::Origin),
            ..v
        }),
        model::single_repo_key(v, Key::Char('l')) == (AppView {
            focus: FocusedPanel::SingleRepo(SingleRepoPanel::Tabs),
            ..v
        }),
        v.focus == FocusedPanel::SingleRepo(SingleRepoPanel::Tabs) ==> model::single_repo_key(v, Key::Tab)
            == (AppView { selected_tab: (1 - v.selected_tab) as usize, ..v }),
        v.focus != FocusedPanel::SingleRepo(SingleRepoPanel::Tabs) ==> model::single_repo_key(v, Key::Tab)
            == v,
        (key != Key::Esc && key != Key::Char('q') && key != Key::Char('B') && key != Key::Char('h')
            && key != Key::Char('l') && key != Key::Tab) ==> model::single_repo_key(v, key) == v,
{
}

/// A turn with no event is a tick alone.
pub proof fn law_turn_without_event(v: AppView, platform: Platform, now: u64)
    ensures
        model::turn_step(v, None, platform, now).0 == model::tick_step(v, now).0,
        model::turn_step(v, None, platform, now).1 == match model::tick_step(v, now).1 {
            Some(a) => seq![a],
            None => Seq::<Action>::empty(),
        },
{
}

/// A turn with an event is the tick, then the event handled in the state the
/// tick left; the fetches come in that order: the tick's, then the event's.
pub proof fn law_turn_is_tick_then_event(v: AppView, e: Event, platform: Platform, now: u64)
    ensures
        model::turn_step(v, Some(e), platform, now).0 == model::event_step(
            model::tick_step(v, now).0,
            e,
            platform,
            now,
        ).0,
        model::turn_step(v, Some(e), platform, now).1 == (match model::tick_step(v, now).1 {
            Some(a) => seq![a],
            None => Seq::<Action>::empty(),
        }) + (match model::event_step(model::tick_step(v, now).0, e, platform, now).1 {
            Some(a) => seq![a],
            None => Seq::<Action>::empty(),
        }),
{
}

/// A turn whose event is a fetched readme shows that readme.
pub proof fn law_turn_shows_fetched_readme(v: AppView, text: String, platform: Platform, now: u64)
    ensures
        model::turn_step(v, Some(Event::ReadmeFetched(text)), platform, now).0 == (AppView {
            readme: Some(text),
            ..model::tick_step(v, now).0
        }),
        model::turn_step(v, Some(Event::ReadmeFetched(text)), platform, now).0.readme == Some(text),
{
}

/// Once the selection has rested, the tick ends the wait and changes nothing
/// else.
pub proof fn law_tick_ends_wait(v: AppView, now: u64)
    requires
        v.last_selection_change matches Some(t) && now >= t && now - t >= model::SELECT_DELAY_NANOS,
    ensures
        model::tick_step(v, now).0 == (AppView { last_selection_change: None, ..v }),
{
}

/// A listing at the root changes nothing but the tree.
pub proof fn law_listing_changes_only_the_tree(v: AppView, entries: Seq<ContentEntry>)
    ensures
        (AppView { file_tree: v.file_tree, ..model::files_step(v, entries) }) == v,
{
}

/// Counting a character over two joined strings adds the counts of each.
pub proof fn law_count_char_concat(a: Seq<char>, b: Seq<char>, c: char)
    ensures
        tree::count_char(a + b, c) == tree::count_char(a, c) + tree::count_char(b, c),
    decreases b.len(),
{
    if b.len() == 0 {
        assert(a + b =~= a);
    } else {
        law_count_char_concat(a, b.drop_last(), c);
        assert((a + b).drop_last() =~= a + b.drop_last());
    }
}

/// A single character counts once when it is the one counted, else not at
/// all; the empty string counts nothing.
pub proof fn law_count_char_single(x: char, c: char)
    ensures
        tree::count_char(seq![x], c) == if x == c { 1nat } else { 0nat },
        tree::count_char(Seq::<char>::empty(), c) == 0,
{
    assert(seq![x].drop_last() =~= Seq::<char>::empty());
    assert(tree::count_char(Seq::<char>::empty(), c) == 0);
    assert(seq![x].last() == x);
}

/// Every node's line starts with one space per level of depth, whatever its
/// kind, then its marker (an open or a closed folder, or a file), then its
/// name.
pub proof fn law_tree_line_layout(n: TreeNode)
    ensures
        tree::line_of(n).take(n.depth as int) == Seq::new(n.depth as nat, |i: int| ' '),
        tree::line_of(n).skip(n.depth as int) == (if n.is_dir {
            if n.is_open {
                "▼ 📂 "@
            } else {
                "▶ 📁 "@
            }
        } else {
            "  📄 "@
        }) + n.name@,
{
    let sp = Seq::new(n.depth as nat, |i: int| ' ');
    let rest = tree::icon_of(n) + n.name@;
    assert(tree::line_of(n) =~= sp + rest);
    assert((sp + rest).take(n.depth as int) =~= sp);
    assert((sp + rest).skip(n.depth as int) =~= rest);
}

/// An optional text shows as itself when present and as the default when
/// absent; the tabs' contents are "Tab 1 Content" and "Tab 2 Content".
pub proof fn law_shown_texts(t: String, d: Seq<char>)
    ensures
        crate::view::text_or(Some(t), d) == t@,
        crate::view::text_or(None, d) == d,
        crate::view::tab_text(0) == "Tab 1 Content"@,
        crate::view::tab_text(1) == "Tab 2 Content"@,
{
}

/// The readme waits 300 ms for the selection to rest.
pub proof fn law_delay_is_300_ms()
    ensures
        model::SELECT_DELAY_NANOS == 300_000_000,
{
}

/// A key event is handled as the key alone.
pub proof fn law_event_input_is_key(v: AppView, input: KeyInput, platform: Platform, now: u64)
    ensures
        model::event_step(v, Event::Input(input), platform, now) == model::input_step(v, input, platform, now),
{
}

/// The first node with a path has that path, and no node before it has it.
pub proof fn law_first_with_path(t: Seq<TreeNode>, path: Seq<char>, p: int, j: int)
    requires
        tree::is_first_with_path(t, path, p),
    ensures
        0 <= p < t.len(),
        t[p].path@ == path,
        0 <= j < p ==> t[j].path@ != path,
{
}

/// Below the root, a listing whose directory is not in the tree changes
/// nothing.
pub proof fn law_listing_without_its_directory(v: AppView, entries: Seq<ContentEntry>)
    requires
        v.current_path.len() > 0,
        v.file_tree matches Some(t) ==> forall|j: int| 0 <= j < t.len() ==> (#[trigger] t[j]).path@ != v.current_path,
    ensures
        model::files_step(v, entries) == v,
{
}

} // verus!
