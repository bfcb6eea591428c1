use repo_browser::app::{Action, App, Event, FocusedPanel, SingleRepoPanel};
use repo_browser::input::{Key, KeyInput, Platform};
use repo_browser::model::SELECT_DELAY_NANOS;
use repo_browser::repo::{ContentEntry, RepoInfo};
use repo_browser::selection::ListSelection;
use repo_browser::tree::{insert_after, position_of_path, slash_count, tree_line, TreeNode};
use repo_browser::view::Screen;

fn repo(name: &str, owner: Option<&str>) -> RepoInfo {
    RepoInfo {
        name: name.to_string(),
        description: None,
        owner: owner.map(|o| o.to_string()),
        pushed_date: None,
    }
}

fn press(code: Key) -> KeyInput {
    KeyInput { code, press: true }
}

fn release(code: Key) -> KeyInput {
    KeyInput { code, press: false }
}

fn started(names: &[&str]) -> App {
    let repos = names.iter().map(|n| repo(n, Some("octo"))).collect();
    let mut app = App::new(repos);
    app.start();
    app
}

fn entry(name: &str, path: &str, kind: &str) -> ContentEntry {
    ContentEntry { name: name.to_string(), path: path.to_string(), kind: kind.to_string() }
}

fn node(name: &str, depth: usize, is_dir: bool, is_open: bool) -> TreeNode {
    TreeNode { name: name.to_string(), path: name.to_string(), depth, is_dir, is_open }
}

#[test]
fn new_app_shows_the_list() {
    let app = App::new(vec![repo("a", None)]);
    assert!(!app.exit());
    assert_eq!(app.focused_panel(), FocusedPanel::RepoList);
    assert_eq!(app.list_state(), ListSelection { selected: None, offset: 0 });
    assert_eq!(app.readme_scroll(), 0);
    assert_eq!(app.selected_tab(), 0);
    assert!(app.selected_readme().is_none());
    assert!(app.chosen_repo().is_none());
    assert!(app.file_tree().is_none());
    assert_eq!(app.screen(), Screen::RepoList);
}

#[test]
fn start_selects_the_first_repository() {
    let app = started(&["a", "b"]);
    assert_eq!(app.list_state().selected, Some(0));
}

#[test]
fn quit_keys_end_the_program_from_each_panel() {
    let mut app = started(&["a"]);
    app.check_os(press(Key::Char('q')), Platform::Linux, 0);
    assert!(app.exit());

    let mut app = started(&["a"]);
    app.check_os(press(Key::Right), Platform::Linux, 0);
    assert_eq!(app.focused_panel(), FocusedPanel::Description);
    app.check_os(press(Key::Esc), Platform::Linux, 0);
    assert!(app.exit());

    let mut app = started(&["a"]);
    app.check_os(press(Key::Enter), Platform::Linux, 0);
    app.check_os(press(Key::Esc), Platform::Linux, 0);
    assert!(app.exit());
}

#[test]
fn j_and_k_move_the_selection_and_reset_the_readme() {
    let mut app = started(&["a", "b", "c"]);
    app.handle_event(Event::ReadmeFetched("hello".to_string()), Platform::Linux, 0);
    assert_eq!(app.selected_readme().as_deref(), Some("hello"));
    let r = app.check_os(press(Key::Char('j')), Platform::Linux, 5);
    assert!(r.is_none());
    assert_eq!(app.list_state().selected, Some(1));
    assert!(app.selected_readme().is_none());
    assert_eq!(app.last_selection_change(), Some(5));
    app.check_os(press(Key::Char('k')), Platform::Linux, 6);
    assert_eq!(app.list_state().selected, Some(0));
    app.check_os(press(Key::Up), Platform::Linux, 7);
    assert_eq!(app.list_state().selected, Some(0));
    app.check_os(press(Key::Down), Platform::Linux, 8);
    assert_eq!(app.list_state().selected, Some(1));
}

#[test]
fn previous_with_nothing_selected_picks_the_largest_index() {
    let mut app = App::new(vec![repo("a", None)]);
    app.check_os(press(Key::Up), Platform::Linux, 0);
    assert_eq!(app.list_state().selected, Some(usize::MAX));
    assert!(!app.selection_in_range());
}

#[test]
fn letters_reset_the_scroll_but_arrows_do_not() {
    let mut app = started(&["a", "b"]);
    app.check_os(press(Key::Char('l')), Platform::Linux, 0);
    app.check_os(press(Key::Char('j')), Platform::Linux, 0);
    app.check_os(press(Key::Down), Platform::Linux, 0);
    assert_eq!(app.readme_scroll(), 2);
    app.check_os(press(Key::Left), Platform::Linux, 0);
    assert_eq!(app.focused_panel(), FocusedPanel::RepoList);
    app.check_os(press(Key::Down), Platform::Linux, 0);
    assert_eq!(app.readme_scroll(), 2);
    app.check_os(press(Key::Char('j')), Platform::Linux, 0);
    assert_eq!(app.readme_scroll(), 0);
}

#[test]
fn readme_scroll_stays_at_the_top() {
    let mut app = started(&["a"]);
    app.check_os(press(Key::Right), Platform::Linux, 0);
    app.check_os(press(Key::Up), Platform::Linux, 0);
    assert_eq!(app.readme_scroll(), 0);
    app.check_os(press(Key::Char('j')), Platform::Linux, 0);
    app.check_os(press(Key::Char('k')), Platform::Linux, 0);
    assert_eq!(app.readme_scroll(), 0);
}

#[test]
fn windows_ignores_releases_and_other_platforms_ignore_everything() {
    let mut app = started(&["a"]);
    app.check_os(release(Key::Char('q')), Platform::Windows, 0);
    assert!(!app.exit());
    app.check_os(press(Key::Char('q')), Platform::Other, 0);
    assert!(!app.exit());
    app.check_os(release(Key::Char('q')), Platform::Linux, 0);
    assert!(app.exit());
    let mut app = started(&["a"]);
    app.check_os(press(Key::Char('q')), Platform::Windows, 0);
    assert!(app.exit());
}

#[test]
fn enter_opens_the_repository_and_asks_for_its_files() {
    let mut app = started(&["alpha", "beta"]);
    app.check_os(press(Key::Char('j')), Platform::Linux, 0);
    let r = app.check_os(press(Key::Enter), Platform::Linux, 0);
    match r {
        Some(Action::FetchFiles { owner, repo }) => {
            assert_eq!(owner, "octo");
            assert_eq!(repo, "beta");
        }
        _ => panic!("expected a files fetch"),
    }
    assert_eq!(app.chosen_repo().as_ref().map(|r| r.name.as_str()), Some("beta"));
    assert_eq!(app.focused_panel(), FocusedPanel::SingleRepo(SingleRepoPanel::Origin));
    assert_eq!(app.screen(), Screen::SingleRepo);
    assert_eq!(app.single_repo_title(), "beta");
}

#[test]
fn enter_with_nothing_selected_asks_for_nothing() {
    let mut app = App::new(vec![repo("a", None)]);
    let r = app.check_os(press(Key::Enter), Platform::Linux, 0);
    assert!(r.is_none());
    assert!(app.chosen_repo().is_none());
    assert_eq!(app.single_repo_title(), "No Repo Selected");
}

#[test]
fn tabs_switch_only_while_focused_and_b_goes_back() {
    let mut app = started(&["a"]);
    app.check_os(press(Key::Enter), Platform::Linux, 0);
    app.check_os(press(Key::Tab), Platform::Linux, 0);
    assert_eq!(app.selected_tab(), 0);
    app.check_os(press(Key::Char('l')), Platform::Linux, 0);
    assert_eq!(app.focused_panel(), FocusedPanel::SingleRepo(SingleRepoPanel::Tabs));
    assert_eq!(app.tabs().content, "Tab 1 Content");
    app.check_os(press(Key::Tab), Platform::Linux, 0);
    assert_eq!(app.selected_tab(), 1);
    assert_eq!(app.tabs().content, "Tab 2 Content");
    assert!(app.tabs().focused);
    app.check_os(press(Key::Tab), Platform::Linux, 0);
    assert_eq!(app.selected_tab(), 0);
    app.check_os(press(Key::Char('h')), Platform::Linux, 0);
    assert_eq!(app.focused_panel(), FocusedPanel::SingleRepo(SingleRepoPanel::Origin));
    app.check_os(press(Key::Char('B')), Platform::Linux, 0);
    assert_eq!(app.focused_panel(), FocusedPanel::RepoList);
}

#[test]
fn readme_is_fetched_once_after_the_selection_rests() {
    let mut app = started(&["a", "b"]);
    app.check_os(press(Key::Char('j')), Platform::Linux, 1_000);
    assert!(app.tick(1_000 + SELECT_DELAY_NANOS - 1).is_none());
    assert_eq!(app.last_selection_change(), Some(1_000));
    match app.tick(1_000 + SELECT_DELAY_NANOS) {
        Some(Action::FetchReadme { owner, repo }) => {
            assert_eq!(owner, "octo");
            assert_eq!(repo, "b");
        }
        _ => panic!("expected a readme fetch"),
    }
    assert!(app.last_selection_change().is_none());
    assert!(app.tick(u64::MAX).is_none());
}

#[test]
fn tick_with_a_clock_behind_waits() {
    let mut app = started(&["a"]);
    app.check_os(press(Key::Down), Platform::Linux, 500_000_000);
    app.set_list_state(ListSelection { selected: Some(0), offset: 0 });
    assert!(app.tick(0).is_none());
}

#[test]
fn fetches_need_an_owner() {
    let mut app = App::new(vec![repo("solo", None)]);
    app.start();
    assert!(app.selection_in_range());
    assert!(!app.selection_fetchable());
    let ev = Some(Event::Input(press(Key::Enter)));
    assert!(!app.turn_allowed(&ev, Platform::Linux, 0));
    let ev = Some(Event::Input(press(Key::Char('k'))));
    assert!(app.turn_allowed(&ev, Platform::Linux, 0));
    app.run_turn(ev, Platform::Linux, 0);
    assert!(app.turn_allowed(&None, Platform::Linux, SELECT_DELAY_NANOS - 1));
    assert!(!app.turn_allowed(&None, Platform::Linux, SELECT_DELAY_NANOS));
}

#[test]
fn run_turn_ticks_then_handles_the_event() {
    let mut app = started(&["a", "b"]);
    let ev = Some(Event::Input(press(Key::Char('j'))));
    assert!(app.turn_allowed(&ev, Platform::Linux, 0));
    let acts = app.run_turn(ev, Platform::Linux, 0);
    assert!(acts.is_empty());
    let ev = Some(Event::Input(press(Key::Enter)));
    let acts = app.run_turn(ev, Platform::Linux, SELECT_DELAY_NANOS);
    assert_eq!(acts.len(), 2);
    assert!(matches!(&acts[0], Action::FetchReadme { repo, .. } if repo == "b"));
    assert!(matches!(&acts[1], Action::FetchFiles { repo, .. } if repo == "b"));
}

#[test]
fn turn_allowed_refuses_enter_past_the_list() {
    let mut app = App::new(vec![]);
    app.start();
    let ev = Some(Event::Input(press(Key::Enter)));
    assert!(!app.turn_allowed(&ev, Platform::Linux, 0));
    assert!(app.turn_allowed(&ev, Platform::Other, 0));
    app.set_list_state(ListSelection { selected: None, offset: 0 });
    assert!(app.turn_allowed(&ev, Platform::Linux, 0));
}

#[test]
fn turn_allowed_refuses_scrolling_past_the_largest_scroll() {
    let mut app = started(&["a"]);
    app.check_os(press(Key::Right), Platform::Linux, 0);
    for _ in 0..u16::MAX {
        app.check_os(press(Key::Down), Platform::Linux, 0);
    }
    assert_eq!(app.readme_scroll(), u16::MAX);
    let ev = Some(Event::Input(press(Key::Down)));
    assert!(!app.turn_allowed(&ev, Platform::Linux, 0));
    let ev = Some(Event::Input(press(Key::Up)));
    assert!(app.turn_allowed(&ev, Platform::Linux, 0));
}

#[test]
fn root_listing_becomes_the_tree() {
    let mut app = started(&["a"]);
    app.check_os(press(Key::Enter), Platform::Linux, 0);
    let entries = vec![entry("src", "src", "dir"), entry("README.md", "README.md", "file")];
    app.handle_event(Event::FilesFetched(entries), Platform::Linux, 0);
    let tree = app.file_tree().as_ref().unwrap();
    assert_eq!(tree.len(), 2);
    assert_eq!(tree[0].name, "src");
    assert!(tree[0].is_dir);
    assert!(!tree[1].is_dir);
    assert_eq!(tree[1].depth, 0);
    let files = app.origin_files();
    assert_eq!(files.lines, vec!["▶ 📁 src".to_string(), "  📄 README.md".to_string()]);
    assert!(files.focused);
    assert_eq!(files.commit_title, "Latest Commit: Unknown");
}

#[test]
fn commit_title_shows_the_push_day() {
    let mut r = repo("a", Some("o"));
    r.pushed_date = Some("2024-05-01".to_string());
    let mut app = App::new(vec![r]);
    app.start();
    app.check_os(press(Key::Enter), Platform::Linux, 0);
    let files = app.origin_files();
    assert_eq!(files.commit_title, "Latest Commit: 2024-05-01");
    assert!(files.lines.is_empty());
}

#[test]
fn repo_list_and_detail_views() {
    let mut r = repo("b", Some("o"));
    r.description = Some("desc".to_string());
    let mut app = App::new(vec![repo("a", Some("o")), r]);
    app.start();
    let list = app.repo_list();
    assert_eq!(list.names, vec!["a".to_string(), "b".to_string()]);
    assert!(list.focused);
    let d = app.repo_detail().unwrap();
    assert_eq!(d.title, "a");
    assert_eq!(d.description, "No Description Available");
    assert_eq!(d.readme, "Loading...");
    assert!(!d.focused);
    app.check_os(press(Key::Char('j')), Platform::Linux, 0);
    app.handle_event(Event::ReadmeFetched("# b".to_string()), Platform::Linux, 0);
    app.check_os(press(Key::Char('l')), Platform::Linux, 0);
    app.check_os(press(Key::Char('j')), Platform::Linux, 0);
    let d = app.repo_detail().unwrap();
    assert_eq!(d.title, "b");
    assert_eq!(d.description, "desc");
    assert_eq!(d.readme, "# b");
    assert_eq!(d.scroll, 1);
    assert!(d.focused);
    let empty = App::new(vec![]);
    assert!(empty.repo_detail().is_none());
}

#[test]
fn slash_count_counts_separators() {
    assert_eq!(slash_count(&String::new()), 0);
    assert_eq!(slash_count(&"src".to_string()), 0);
    assert_eq!(slash_count(&"src/a/b.rs".to_string()), 2);
    assert_eq!(slash_count(&"/é/".to_string()), 2);
}

#[test]
fn tree_lines_indent_by_depth() {
    assert_eq!(tree_line(&node("x", 0, false, false)), "  📄 x");
    assert_eq!(tree_line(&node("d", 2, true, false)), "  ▶ 📁 d");
    assert_eq!(tree_line(&node("o", 1, true, true)), " ▼ 📂 o");
}

#[test]
fn listing_is_inserted_after_its_directory() {
    let mut tree = vec![node("a", 0, true, false), node("b", 0, false, false)];
    insert_after(&mut tree, 0, vec![node("a/x", 1, false, false), node("a/y", 1, false, false)]);
    let names: Vec<&str> = tree.iter().map(|n| n.name.as_str()).collect();
    assert_eq!(names, vec!["a", "a/x", "a/y", "b"]);
    assert_eq!(position_of_path(&tree, &"a/y".to_string()), Some(2));
    assert_eq!(position_of_path(&tree, &"zzz".to_string()), None);
}
