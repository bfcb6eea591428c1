//! The browser's state and the handlers that change it: keys, fetched data
//! and the clock. The caller performs the fetches that the handlers ask for
//! and feeds their results back as events.

use vstd::prelude::*;
use crate::input::{Key, KeyInput, Platform};
use crate::model::{AppView, SELECT_DELAY_NANOS};
use crate::model;
use crate::repo::{ContentEntry, RepoInfo};
use crate::selection::{list_select_first, list_select_next, list_select_previous, list_state_default, ListSelection};
use crate::tree::{insert_after, nodes_from_entries, position_of_path, slash_count, tree_lines, TreeNode};
use crate::view::{string_or, OriginFiles, RepoDetail, RepoListView, Screen, TabsView};
use crate::view;

verus! {

/// A panel of the chosen repository's screen.
#[derive(Clone, Copy, PartialEq, Eq, Structural, Debug)]
pub enum SingleRepoPanel {
    Origin,
    Local,
    Tabs,
}

/// The panel that receives the keys.
#[derive(Clone, Copy, PartialEq, Eq, Structural, Debug)]
pub enum FocusedPanel {
    RepoList,
    /// The readme of the selected repository.
    Description,
    SingleRepo(SingleRepoPanel),
}

/// What reaches the browser from outside: a key, a fetched readme, a fetched
/// directory listing.
pub enum Event {
    Input(KeyInput),
    ReadmeFetched(String),
    FilesFetched(Vec<ContentEntry>),
}

/// Work the browser asks its caller to do; the result comes back as an
/// `Event`. The owner is the repository owner's login.
pub enum Action {
    FetchReadme { owner: String, repo: String },
    FetchFiles { owner: String, repo: String },
}

/// The browser.
pub struct App {
    exit: bool,
    repos: Vec<RepoInfo>,
    chosen_repo: Option<RepoInfo>,
    list_state: ListSelection,
    selected_readme: Option<String>,
    last_selection_change: Option<u64>,
    focused_panel: FocusedPanel,
    readme_scroll: u16,
    selected_tab: usize,
    repo_files: Option<Vec<ContentEntry>>,
    file_tree: Option<Vec<TreeNode>>,
    file_tree_state: ListSelection,
    current_path: String,
}

impl View for App {
    type V = AppView;

    closed spec fn view(&self) -> AppView {
        AppView {
            exit: self.exit,
            repos: self.repos@,
            chosen_repo: self.chosen_repo,
            list: self.list_state,
            readme: self.selected_readme,
            last_selection_change: self.last_selection_change,
            focus: self.focused_panel,
            readme_scroll: self.readme_scroll,
            selected_tab: self.selected_tab,
            repo_files: match self.repo_files {
                Some(f) => Some(f@),
                None => None,
            },
            file_tree: match self.file_tree {
                Some(t) => Some(t@),
                None => None,
            },
            file_tree_state: self.file_tree_state,
            current_path: self.current_path@,
        }
    }
}

impl App {
    /// The browser over the user's repositories, showing the list, with
    /// nothing selected yet.
    pub fn new(repos: Vec<RepoInfo>) -> (app: App)
        ensures
            app@ == model::initial(repos@),
            app@.wf(),
    {
        App {
            exit: false,
            repos,
            chosen_repo: None,
            list_state: list_state_default(),
            selected_readme: None,
            last_selection_change: None,
            focused_panel: FocusedPanel::RepoList,
            readme_scroll: 0,
            selected_tab: 0,
            repo_files: None,
            file_tree: None,
            file_tree_state: list_state_default(),
            current_path: String::new(),
        }
    }

    /// The start of the main loop: the first repository is selected.
    pub fn start(&mut self)
        requires
            old(self)@.wf(),
        ensures
            final(self)@ == (AppView {
                list: ListSelection { selected: Some(0usize), offset: old(self)@.list.offset },
                ..old(self)@
            }),
            final(self)@.wf(),
    {
        self.list_state = list_select_first(self.list_state);
    }

    /// Handles a key event for the panel that has the focus, when the platform
    /// lets it through; returns the fetch it asks for, if any.
    pub fn check_os(&mut self, input: KeyInput, platform: Platform, now: u64) -> (r: Option<Action>)
        requires
            old(self)@.wf(),
            model::input_ok(old(self)@, input, platform),
        ensures
            (final(self)@, r) == model::input_step(old(self)@, input, platform, now),
            final(self)@.wf(),
    {
        let go = match platform {
            Platform::Windows => input.press,
            Platform::Linux => true,
            Platform::Other => false,
        };
        if !go {
            return None;
        }
        match self.focused_panel {
            FocusedPanel::RepoList => self.handle_key_event_repos(input.code, now),
            FocusedPanel::Description => {
                self.handle_key_event_description(input.code);
                None
            },
            FocusedPanel::SingleRepo(_) => {
                self.handle_key_event_single_repo(input.code);
                None
            },
        }
    }

    fn handle_key_event_single_repo(&mut self, key: Key)
        requires
            old(self)@.wf(),
        ensures
            final(self)@ == model::single_repo_key(old(self)@, key),
            final(self)@.wf(),
    {
        if key == Key::Esc || key == Key::Char('q') {
            self.exit = true;
        }
        match key {
            Key::Char(c) => match c {
                'B' => self.focused_panel = FocusedPanel::RepoList,
                'h' => self.focused_panel = FocusedPanel::SingleRepo(SingleRepoPanel::Origin),
                'l' => self.focused_panel = FocusedPanel::SingleRepo(SingleRepoPanel::Tabs),
                _ => {},
            },
            Key::Tab => {
                if self.focused_panel == FocusedPanel::SingleRepo(SingleRepoPanel::Tabs) {
                    self.selected_tab = (self.selected_tab + 1) % 2;
                }
            },
            _ => {},
        }
    }

    fn handle_key_event_description(&mut self, key: Key)
        requires
            old(self)@.wf(),
            crate::input::is_scroll_down_key(key) ==> old(self)@.readme_scroll < u16::MAX,
        ensures
            final(self)@ == model::description_key(old(self)@, key),
            final(self)@.wf(),
    {
        if key == Key::Esc || key == Key::Char('q') {
            self.exit = true;
        }
        match key {
            Key::Char(c) => match c {
                'h' => self.focused_panel = FocusedPanel::RepoList,
                'l' => self.focused_panel = FocusedPanel::Description,
                'j' => self.readme_scroll = self.readme_scroll + 1,
                'k' => self.readme_scroll = self.readme_scroll.saturating_sub(1),
                _ => {},
            },
            Key::Left => self.focused_panel = FocusedPanel::RepoList,
            Key::Right => self.focused_panel = FocusedPanel::Description,
            Key::Down => self.readme_scroll = self.readme_scroll + 1,
            Key::Up => self.readme_scroll = self.readme_scroll.saturating_sub(1),
            _ => {},
        }
    }

    fn handle_key_event_repos(&mut self, key: Key, now: u64) -> (r: Option<Action>)
        requires
            old(self)@.wf(),
            key == Key::Enter ==> old(self)@.selection_fetchable(),
        ensures
            (final(self)@, r) == model::repos_key(old(self)@, key, now),
            final(self)@.wf(),
    {
        if key == Key::Esc || key == Key::Char('q') {
            self.exit = true;
        }
        match key {
            Key::Char(c) => match c {
                'k' => {
                    self.list_state = list_select_previous(self.list_state);
                    self.last_selection_change = Some(now);
                    self.selected_readme = None;
                    self.readme_scroll = 0;
                    None
                },
                'j' => {
                    self.list_state = list_select_next(self.list_state);
                    self.last_selection_change = Some(now);
                    self.selected_readme = None;
                    self.readme_scroll = 0;
                    None
                },
                'h' => {
                    self.focused_panel = FocusedPanel::RepoList;
                    None
                },
                'l' => {
                    self.focused_panel = FocusedPanel::Description;
                    None
                },
                _ => None,
            },
            Key::Up => {
                self.list_state = list_select_previous(self.list_state);
                self.last_selection_change = Some(now);
                self.selected_readme = None;
                None
            },
            Key::Down => {
                self.list_state = list_select_next(self.list_state);
                self.last_selection_change = Some(now);
                self.selected_readme = None;
                None
            },
            Key::Enter => {
                self.chosen_repo = match self.list_state.selected {
                    Some(index) => Some(self.repos[index].copy()),
                    None => None,
                };
                self.focused_panel = FocusedPanel::SingleRepo(SingleRepoPanel::Origin);
                self.fetch_origin_files()
            },
            Key::Left => {
                self.focused_panel = FocusedPanel::RepoList;
                None
            },
            Key::Right => {
                self.focused_panel = FocusedPanel::Description;
                None
            },
            _ => None,
        }
    }

    /// The fetch of the readme of the selected repository.
    fn on_select(&self) -> (r: Option<Action>)
        requires
            self@.selection_fetchable(),
        ensures
            r == model::readme_action(self@),
    {
        match self.list_state.selected {
            Some(index) => {
                let repo = &self.repos[index];
                let owner = repo.owner.as_ref().unwrap().clone();
                Some(Action::FetchReadme { owner, repo: repo.name.clone() })
            },
            None => None,
        }
    }

    /// The fetch of the file listing of the chosen repository.
    fn fetch_origin_files(&self) -> (r: Option<Action>)
        requires
            self@.chosen_repo matches Some(repo) ==> repo.owner is Some,
        ensures
            r == model::files_action(self@.chosen_repo),
    {
        match &self.chosen_repo {
            Some(repo) => {
                let owner = repo.owner.as_ref().unwrap().clone();
                Some(Action::FetchFiles { owner, repo: repo.name.clone() })
            },
            None => None,
        }
    }

    /// A tick of the clock at `now` (nanoseconds): once the selection has
    /// rested for `SELECT_DELAY_NANOS`, asks for its readme.
    pub fn tick(&mut self, now: u64) -> (r: Option<Action>)
        requires
            old(self)@.wf(),
            model::tick_ok(old(self)@, now),
        ensures
            (final(self)@, r) == model::tick_step(old(self)@, now),
            final(self)@.wf(),
    {
        match self.last_selection_change {
            Some(last_change) => {
                if now >= last_change && now - last_change >= SELECT_DELAY_NANOS {
                    self.last_selection_change = None;
                    self.on_select()
                } else {
                    None
                }
            },
            None => None,
        }
    }

    /// Takes in a directory listing of the current path.
    fn files_fetched(&mut self, entries: Vec<ContentEntry>)
        requires
            old(self)@.wf(),
        ensures
            final(self)@ == model::files_step(old(self)@, entries@),
            final(self)@.wf(),
    {
        let depth = slash_count(&self.current_path);
        let new_nodes = nodes_from_entries(&entries, depth);
        if self.current_path.as_str().unicode_len() == 0 {
            self.file_tree = Some(new_nodes);
        } else {
            match self.file_tree.take() {
                Some(mut tree) => {
                    let ghost old_tree = tree@;
                    match position_of_path(&tree, &self.current_path) {
                        Some(pos) => {
                            proof {
                                let q = choose|p: int|
                                    crate::tree::is_first_with_path(old_tree, self.current_path@, p);
                                crate::tree::lemma_first_with_path_unique(
                                    old_tree,
                                    self.current_path@,
                                    pos as int,
                                    q,
                                );
                            }
                            insert_after(&mut tree, pos, new_nodes);
                        },
                        None => {},
                    }
                    self.file_tree = Some(tree);
                },
                None => {},
            }
        }
    }

    /// Handles one event; returns the fetch it asks for, if any.
    pub fn handle_event(&mut self, event: Event, platform: Platform, now: u64) -> (r: Option<Action>)
        requires
            old(self)@.wf(),
            model::event_ok(old(self)@, event, platform),
        ensures
            (final(self)@, r) == model::event_step(old(self)@, event, platform, now),
            final(self)@.wf(),
    {
        match event {
            Event::Input(input) => self.check_os(input, platform, now),
            Event::ReadmeFetched(text) => {
                self.selected_readme = Some(text);
                None
            },
            Event::FilesFetched(entries) => {
                self.files_fetched(entries);
                None
            },
        }
    }
}

impl App {
    /// Whether the repository selection, if any, names a repository of the
    /// list.
    pub fn selection_in_range(&self) -> (r: bool)
        ensures
            r == self@.selection_in_range(),
    {
        match self.list_state.selected {
            Some(i) => i < self.repos.len(),
            None => true,
        }
    }

    /// Whether the selection, if any, names a repository of the list that has
    /// an owner.
    pub fn selection_fetchable(&self) -> (r: bool)
        ensures
            r == self@.selection_fetchable(),
    {
        match self.list_state.selected {
            Some(i) => i < self.repos.len() && self.repos[i].owner.is_some(),
            None => true,
        }
    }

    /// Whether `run_turn` is defined on these inputs (see `model::turn_ok`):
    /// where it is not, the handler would index past the repository list,
    /// fetch for a repository without an owner, or scroll past the largest
    /// scroll.
    pub fn turn_allowed(&self, event: &Option<Event>, platform: Platform, now: u64) -> (r: bool)
        ensures
            r == model::turn_ok(self@, *event, platform, now),
    {
        let in_range = self.selection_fetchable();
        let fires = match self.last_selection_change {
            Some(t) => now >= t && now - t >= SELECT_DELAY_NANOS,
            None => false,
        };
        if fires && !in_range {
            return false;
        }
        match event {
            Some(Event::Input(input)) => {
                let go = match platform {
                    Platform::Windows => input.press,
                    Platform::Linux => true,
                    Platform::Other => false,
                };
                if !go {
                    true
                } else if self.focused_panel == FocusedPanel::RepoList && input.code == Key::Enter {
                    in_range
                } else if self.focused_panel == FocusedPanel::Description && (input.code
                    == Key::Char('j') || input.code == Key::Down) {
                    self.readme_scroll < u16::MAX
                } else {
                    true
                }
            },
            _ => true,
        }
    }

    /// One turn of the main loop at `now` (nanoseconds): the clock tick, then
    /// the event that arrived, if any; returns the fetches asked for, in order.
    pub fn run_turn(&mut self, event: Option<Event>, platform: Platform, now: u64) -> (r: Vec<Action>)
        requires
            old(self)@.wf(),
            model::turn_ok(old(self)@, event, platform, now),
        ensures
            (final(self)@, r@) == model::turn_step(old(self)@, event, platform, now),
            final(self)@.wf(),
    {
        let mut actions: Vec<Action> = Vec::new();
        let ticked = self.tick(now);
        match ticked {
            Some(a) => actions.push(a),
            None => {},
        }
        match event {
            Some(e) => {
                let handled = self.handle_event(e, platform, now);
                match handled {
                    Some(a) => actions.push(a),
                    None => {},
                }
            },
            None => {},
        }
        assert(actions@ =~= model::turn_step(old(self)@, event, platform, now).1);
        actions
    }

    /// Records the list selection as the renderer left it (it keeps the
    /// selection within the list and scrolls it into view).
    pub fn set_list_state(&mut self, list: ListSelection)
        requires
            old(self)@.wf(),
        ensures
            final(self)@ == (AppView { list, ..old(self)@ }),
            final(self)@.wf(),
    {
        self.list_state = list;
    }

    /// The list selection.
    pub fn list_state(&self) -> (r: ListSelection)
        ensures
            r == self@.list,
    {
        self.list_state
    }

    /// Whether the program is to end.
    pub fn exit(&self) -> (r: bool)
        ensures
            r == self@.exit,
    {
        self.exit
    }

    /// The panel that has the focus.
    pub fn focused_panel(&self) -> (r: FocusedPanel)
        ensures
            r == self@.focus,
    {
        self.focused_panel
    }

    /// How far the readme is scrolled.
    pub fn readme_scroll(&self) -> (r: u16)
        ensures
            r == self@.readme_scroll,
    {
        self.readme_scroll
    }

    /// The selected tab.
    pub fn selected_tab(&self) -> (r: usize)
        ensures
            r == self@.selected_tab,
    {
        self.selected_tab
    }

    /// The fetched readme of the selected repository, if it has come.
    pub fn selected_readme(&self) -> (r: &Option<String>)
        ensures
            *r == self@.readme,
    {
        &self.selected_readme
    }

    /// The repository opened with Enter, if any.
    pub fn chosen_repo(&self) -> (r: &Option<RepoInfo>)
        ensures
            *r == self@.chosen_repo,
    {
        &self.chosen_repo
    }

    /// The file tree of the chosen repository, once its listing has come.
    pub fn file_tree(&self) -> (r: &Option<Vec<TreeNode>>)
        ensures
            match *r {
                Some(t) => self@.file_tree == Some(t@),
                None => self@.file_tree is None,
            },
    {
        &self.file_tree
    }

    /// When the selection last moved, while its readme is still to be fetched.
    pub fn last_selection_change(&self) -> (r: Option<u64>)
        ensures
            r == self@.last_selection_change,
    {
        self.last_selection_change
    }

    /// The screen to draw: the chosen repository's while one of its panels has
    /// the focus, the list otherwise.
    pub fn screen(&self) -> (r: Screen)
        ensures
            r == (match self@.focus {
                FocusedPanel::SingleRepo(_) => Screen::SingleRepo,
                _ => Screen::RepoList,
            }),
    {
        match self.focused_panel {
            FocusedPanel::SingleRepo(_) => Screen::SingleRepo,
            _ => Screen::RepoList,
        }
    }

    /// The repository list: every name in order, focused while the list has
    /// the focus.
    pub fn repo_list(&self) -> (r: RepoListView)
        ensures
            r.names@.len() == self@.repos.len(),
            forall|i: int| 0 <= i < self@.repos.len() ==> #[trigger] r.names@[i] == self@.repos[i].name,
            r.focused == (self@.focus == FocusedPanel::RepoList),
    {
        let mut names: Vec<String> = Vec::new();
        let mut i: usize = 0;
        while i < self.repos.len()
            invariant
                i <= self.repos@.len(),
                names@.len() == i,
                forall|j: int| 0 <= j < i ==> #[trigger] names@[j] == self.repos@[j].name,
            decreases self.repos@.len() - i,
        {
            names.push(self.repos[i].name.clone());
            i = i + 1;
        }
        RepoListView { names, focused: self.focused_panel == FocusedPanel::RepoList }
    }

    /// The details of the selected repository, if one is selected: its name,
    /// its description (or a note that there is none), its readme (or a note
    /// that it is loading) with its scroll, focused while the readme has the
    /// focus.
    pub fn repo_detail(&self) -> (r: Option<RepoDetail>)
        requires
            self@.selection_in_range(),
        ensures
            match self@.list.selected {
                None => r is None,
                Some(i) => r matches Some(d) && {
                    &&& d.title == self@.repos[i as int].name
                    &&& d.description@ == view::text_or(
                        self@.repos[i as int].description,
                        "No Description Available"@,
                    )
                    &&& d.readme@ == view::text_or(self@.readme, "Loading..."@)
                    &&& d.scroll == self@.readme_scroll
                    &&& d.focused == (self@.focus == FocusedPanel::Description)
                },
            },
    {
        match self.list_state.selected {
            Some(index) => {
                let repo = &self.repos[index];
                Some(
                    RepoDetail {
                        title: repo.name.clone(),
                        description: string_or(&repo.description, "No Description Available"),
                        readme: string_or(&self.selected_readme, "Loading..."),
                        scroll: self.readme_scroll,
                        focused: self.focused_panel == FocusedPanel::Description,
                    },
                )
            },
            None => None,
        }
    }

    /// The title of the chosen repository's screen: its name, or a note that
    /// none is chosen.
    pub fn single_repo_title(&self) -> (r: String)
        ensures
            r@ == (match self@.chosen_repo {
                Some(repo) => repo.name@,
                None => "No Repo Selected"@,
            }),
    {
        match &self.chosen_repo {
            Some(repo) => repo.name.clone(),
            None => String::from_str("No Repo Selected"),
        }
    }

    /// The file panel of the chosen repository: the day of its last push, a
    /// line per node of the file tree, focused while it has the focus.
    pub fn origin_files(&self) -> (r: OriginFiles)
        ensures
            r.commit_title@ == "Latest Commit: "@ + (match self@.chosen_repo {
                Some(repo) => view::text_or(repo.pushed_date, "Unknown"@),
                None => "Unknown"@,
            }),
            r.focused == (self@.focus == FocusedPanel::SingleRepo(SingleRepoPanel::Origin)),
            match self@.file_tree {
                Some(t) => {
                    &&& r.lines@.len() == t.len()
                    &&& forall|i: int| 0 <= i < t.len() ==> #[trigger] r.lines@[i]@ == crate::tree::line_of(t[i])
                },
                None => r.lines@.len() == 0,
            },
    {
        let date = match &self.chosen_repo {
            Some(repo) => string_or(&repo.pushed_date, "Unknown"),
            None => String::from_str("Unknown"),
        };
        let mut commit_title = String::from_str("Latest Commit: ");
        commit_title.append(date.as_str());
        let lines = match &self.file_tree {
            Some(tree) => tree_lines(tree),
            None => Vec::new(),
        };
        OriginFiles {
            commit_title,
            focused: self.focused_panel == FocusedPanel::SingleRepo(SingleRepoPanel::Origin),
            lines,
        }
    }

    /// The tab panel: the selected tab, its content, focused while it has the
    /// focus.
    pub fn tabs(&self) -> (r: TabsView)
        requires
            self@.wf(),
        ensures
            r.selected == self@.selected_tab,
            r.content@ == view::tab_text(self@.selected_tab),
            r.focused == (self@.focus == FocusedPanel::SingleRepo(SingleRepoPanel::Tabs)),
    {
        let content = if self.selected_tab == 0 {
            String::from_str("Tab 1 Content")
        } else {
            String::from_str("Tab 2 Content")
        };
        TabsView {
            selected: self.selected_tab,
            focused: self.focused_panel == FocusedPanel::SingleRepo(SingleRepoPanel::Tabs),
            content,
        }
    }
}

} // verus!
