//! What each screen shows, as plain values for the renderer.

use vstd::prelude::*;

verus! {

/// The screen to draw.
#[derive(Clone, Copy, PartialEq, Eq, Structural, Debug)]
pub enum Screen {
    /// The repository list beside the selected repository's details.
    RepoList,
    /// The chosen repository: its files and its tabs.
    SingleRepo,
}

/// The repository list: the names in order, and whether it has the focus.
pub struct RepoListView {
    pub names: Vec<String>,
    pub focused: bool,
}

/// The details of the selected repository.
pub struct RepoDetail {
    pub title: String,
    pub description: String,
    pub readme: String,
    /// The first readme line shown.
    pub scroll: u16,
    pub focused: bool,
}

/// The file tree panel of the chosen repository.
pub struct OriginFiles {
    pub commit_title: String,
    pub focused: bool,
    pub lines: Vec<String>,
}

/// The tab panel of the chosen repository.
pub struct TabsView {
    pub selected: usize,
    pub focused: bool,
    pub content: String,
}

/// The text of an optional string, or `default` when there is none.
pub open spec fn text_or(s: Option<String>, default: Seq<char>) -> Seq<char> {
    match s {
        Some(t) => t@,
        None => default,
    }
}

/// A copy of the optional string, or `default` when there is none.
pub fn string_or(s: &Option<String>, default: &str) -> (r: String)
    ensures
        r@ == text_or(*s, default@),
{
    match s {
        Some(t) => t.clone(),
        None => String::from_str(default),
    }
}

/// The text of a tab's content.
pub open spec fn tab_text(tab: usize) -> Seq<char> {
    if tab == 0 {
        "Tab 1 Content"@
    } else {
        "Tab 2 Content"@
    }
}

} // verus!
