//! What the browser knows of a repository and of an entry in its file listing,
//! as plain values.

use vstd::prelude::*;

verus! {

/// One repository of the signed-in user: its name, description, owner's login
/// and the day it was last pushed to (`YYYY-MM-DD`), as the listing gave them.
pub struct RepoInfo {
    pub name: String,
    pub description: Option<String>,
    pub owner: Option<String>,
    pub pushed_date: Option<String>,
}

/// One entry of a directory listing: its name, its path from the repository
/// root, and its type as the listing names it (`"dir"`, `"file"`, ...).
pub struct ContentEntry {
    pub name: String,
    pub path: String,
    pub kind: String,
}

/// A copy of an optional string.
pub fn copy_opt_string(s: &Option<String>) -> (r: Option<String>)
    ensures
        r == *s,
{
    match s {
        Some(t) => Some(t.clone()),
        None => None,
    }
}

impl RepoInfo {
    /// A copy of the repository, equal to it in every field.
    pub fn copy(&self) -> (r: RepoInfo)
        ensures
            r == *self,
    {
        RepoInfo {
            name: self.name.clone(),
            description: copy_opt_string(&self.description),
            owner: copy_opt_string(&self.owner),
            pushed_date: copy_opt_string(&self.pushed_date),
        }
    }
}

} // verus!
