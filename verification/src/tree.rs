//! The file tree of the chosen repository: nodes built from a directory
//! listing, their insertion below an opened directory, and how each is shown.

use vstd::prelude::*;
use crate::repo::ContentEntry;

verus! {

/// One line of the file tree: an entry, how deep it lies, whether it is a
/// directory and whether that directory is shown open.
pub struct TreeNode {
    pub name: String,
    pub path: String,
    pub depth: usize,
    pub is_dir: bool,
    pub is_open: bool,
}

/// How many times `c` occurs in `s`.
pub open spec fn count_char(s: Seq<char>, c: char) -> nat
    decreases s.len(),
{
    if s.len() == 0 {
        0
    } else {
        count_char(s.drop_last(), c) + if s.last() == c { 1nat } else { 0nat }
    }
}

/// A string occurs no more often than it is long.
pub proof fn lemma_count_char_bounded(s: Seq<char>, c: char)
    ensures
        count_char(s, c) <= s.len(),
    decreases s.len(),
{
    if s.len() > 0 {
        lemma_count_char_bounded(s.drop_last(), c);
    }
}

/// The number of `/` in `path`, which is how deep the entries of the listing
/// of `path` lie in the tree.
pub fn slash_count(path: &String) -> (r: usize)
    ensures
        r == count_char(path@, '/'),
{
    let s = path.as_str();
    let n = s.unicode_len();
    let mut count: usize = 0;
    let mut i: usize = 0;
    while i < n
        invariant
            n == s@.len(),
            s@ == path@,
            i <= n,
            count == count_char(s@.take(i as int), '/'),
        decreases n - i,
    {
        proof {
            assert(s@.take(i + 1).drop_last() =~= s@.take(i as int));
            lemma_count_char_bounded(s@.take(i as int), '/');
        }
        let c = s.get_char(i);
        if c == '/' {
            count = count + 1;
        }
        i = i + 1;
    }
    proof {
        assert(s@.take(n as int) =~= s@);
    }
    count
}

/// The node that a listing entry becomes at a given depth: closed, and a
/// directory exactly when the listing calls its type `"dir"`.
pub open spec fn node_of(entry: ContentEntry, depth: usize) -> TreeNode {
    TreeNode {
        name: entry.name,
        path: entry.path,
        depth,
        is_dir: entry.kind@ == "dir"@,
        is_open: false,
    }
}

/// The nodes that a listing becomes, in the listing's order.
pub open spec fn nodes_of(entries: Seq<ContentEntry>, depth: usize) -> Seq<TreeNode> {
    entries.map_values(|e: ContentEntry| node_of(e, depth))
}

/// Builds the node of one listing entry.
pub fn node_from_entry(entry: &ContentEntry, depth: usize) -> (r: TreeNode)
    ensures
        r == node_of(*entry, depth),
{
    let dir = String::from_str("dir");
    TreeNode {
        name: entry.name.clone(),
        path: entry.path.clone(),
        depth,
        is_dir: entry.kind == dir,
        is_open: false,
    }
}

/// Builds the nodes of a whole listing.
pub fn nodes_from_entries(entries: &Vec<ContentEntry>, depth: usize) -> (r: Vec<TreeNode>)
    ensures
        r@ == nodes_of(entries@, depth),
{
    let mut out: Vec<TreeNode> = Vec::new();
    let mut i: usize = 0;
    while i < entries.len()
        invariant
            i <= entries@.len(),
            out@ =~= nodes_of(entries@.take(i as int), depth),
        decreases entries@.len() - i,
    {
        out.push(node_from_entry(&entries[i], depth));
        proof {
            assert(entries@.take(i + 1) =~= entries@.take(i as int).push(entries@[i as int]));
        }
        i = i + 1;
    }
    proof {
        assert(entries@.take(entries@.len() as int) =~= entries@);
    }
    out
}

/// `p` is the first position in `tree` whose node has the path `path`.
pub open spec fn is_first_with_path(tree: Seq<TreeNode>, path: Seq<char>, p: int) -> bool {
    &&& 0 <= p < tree.len()
    &&& tree[p].path@ == path
    &&& forall|j: int| 0 <= j < p ==> tree[j].path@ != path
}

/// There is at most one first position with a given path.
pub proof fn lemma_first_with_path_unique(tree: Seq<TreeNode>, path: Seq<char>, p: int, q: int)
    requires
        is_first_with_path(tree, path, p),
        is_first_with_path(tree, path, q),
    ensures
        p == q,
{
}

/// Finds the first node of `tree` whose path is `path`, as
/// `Iterator::position` does.
pub fn position_of_path(tree: &Vec<TreeNode>, path: &String) -> (r: Option<usize>)
    ensures
        match r {
            Some(p) => is_first_with_path(tree@, path@, p as int),
            None => forall|j: int| 0 <= j < tree@.len() ==> tree@[j].path@ != path@,
        },
{
    let mut i: usize = 0;
    while i < tree.len()
        invariant
            i <= tree@.len(),
            forall|j: int| 0 <= j < i ==> tree@[j].path@ != path@,
        decreases tree@.len() - i,
    {
        if tree[i].path == *path {
            return Some(i);
        }
        i = i + 1;
    }
    None
}

/// `tree` with `nodes` inserted right after position `p`.
pub open spec fn inserted_after(tree: Seq<TreeNode>, p: int, nodes: Seq<TreeNode>) -> Seq<TreeNode> {
    tree.take(p + 1) + nodes + tree.skip(p + 1)
}

/// Inserts `nodes` right after position `p` of `tree`, as
/// `tree.splice(p + 1..p + 1, nodes)` does.
pub fn insert_after(tree: &mut Vec<TreeNode>, p: usize, nodes: Vec<TreeNode>)
    requires
        p < old(tree).len(),
    ensures
        final(tree)@ == inserted_after(old(tree)@, p as int, nodes@),
{
    let ghost added = nodes@;
    let mut tail = tree.split_off(p + 1);
    let mut nodes = nodes;
    tree.append(&mut nodes);
    tree.append(&mut tail);
    assert(tree@ =~= inserted_after(old(tree)@, p as int, added));
}

/// The marker in front of a node's name: an open or closed folder, or a file.
pub open spec fn icon_of(node: TreeNode) -> Seq<char> {
    if node.is_dir {
        if node.is_open {
            "▼ 📂 "@
        } else {
            "▶ 📁 "@
        }
    } else {
        "  📄 "@
    }
}

/// How a node is shown: one space per level of depth, its marker, its name.
pub open spec fn line_of(node: TreeNode) -> Seq<char> {
    Seq::new(node.depth as nat, |i: int| ' ') + icon_of(node) + node.name@
}

/// The text of one node's line.
pub fn tree_line(node: &TreeNode) -> (r: String)
    ensures
        r@ == line_of(*node),
        r@.take(node.depth as int) == Seq::new(node.depth as nat, |i: int| ' '),
        r@.skip(node.depth as int) == (if node.is_dir {
            if node.is_open {
                "▼ 📂 "@
            } else {
                "▶ 📁 "@
            }
        } else {
            "  📄 "@
        }) + node.name@,
{
    let mut line = String::new();
    let mut i: usize = 0;
    proof {
        reveal_strlit(" ");
    }
    while i < node.depth
        invariant
            i <= node.depth,
            line@ =~= Seq::new(i as nat, |k: int| ' '),
            " "@ =~= seq![' '],
        decreases node.depth - i,
    {
        line.append(" ");
        i = i + 1;
    }
    if node.is_dir {
        if node.is_open {
            line.append("▼ 📂 ");
        } else {
            line.append("▶ 📁 ");
        }
    } else {
        line.append("  📄 ");
    }
    line.append(node.name.as_str());
    proof {
        crate::laws::law_tree_line_layout(*node);
    }
    line
}

/// The lines of the whole tree, one per node, in order.
pub fn tree_lines(tree: &Vec<TreeNode>) -> (r: Vec<String>)
    ensures
        r@.len() == tree@.len(),
        forall|i: int| 0 <= i < tree@.len() ==> #[trigger] r@[i]@ == line_of(tree@[i]),
{
    let mut out: Vec<String> = Vec::new();
    let mut i: usize = 0;
    while i < tree.len()
        invariant
            i <= tree@.len(),
            out@.len() == i,
            forall|j: int| 0 <= j < i ==> #[trigger] out@[j]@ == line_of(tree@[j]),
        decreases tree@.len() - i,
    {
        out.push(tree_line(&tree[i]));
        i = i + 1;
    }
    out
}

} // verus!
