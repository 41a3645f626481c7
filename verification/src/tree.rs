//! The workspace tree: directories with repositories at the leaves,
//! the guide-line prefixes the list draws in front of them, and the
//! queries the search runs over the tree.  Scanning the file system to
//! build a tree happens outside the library.

use vstd::prelude::*;

use crate::fuzzy::fuzzy_match;
use crate::fuzzy::fuzzy_spec;
use crate::fuzzy::lower_seq;
use crate::sessions::Session;

verus! {

/// One directory of the workspace; repositories are leaves.
pub struct TreeNode {
    pub name: String,
    pub path: String,
    pub is_repo: bool,
    pub children: Vec<TreeNode>,
}

/// One visible row of the session list.
pub enum ListItem {
    SectionHeader(String),
    SessionItem(Session),
    TreeDir { name: String, prefix: String },
    TreeRepo { name: String, path: String, session: Option<Session>, prefix: String },
}

/// The guide characters for the ancestor levels: a vertical guide
/// where an ancestor has more siblings below, blanks otherwise.
pub open spec fn guide_chars(gs: Seq<bool>, i: int) -> Seq<char>
    decreases gs.len() - i,
{
    if i < 0 || i >= gs.len() {
        Seq::<char>::empty()
    } else {
        (if gs[i] {
            "\u{2502}  "@
        } else {
            "   "@
        }) + guide_chars(gs, i + 1)
    }
}

/// The whole prefix of one tree row: the ancestor guides, then the
/// branch marker.
pub open spec fn prefix_chars(gs: Seq<bool>, is_last: bool) -> Seq<char> {
    guide_chars(gs, 0) + (if is_last {
        "\u{2514}\u{2500} "@
    } else {
        "\u{251c}\u{2500} "@
    })
}

/// Build the prefix drawn before one tree row.
pub fn build_tree_prefix(guide_lines: &Vec<bool>, is_last: bool) -> (r: String)
    ensures
        r@ == prefix_chars(guide_lines@, is_last),
{
    let mut prefix = String::new();
    let mut i: usize = 0;
    while i < guide_lines.len()
        invariant
            i <= guide_lines@.len(),
            prefix@ + guide_chars(guide_lines@, i as int) == guide_chars(guide_lines@, 0),
        decreases guide_lines@.len() - i,
    {
        if guide_lines[i] {
            prefix.append("\u{2502}  ");
        } else {
            prefix.append("   ");
        }
        i = i + 1;
    }
    if is_last {
        prefix.append("\u{2514}\u{2500} ");
    } else {
        prefix.append("\u{251c}\u{2500} ");
    }
    prefix
}

/// Whether a name matches a query under the fuzzy matcher (within the
/// matcher's size limit).
pub open spec fn name_matches(name: Seq<char>, q: Seq<char>) -> bool {
    lower_seq(name).len() < 10000000 && fuzzy_spec(lower_seq(name), lower_seq(q)) is Some
}

/// Whether any of the children of `node` from index `k` on bring a
/// match: a repository child by its own name, a directory child by any
/// repository below it.
pub open spec fn has_match_from(node: TreeNode, k: int, q: Seq<char>) -> bool
    decreases node, 0int, node.children@.len() - k,
{
    if k < 0 || k >= node.children@.len() {
        false
    } else {
        let c = node.children@[k];
        (if c.is_repo {
            name_matches(c.name@, q)
        } else {
            spec_tree_has_match(c, q)
        }) || has_match_from(node, k + 1, q)
    }
}

/// Whether any repository below `node` matches the query.
pub open spec fn spec_tree_has_match(node: TreeNode, q: Seq<char>) -> bool
    decreases node, 1int, 0int,
{
    has_match_from(node, 0, q)
}

/// Whether any repository descendant of `node` matches the query.
pub fn tree_has_match(node: &TreeNode, query: &str) -> (r: bool)
    ensures
        r == spec_tree_has_match(*node, query@),
    decreases *node,
{
    let n = node.children.len();
    let mut i: usize = 0;
    while i < n
        invariant
            i <= n,
            n == node.children@.len(),
            has_match_from(*node, 0, query@) == has_match_from(*node, i as int, query@),
        decreases n - i,
    {
        let child = &node.children[i];
        proof {
            assert(decreases_to!(*node => node.children@[i as int]));
        }
        let hit = if child.is_repo {
            fuzzy_match(child.name.as_str(), query).is_some()
        } else {
            tree_has_match(child, query)
        };
        if hit {
            return true;
        }
        i = i + 1;
    }
    false
}

/// The `(name, path)` pairs of the repositories below `node`, the node
/// itself first, then each child's in order.
pub open spec fn spec_repo_pairs(node: TreeNode) -> Seq<(Seq<char>, Seq<char>)>
    decreases node, 1int, 0int,
{
    (if node.is_repo {
        seq![(node.name@, node.path@)]
    } else {
        Seq::<(Seq<char>, Seq<char>)>::empty()
    }) + children_pairs(node, 0)
}

/// The repository pairs of the children from index `i` on.
pub open spec fn children_pairs(node: TreeNode, i: int) -> Seq<(Seq<char>, Seq<char>)>
    decreases node, 0int, node.children@.len() - i,
{
    if i < 0 || i >= node.children@.len() {
        Seq::<(Seq<char>, Seq<char>)>::empty()
    } else {
        spec_repo_pairs(node.children@[i]) + children_pairs(node, i + 1)
    }
}

/// The view of collected pairs.
pub open spec fn pairs_view(v: Seq<(String, String)>) -> Seq<(Seq<char>, Seq<char>)> {
    v.map_values(|p: (String, String)| (p.0@, p.1@))
}

/// Collect every repository's name and path, in tree order.
pub fn collect_repo_paths(node: &TreeNode, out: &mut Vec<(String, String)>)
    ensures
        pairs_view(final(out)@) == pairs_view(old(out)@) + spec_repo_pairs(*node),
    decreases *node,
{
    let ghost pre = out@;
    if node.is_repo {
        out.push((node.name.clone(), node.path.clone()));
        proof {
            assert(pairs_view(out@) =~= pairs_view(pre) + seq![(node.name@, node.path@)]);
        }
    }
    let n = node.children.len();
    let mut i: usize = 0;
    while i < n
        invariant
            i <= n,
            n == node.children@.len(),
            pairs_view(out@) + children_pairs(*node, i as int) == pairs_view(pre)
                + spec_repo_pairs(*node),
        decreases n - i,
    {
        proof {
            assert(decreases_to!(*node => node.children@[i as int]));
        }
        collect_repo_paths(&node.children[i], out);
        i = i + 1;
    }
}

} // verus!
