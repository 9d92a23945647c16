//! The mathematical description of the rendered tree.
//!
//! A rendered line for an entry is built from the entry's ancestor chain: one
//! four-character continuation column per ancestor level, then a
//! four-character branch marker whose first glyph says whether more siblings
//! follow, then the entry's name. The root line is the root's name alone.
//!
//! The ancestor chain is a sequence of booleans, one per ancestor level from
//! the root's children downward: `true` means that ancestor was the last
//! sibling among its own siblings, so its column is blank; `false` means more
//! siblings were still to come there, so its column shows a vertical bar.

use vstd::prelude::*;

use crate::node::FileSystemNode;

verus! {

/// The width, in characters, of one continuation column and of the branch
/// marker.
pub const COLUMN_WIDTH: usize = 4;

/// One continuation column: blank if the ancestor at that level was the last
/// among its siblings, a vertical bar and three spaces otherwise.
pub open spec fn column(ancestor_was_last: bool) -> Seq<char> {
    if ancestor_was_last {
        seq![' ', ' ', ' ', ' ']
    } else {
        seq!['│', ' ', ' ', ' ']
    }
}

/// The whole prefix for an entry with the given ancestor chain: one column
/// per ancestor level, outermost first.
pub open spec fn prefix_of(ancestors: Seq<bool>) -> Seq<char>
    decreases ancestors.len(),
{
    if ancestors.len() == 0 {
        Seq::empty()
    } else {
        column(ancestors[0]) + prefix_of(ancestors.subrange(1, ancestors.len() as int))
    }
}

/// The glyph that opens an entry's own branch marker: a corner if the entry
/// is the last of its siblings, a tee otherwise.
pub open spec fn connector(is_last: bool) -> char {
    if is_last {
        '└'
    } else {
        '├'
    }
}

/// The full line for one entry: prefix, branch marker, name.
pub open spec fn entry_line(ancestors: Seq<bool>, is_last: bool, name: Seq<char>) -> Seq<char> {
    prefix_of(ancestors) + seq![connector(is_last), '─', '─', ' '] + name
}

/// The lines for one node's subtree: the node's own line, then, if it is a
/// directory, the lines of its children in order, each child's ancestor
/// chain extended by whether this node was the last of its siblings.
pub open spec fn node_lines(node: FileSystemNode, ancestors: Seq<bool>, is_last: bool) -> Seq<
    Seq<char>,
>
    decreases node, 0nat,
{
    match node {
        FileSystemNode::File(name) => seq![entry_line(ancestors, is_last, name@)],
        FileSystemNode::Directory(name, children) => seq![
            entry_line(ancestors, is_last, name@),
        ] + lines_from(children@, ancestors.push(is_last), 0),
    }
}

/// The lines of the children of one directory, from sibling index `i`
/// onward. The child at the final index is the last sibling.
pub open spec fn lines_from(
    children: Seq<FileSystemNode>,
    ancestors: Seq<bool>,
    i: int,
) -> Seq<Seq<char>>
    decreases children, children.len() - i,
{
    if i < 0 || i >= children.len() {
        Seq::empty()
    } else {
        node_lines(children[i], ancestors, i == children.len() - 1) + lines_from(
            children,
            ancestors,
            i + 1,
        )
    }
}

/// Extending an ancestor chain by one level appends that level's column to
/// the prefix.
pub(crate) proof fn lemma_prefix_push(ancestors: Seq<bool>, b: bool)
    ensures
        prefix_of(ancestors.push(b)) == prefix_of(ancestors) + column(b),
    decreases ancestors.len(),
{
    if ancestors.len() == 0 {
        assert(ancestors.push(b).subrange(1, 1) =~= Seq::<bool>::empty());
        assert(ancestors.push(b).len() == 1);
        assert(ancestors.push(b)[0] == b);
        assert(prefix_of(ancestors.push(b)) == column(b) + prefix_of(
            ancestors.push(b).subrange(1, 1),
        ));
        assert(prefix_of(ancestors.push(b)) =~= prefix_of(ancestors) + column(b));
    } else {
        let tail = ancestors.subrange(1, ancestors.len() as int);
        lemma_prefix_push(tail, b);
        assert(ancestors.push(b).subrange(1, ancestors.len() as int + 1) =~= tail.push(b));
        assert(prefix_of(ancestors.push(b)) =~= prefix_of(ancestors) + column(b));
    }
}

/// Every line of the whole rendering: the root's name bare on the first
/// line, then the lines of the root's children, whose ancestor chains start
/// empty.
pub open spec fn tree_lines(root: FileSystemNode) -> Seq<Seq<char>> {
    match root {
        FileSystemNode::File(name) => seq![name@],
        FileSystemNode::Directory(name, children) => seq![name@] + lines_from(
            children@,
            Seq::empty(),
            0,
        ),
    }
}

/// How many nodes one subtree holds, the node itself included.
pub open spec fn node_count(node: FileSystemNode) -> nat
    decreases node, 0nat,
{
    match node {
        FileSystemNode::File(_) => 1,
        FileSystemNode::Directory(_, children) => 1 + count_from(children@, 0),
    }
}

/// How many nodes the subtrees of the children from index `i` onward hold.
pub open spec fn count_from(children: Seq<FileSystemNode>, i: int) -> nat
    decreases children, children.len() - i,
{
    if i < 0 || i >= children.len() {
        0
    } else {
        node_count(children[i]) + count_from(children, i + 1)
    }
}

/// How many descendants the root has: every file and directory below it, at
/// every depth.
pub open spec fn descendant_count(root: FileSystemNode) -> nat {
    match root {
        FileSystemNode::File(_) => 0,
        FileSystemNode::Directory(_, children) => count_from(children@, 0),
    }
}

/// One subtree emits exactly as many lines as it has nodes.
proof fn lemma_node_lines_count(node: FileSystemNode, ancestors: Seq<bool>, is_last: bool)
    ensures
        node_lines(node, ancestors, is_last).len() == node_count(node),
    decreases node, 0nat,
{
    match node {
        FileSystemNode::File(_) => {},
        FileSystemNode::Directory(_, children) => {
            lemma_lines_from_count(children@, ancestors.push(is_last), 0);
        },
    }
}

/// The children from index `i` onward emit exactly as many lines as their
/// subtrees have nodes.
proof fn lemma_lines_from_count(children: Seq<FileSystemNode>, ancestors: Seq<bool>, i: int)
    ensures
        lines_from(children, ancestors, i).len() == count_from(children, i),
    decreases children, children.len() - i,
{
    if 0 <= i < children.len() {
        lemma_node_lines_count(children[i], ancestors, i == children.len() - 1);
        lemma_lines_from_count(children, ancestors, i + 1);
    }
}

/// The rendering of a whole tree emits one line for the root plus one line
/// for every descendant file and directory, at every depth.
pub proof fn lemma_line_count(root: FileSystemNode)
    ensures
        tree_lines(root).len() == 1 + descendant_count(root),
{
    match root {
        FileSystemNode::File(_) => {},
        FileSystemNode::Directory(_, children) => {
            lemma_lines_from_count(children@, Seq::empty(), 0);
        },
    }
}

/// A directory with zero children contributes exactly one line — its own
/// entry — and nothing further.
pub proof fn lemma_empty_directory(node: FileSystemNode, ancestors: Seq<bool>, is_last: bool)
    requires
        node is Directory,
        node->Directory_1@.len() == 0,
    ensures
        node_lines(node, ancestors, is_last) == seq![
            entry_line(ancestors, is_last, node.spec_name()),
        ],
{
    assert(node_lines(node, ancestors, is_last) =~= seq![
        entry_line(ancestors, is_last, node.spec_name()),
    ]);
}

/// Rendering is a function of the tree alone: two renderings of the same
/// unchanged tree are identical, line for line.
pub proof fn lemma_render_idempotent(
    first: Seq<Seq<char>>,
    second: Seq<Seq<char>>,
    root: FileSystemNode,
)
    requires
        first == tree_lines(root),
        second == tree_lines(root),
    ensures
        first == second,
{
}

/// Where a child's own line stands among its parent's children's lines: the
/// lines of the earlier siblings' subtrees come first.
pub open spec fn child_line_offset(children: Seq<FileSystemNode>, i: int) -> nat
    decreases i,
{
    if i <= 0 {
        0
    } else {
        child_line_offset(children, i - 1) + node_count(children[i - 1])
    }
}

/// The first line a subtree emits is the node's own entry line.
proof fn lemma_node_lines_first(node: FileSystemNode, ancestors: Seq<bool>, is_last: bool)
    ensures
        node_lines(node, ancestors, is_last).len() >= 1,
        node_lines(node, ancestors, is_last)[0] == entry_line(
            ancestors,
            is_last,
            node.spec_name(),
        ),
{
    match node {
        FileSystemNode::File(_) => {},
        FileSystemNode::Directory(_, _) => {},
    }
}

/// Among a directory's children, the child at index `i` renders its own
/// line at `child_line_offset(children, i)`, and that line's connector —
/// the glyph right after the ancestor columns — is a corner exactly for the
/// child enumerated last, and a tee for every other child.
pub proof fn lemma_sibling_connectors(children: Seq<FileSystemNode>, ancestors: Seq<bool>, i: int)
    requires
        0 <= i < children.len(),
    ensures
        child_line_offset(children, i) < lines_from(children, ancestors, 0).len(),
        lines_from(children, ancestors, 0)[child_line_offset(children, i) as int] == entry_line(
            ancestors,
            i == children.len() - 1,
            children[i].spec_name(),
        ),
        lines_from(children, ancestors, 0)[child_line_offset(children, i) as int][4 * ancestors.len() as int]
            == connector(i == children.len() - 1),
{
    lemma_child_line_at(children, ancestors, 0, i);
    let line = entry_line(ancestors, i == children.len() - 1, children[i].spec_name());
    lemma_prefix_len(ancestors);
    assert(line[4 * ancestors.len() as int] == connector(i == children.len() - 1));
}

/// The line at the right offset of `lines_from(children, ancestors, i)` is
/// child `j`'s own entry line.
proof fn lemma_child_line_at(children: Seq<FileSystemNode>, ancestors: Seq<bool>, i: int, j: int)
    requires
        0 <= i <= j < children.len(),
    ensures
        child_line_offset(children, j) - child_line_offset(children, i) < lines_from(
            children,
            ancestors,
            i,
        ).len(),
        lines_from(children, ancestors, i)[child_line_offset(children, j) - child_line_offset(
            children,
            i,
        )] == entry_line(ancestors, j == children.len() - 1, children[j].spec_name()),
    decreases j - i,
{
    lemma_lines_from_count(children, ancestors, i);
    lemma_offset_bound(children, i, j);
    lemma_node_lines_count(children[i], ancestors, i == children.len() - 1);
    lemma_node_count_pos(children[i]);
    let own = node_lines(children[i], ancestors, i == children.len() - 1);
    let rest = lines_from(children, ancestors, i + 1);
    assert(lines_from(children, ancestors, i) == own + rest);
    if i == j {
        lemma_node_lines_first(children[i], ancestors, i == children.len() - 1);
        assert((own + rest)[0] == own[0]);
    } else {
        lemma_child_line_at(children, ancestors, i + 1, j);
        lemma_offset_nondecreasing(children, i + 1, j);
        let idx = child_line_offset(children, j) - child_line_offset(children, i);
        assert(child_line_offset(children, i + 1) == child_line_offset(children, i) + node_count(
            children[i],
        ));
        assert(idx >= own.len());
        assert((own + rest)[idx] == rest[idx - own.len()]);
    }
}

/// Every subtree has at least its own node.
proof fn lemma_node_count_pos(node: FileSystemNode)
    ensures
        node_count(node) >= 1,
{
    match node {
        FileSystemNode::File(_) => {},
        FileSystemNode::Directory(_, _) => {},
    }
}

/// A later child's line offset is no smaller than an earlier one's.
proof fn lemma_offset_nondecreasing(children: Seq<FileSystemNode>, i: int, j: int)
    requires
        0 <= i <= j,
    ensures
        child_line_offset(children, i) <= child_line_offset(children, j),
    decreases j - i,
{
    if i < j {
        lemma_offset_nondecreasing(children, i, j - 1);
    }
}

/// A child's offset leaves room for its own line among the lines of the
/// children from `i` onward.
proof fn lemma_offset_bound(children: Seq<FileSystemNode>, i: int, j: int)
    requires
        0 <= i <= j < children.len(),
    ensures
        child_line_offset(children, j) - child_line_offset(children, i) + 1 <= count_from(
            children,
            i,
        ),
    decreases j - i,
{
    lemma_node_count_pos(children[i]);
    if i < j {
        lemma_offset_bound(children, i + 1, j);
        assert(child_line_offset(children, i + 1) == child_line_offset(children, i) + node_count(
            children[i],
        ));
        assert(count_from(children, i) == node_count(children[i]) + count_from(children, i + 1));
    } else {
        assert(count_from(children, i) >= node_count(children[i]));
    }
}

/// Every line a subtree emits starts with the prefix of the subtree's own
/// ancestor chain.
proof fn lemma_node_lines_prefixed(
    node: FileSystemNode,
    ancestors: Seq<bool>,
    is_last: bool,
    k: int,
)
    requires
        0 <= k < node_lines(node, ancestors, is_last).len(),
    ensures
        node_lines(node, ancestors, is_last)[k].len() >= prefix_of(ancestors).len(),
        node_lines(node, ancestors, is_last)[k].subrange(0, prefix_of(ancestors).len() as int)
            == prefix_of(ancestors),
    decreases node, 0nat,
{
    let line = node_lines(node, ancestors, is_last)[k];
    if k == 0 {
        lemma_node_lines_first(node, ancestors, is_last);
        assert(line.subrange(0, prefix_of(ancestors).len() as int) =~= prefix_of(ancestors));
    } else {
        match node {
            FileSystemNode::File(_) => {},
            FileSystemNode::Directory(_, children) => {
                let extended = ancestors.push(is_last);
                lemma_lines_from_prefixed(children@, extended, 0, k - 1);
                lemma_prefix_push(ancestors, is_last);
                let inner = lines_from(children@, extended, 0)[k - 1];
                assert(line == inner);
                assert(line.subrange(0, prefix_of(ancestors).len() as int) =~= prefix_of(
                    ancestors,
                ));
            },
        }
    }
}

/// Every line the children from index `i` onward emit starts with the
/// prefix of their common ancestor chain.
proof fn lemma_lines_from_prefixed(
    children: Seq<FileSystemNode>,
    ancestors: Seq<bool>,
    i: int,
    k: int,
)
    requires
        0 <= k < lines_from(children, ancestors, i).len(),
    ensures
        lines_from(children, ancestors, i)[k].len() >= prefix_of(ancestors).len(),
        lines_from(children, ancestors, i)[k].subrange(0, prefix_of(ancestors).len() as int)
            == prefix_of(ancestors),
    decreases children, children.len() - i,
{
    let own = node_lines(children[i], ancestors, i == children.len() - 1);
    let rest = lines_from(children, ancestors, i + 1);
    assert(lines_from(children, ancestors, i) == own + rest);
    if k < own.len() {
        lemma_node_lines_prefixed(children[i], ancestors, i == children.len() - 1, k);
        assert((own + rest)[k] == own[k]);
    } else {
        lemma_lines_from_prefixed(children, ancestors, i + 1, k - own.len());
        assert((own + rest)[k] == rest[k - own.len()]);
    }
}

/// The column at ancestor level `j` within a prefix is that level's own
/// column.
proof fn lemma_prefix_column_at(ancestors: Seq<bool>, j: int)
    requires
        0 <= j < ancestors.len(),
    ensures
        prefix_of(ancestors).subrange(4 * j, 4 * j + 4) == column(ancestors[j]),
    decreases j,
{
    lemma_prefix_len(ancestors);
    let tail = ancestors.subrange(1, ancestors.len() as int);
    lemma_prefix_len(tail);
    if j == 0 {
        assert(prefix_of(ancestors).subrange(0, 4) =~= column(ancestors[0]));
    } else {
        lemma_prefix_column_at(tail, j - 1);
        assert(prefix_of(ancestors).subrange(4 * j, 4 * j + 4) =~= column(ancestors[j]));
    }
}

/// For every line a subtree emits and every ancestor level, the four-wide
/// continuation column at that level shows a vertical bar exactly when that
/// ancestor was not the last sibling of its own parent, and blank space
/// otherwise — simultaneously across all of that ancestor's descendants.
pub proof fn lemma_continuation_columns(
    node: FileSystemNode,
    ancestors: Seq<bool>,
    is_last: bool,
    k: int,
    j: int,
)
    requires
        0 <= k < node_lines(node, ancestors, is_last).len(),
        0 <= j < ancestors.len(),
    ensures
        node_lines(node, ancestors, is_last)[k].subrange(4 * j, 4 * j + 4) == column(ancestors[j]),
        node_lines(node, ancestors, is_last)[k][4 * j] == (if ancestors[j] {
            ' '
        } else {
            '│'
        }),
{
    let line = node_lines(node, ancestors, is_last)[k];
    lemma_node_lines_prefixed(node, ancestors, is_last, k);
    lemma_prefix_len(ancestors);
    lemma_prefix_column_at(ancestors, j);
    let p = prefix_of(ancestors);
    assert(line.subrange(4 * j, 4 * j + 4) =~= p.subrange(4 * j, 4 * j + 4)) by {
        assert(forall|t: int|
            0 <= t < p.len() ==> line[t] == #[trigger] (line.subrange(0, p.len() as int))[t]);
    }
    assert(line[4 * j] == column(ancestors[j])[0]);
}

/// The prefix is four characters per ancestor level.
pub proof fn lemma_prefix_len(ancestors: Seq<bool>)
    ensures
        prefix_of(ancestors).len() == 4 * ancestors.len(),
    decreases ancestors.len(),
{
    if ancestors.len() > 0 {
        lemma_prefix_len(ancestors.subrange(1, ancestors.len() as int));
    }
}

} // verus!
