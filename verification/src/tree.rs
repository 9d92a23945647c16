//! The tree renderer: turns a materialized [`FileSystemNode`] tree into the
//! lines that [`crate::render::tree_lines`] describes.

use vstd::prelude::*;
use vstd::string::StringExecFns;

use crate::node::FileSystemNode;
use crate::render::{column, connector, lines_from, node_lines, prefix_of, tree_lines};

verus! {

/// The characters of each rendered line, in order.
pub open spec fn views_of(lines: Seq<String>) -> Seq<Seq<char>> {
    lines.map_values(|line: String| line@)
}

/// A directory tree together with the renderer's configuration: the glyph
/// that opens a non-final entry's branch marker, and the width of one
/// indentation column. Both are fixed at construction to the standard
/// values the rendering rules are stated for.
pub struct FileSystemTree {
    pub root: FileSystemNode,
    pub line_char: char,
    pub indent_size: usize,
}

impl FileSystemTree {
    /// The configuration is the standard one: tee glyph, four-wide columns.
    pub open spec fn wf(&self) -> bool {
        &&& self.line_char == connector(false)
        &&& self.indent_size == crate::render::COLUMN_WIDTH
    }

    /// A tree whose root is a directory with the given display name and no
    /// children discovered yet, under the standard configuration.
    pub fn new(root_name: String) -> (tree: FileSystemTree)
        ensures
            tree.wf(),
            tree.root is Directory,
            tree.root->Directory_0 == root_name,
            tree.root->Directory_1@ == Seq::<FileSystemNode>::empty(),
    {
        FileSystemTree { root: FileSystemNode::Directory(root_name, Vec::new()), line_char: '├', indent_size: 4 }
    }

    /// Renders the whole tree: one line per node, exactly the lines that
    /// [`tree_lines`] gives for the root.
    pub fn print(&self) -> (lines: Vec<String>)
        requires
            self.wf(),
        ensures
            views_of(lines@) == tree_lines(self.root),
    {
        let mut lines: Vec<String> = Vec::new();
        match &self.root {
            FileSystemNode::File(name) => {
                lines.push(name.clone());
                proof {
                    assert(views_of(lines@) =~= tree_lines(self.root));
                }
            },
            FileSystemNode::Directory(name, children) => {
                lines.push(name.clone());
                let ghost after_root = lines@;
                let empty_prefix = String::new();
                self.print_children(children, &empty_prefix, Ghost(Seq::empty()), &mut lines);
                proof {
                    assert(views_of(after_root) =~= seq![name@]);
                    assert(views_of(lines@) =~= tree_lines(self.root));
                }
            },
        }
        lines
    }

    /// Renders one node's subtree onto the end of `lines`: its own line,
    /// then its children's lines. `prefix` is the continuation columns of
    /// the node's ancestor chain `anc`.
    fn print_node(
        &self,
        node: &FileSystemNode,
        prefix: &String,
        is_last: bool,
        Ghost(anc): Ghost<Seq<bool>>,
        lines: &mut Vec<String>,
    )
        requires
            self.wf(),
            prefix@ == prefix_of(anc),
        ensures
            views_of(final(lines)@) == views_of(old(lines)@) + node_lines(*node, anc, is_last),
        decreases *node, 1nat,
    {
        match node {
            FileSystemNode::File(name) => {
                let line = make_line(prefix, is_last, name);
                lines.push(line);
                proof {
                    assert(views_of(lines@) =~= views_of(old(lines)@) + node_lines(
                        *node,
                        anc,
                        is_last,
                    ));
                }
            },
            FileSystemNode::Directory(name, children) => {
                let line = make_line(prefix, is_last, name);
                lines.push(line);
                let ghost after_own = lines@;
                let mut child_prefix = prefix.clone();
                if is_last {
                    child_prefix.append("    ");
                } else {
                    child_prefix.append("│   ");
                }
                proof {
                    reveal_strlit("    ");
                    reveal_strlit("│   ");
                    assert(child_prefix@ =~= prefix_of(anc) + column(is_last));
                    crate::render::lemma_prefix_push(anc, is_last);
                }
                self.print_children(children, &child_prefix, Ghost(anc.push(is_last)), lines);
                proof {
                    assert(views_of(after_own) =~= views_of(old(lines)@).push(line@));
                    assert(views_of(lines@) =~= views_of(old(lines)@) + node_lines(
                        *node,
                        anc,
                        is_last,
                    ));
                }
            },
        }
    }

    /// Renders each child of one directory in order onto the end of
    /// `lines`. `prefix` is the continuation columns of the children's
    /// common ancestor chain `anc`.
    fn print_children(
        &self,
        children: &Vec<FileSystemNode>,
        prefix: &String,
        Ghost(anc): Ghost<Seq<bool>>,
        lines: &mut Vec<String>,
    )
        requires
            self.wf(),
            prefix@ == prefix_of(anc),
        ensures
            views_of(final(lines)@) == views_of(old(lines)@) + lines_from(children@, anc, 0),
        decreases *children, 0nat,
    {
        let n = children.len();
        let mut i: usize = 0;
        while i < n
            invariant
                self.wf(),
                prefix@ == prefix_of(anc),
                n == children@.len(),
                i <= n,
                views_of(lines@) + lines_from(children@, anc, i as int) == views_of(old(lines)@)
                    + lines_from(children@, anc, 0),
            decreases n - i,
        {
            let ghost before = lines@;
            self.print_node(&children[i], prefix, i == n - 1, Ghost(anc), lines);
            proof {
                assert(views_of(lines@) + lines_from(children@, anc, i + 1 as int) =~= views_of(
                    before,
                ) + lines_from(children@, anc, i as int));
            }
            i = i + 1;
        }
        proof {
            assert(lines_from(children@, anc, n as int) =~= Seq::<Seq<char>>::empty());
            assert(views_of(lines@) =~= views_of(old(lines)@) + lines_from(children@, anc, 0));
        }
    }
}

/// One entry's full line: the ancestor-prefix, the branch marker opened by a
/// corner or a tee, then the name.
fn make_line(prefix: &String, is_last: bool, name: &String) -> (line: String)
    ensures
        line@ == prefix@ + seq![connector(is_last), '─', '─', ' '] + name@,
{
    let mut line = prefix.clone();
    if is_last {
        line.append("└── ");
    } else {
        line.append("├── ");
    }
    line.append(name.as_str());
    proof {
        reveal_strlit("└── ");
        reveal_strlit("├── ");
        assert(line@ =~= prefix@ + seq![connector(is_last), '─', '─', ' '] + name@);
    }
    line
}

} // verus!
