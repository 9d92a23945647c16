use fstree::node::FileSystemNode;
use fstree::tree::FileSystemTree;

fn tree_of(root_name: &str, children: Vec<FileSystemNode>) -> FileSystemTree {
    let mut tree = FileSystemTree::new(root_name.to_string());
    tree.root = FileSystemNode::Directory(root_name.to_string(), children);
    tree
}

fn file(name: &str) -> FileSystemNode {
    FileSystemNode::File(name.to_string())
}

fn dir(name: &str, children: Vec<FileSystemNode>) -> FileSystemNode {
    FileSystemNode::Directory(name.to_string(), children)
}

#[test]
fn three_files_in_order() {
    let tree = tree_of("root", vec![file("x"), file("y"), file("z")]);
    let lines = tree.print();
    assert_eq!(
        lines,
        vec![
            "root".to_string(),
            "├── x".to_string(),
            "├── y".to_string(),
            "└── z".to_string(),
        ]
    );
}

#[test]
fn nested_directory_scenario() {
    let tree = tree_of("root", vec![file("a.txt"), dir("b", vec![file("c.txt")])]);
    let lines = tree.print();
    assert_eq!(
        lines,
        vec![
            "root".to_string(),
            "├── a.txt".to_string(),
            "└── b".to_string(),
            "    └── c.txt".to_string(),
        ]
    );
}

#[test]
fn continuation_columns_follow_ancestors() {
    // `a` is not the last child of the root, so every line below `a` keeps a
    // vertical bar in the root-level column; `g` is the last child of `a`,
    // so the line below `g` shows blank space in `a`'s column.
    let tree = tree_of(
        "root",
        vec![dir("a", vec![file("f1"), dir("g", vec![file("h")])]), file("b")],
    );
    let lines = tree.print();
    assert_eq!(
        lines,
        vec![
            "root".to_string(),
            "├── a".to_string(),
            "│   ├── f1".to_string(),
            "│   └── g".to_string(),
            "│       └── h".to_string(),
            "└── b".to_string(),
        ]
    );
}

#[test]
fn line_count_is_root_plus_descendants() {
    // Seven nodes below the root, at several depths: eight lines in all.
    let tree = tree_of(
        "top",
        vec![
            dir("d1", vec![file("f1"), file("f2")]),
            dir("d2", vec![dir("d3", vec![file("f3")])]),
            file("f4"),
        ],
    );
    assert_eq!(tree.print().len(), 8);
}

#[test]
fn last_sibling_gets_corner_connector() {
    let tree = tree_of("r", vec![file("first"), file("middle"), file("last")]);
    let lines = tree.print();
    assert!(lines[1].starts_with('├'));
    assert!(lines[2].starts_with('├'));
    assert!(lines[3].starts_with('└'));
}

#[test]
fn empty_directory_contributes_one_line() {
    let tree = tree_of("root", vec![dir("d", vec![])]);
    assert_eq!(tree.print(), vec!["root".to_string(), "└── d".to_string()]);
}

#[test]
fn empty_root_prints_only_root_line() {
    let tree = FileSystemTree::new("lonely".to_string());
    assert_eq!(tree.print(), vec!["lonely".to_string()]);
}

#[test]
fn rendering_twice_is_identical() {
    let tree = tree_of(
        "root",
        vec![dir("sub", vec![file("inner")]), file("outer")],
    );
    let first = tree.print();
    let second = tree.print();
    assert_eq!(first, second);
}

#[test]
fn node_path_is_its_name() {
    assert_eq!(file("notes.txt").path(), "notes.txt".to_string());
    assert_eq!(dir("src", vec![]).path(), "src".to_string());
}

#[test]
fn set_children_replaces_directory_children() {
    let mut node = dir("d", vec![]);
    node.set_children(vec![file("x")]);
    let tree = tree_of("root", vec![node]);
    assert_eq!(
        tree.print(),
        vec![
            "root".to_string(),
            "└── d".to_string(),
            "    └── x".to_string(),
        ]
    );
}

#[test]
fn set_children_leaves_file_unchanged() {
    let mut node = file("f");
    node.set_children(vec![file("x")]);
    let tree = tree_of("root", vec![node]);
    assert_eq!(tree.print(), vec!["root".to_string(), "└── f".to_string()]);
}

#[test]
fn children_mut_grows_a_directory() {
    let mut node = dir("d", vec![file("a")]);
    node.children_mut().push(file("b"));
    let tree = tree_of("root", vec![node]);
    assert_eq!(
        tree.print(),
        vec![
            "root".to_string(),
            "└── d".to_string(),
            "    ├── a".to_string(),
            "    └── b".to_string(),
        ]
    );
}
