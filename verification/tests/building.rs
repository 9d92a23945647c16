use fstree::builder::{BuildPhase, Builder};
use fstree::error::{ListFailure, RenderError};
use fstree::node::{Entry, EntryKind, FileSystemNode};
use fstree::tree::FileSystemTree;

fn entry(name: &str, kind: EntryKind) -> Entry {
    Entry { name: name.to_string(), kind }
}

/// Drives one build to the end against a fake listing collaborator, the way
/// an outside loop over a real filesystem would.
fn build_with(
    root_name: &str,
    lister: &dyn Fn(&str) -> Result<Vec<Entry>, ListFailure>,
) -> Result<FileSystemNode, RenderError> {
    let mut b = Builder::new(root_name.to_string());
    loop {
        match &b.phase {
            BuildPhase::Awaiting(_, path) => {
                let p = path.clone();
                b.deliver(lister(&p))?;
            }
            BuildPhase::Ready => b.step(),
            BuildPhase::Finished(_) => break,
            BuildPhase::Failed => panic!("failed without surfacing an error"),
        }
    }
    match b.phase {
        BuildPhase::Finished(node) => Ok(node),
        _ => unreachable!(),
    }
}

fn render_with(
    root_name: &str,
    lister: &dyn Fn(&str) -> Result<Vec<Entry>, ListFailure>,
) -> Result<Vec<String>, RenderError> {
    let node = build_with(root_name, lister)?;
    let mut tree = FileSystemTree::new(root_name.to_string());
    tree.root = node;
    Ok(tree.print())
}

#[test]
fn builds_and_renders_nested_scenario() {
    let lister = |path: &str| -> Result<Vec<Entry>, ListFailure> {
        match path {
            "root" => Ok(vec![
                entry("a.txt", EntryKind::File),
                entry("b", EntryKind::Directory),
            ]),
            "root/b" => Ok(vec![entry("c.txt", EntryKind::File)]),
            _ => panic!("asked for an unexpected path: {}", path),
        }
    };
    let lines = render_with("root", &lister).unwrap();
    assert_eq!(
        lines,
        vec![
            "root".to_string(),
            "├── a.txt".to_string(),
            "└── b".to_string(),
            "    └── c.txt".to_string(),
        ]
    );
}

#[test]
fn failing_root_listing_emits_no_lines() {
    let lister = |_: &str| -> Result<Vec<Entry>, ListFailure> { Err(ListFailure::Unreadable) };
    let result = render_with("root", &lister);
    assert_eq!(result, Err(RenderError::IoError("root".to_string())));
}

#[test]
fn failing_nested_listing_names_the_offending_path() {
    let lister = |path: &str| -> Result<Vec<Entry>, ListFailure> {
        match path {
            "top" => Ok(vec![entry("locked", EntryKind::Directory)]),
            _ => Err(ListFailure::Unreadable),
        }
    };
    let result = render_with("top", &lister);
    assert_eq!(result, Err(RenderError::IoError("top/locked".to_string())));
}

#[test]
fn bad_name_surfaces_encoding_error() {
    let lister = |_: &str| -> Result<Vec<Entry>, ListFailure> { Err(ListFailure::BadName) };
    let result = render_with("root", &lister);
    assert_eq!(result, Err(RenderError::EncodingError("root".to_string())));
}

#[test]
fn empty_root_builds_a_bare_tree() {
    let lister = |_: &str| -> Result<Vec<Entry>, ListFailure> { Ok(vec![]) };
    let lines = render_with("just_root", &lister).unwrap();
    assert_eq!(lines, vec!["just_root".to_string()]);
}

#[test]
fn new_builder_awaits_the_root_path() {
    let b = Builder::new("start".to_string());
    match &b.phase {
        BuildPhase::Awaiting(name, path) => {
            assert_eq!(name, "start");
            assert_eq!(path, "start");
        }
        _ => panic!("a fresh builder should await the root listing"),
    }
}

#[test]
fn listing_order_is_preserved() {
    let lister = |path: &str| -> Result<Vec<Entry>, ListFailure> {
        match path {
            "r" => Ok(vec![
                entry("z", EntryKind::File),
                entry("a", EntryKind::File),
                entry("m", EntryKind::File),
            ]),
            _ => panic!("asked for an unexpected path: {}", path),
        }
    };
    let lines = render_with("r", &lister).unwrap();
    assert_eq!(
        lines,
        vec![
            "r".to_string(),
            "├── z".to_string(),
            "├── a".to_string(),
            "└── m".to_string(),
        ]
    );
}

#[test]
fn render_error_path_accessor() {
    let io = RenderError::IoError("somewhere".to_string());
    let enc = RenderError::EncodingError("elsewhere".to_string());
    assert_eq!(io.path(), "somewhere");
    assert_eq!(enc.path(), "elsewhere");
}
