//! The in-memory model of a directory tree: entries as a listing reports
//! them, and nodes of the materialized tree.

use vstd::prelude::*;

verus! {

/// What kind of filesystem object a directory entry is.
#[derive(Clone, Copy, Debug, PartialEq, Eq, Structural)]
pub enum EntryKind {
    File,
    Directory,
}

/// One child of a listed directory: its base name and its kind.
#[derive(Debug)]
pub struct Entry {
    pub name: String,
    pub kind: EntryKind,
}

/// A node of the materialized tree: a file, or a directory with the children
/// discovered for it so far.
#[derive(Debug)]
pub enum FileSystemNode {
    File(String),
    Directory(String, Vec<FileSystemNode>),
}

impl FileSystemNode {
    /// The node's display name, as a sequence of characters.
    pub open spec fn spec_name(&self) -> Seq<char> {
        match self {
            FileSystemNode::File(name) => name@,
            FileSystemNode::Directory(name, _) => name@,
        }
    }

    /// The path component this node contributes: its own base name.
    pub fn path(&self) -> (r: String)
        ensures
            r@ == self.spec_name(),
    {
        match self {
            FileSystemNode::File(name) => name.clone(),
            FileSystemNode::Directory(name, _) => name.clone(),
        }
    }

    /// Replaces a directory's children; a file is left unchanged.
    pub fn set_children(&mut self, children: Vec<FileSystemNode>)
        ensures
            *old(self) is Directory ==> *final(self) == FileSystemNode::Directory(
                old(self)->Directory_0,
                children,
            ),
            *old(self) is File ==> *final(self) == *old(self),
    {
        if let FileSystemNode::Directory(_, existing_children) = self {
            *existing_children = children;
        }
    }

    /// Borrows a directory's children for mutation.
    pub fn children_mut(&mut self) -> (children: &mut Vec<FileSystemNode>)
        requires
            *old(self) is Directory,
        ensures
            *children == old(self)->Directory_1,
            *final(self) == FileSystemNode::Directory(old(self)->Directory_0, *final(children)),
    {
        match self {
            FileSystemNode::Directory(_, children) => children,
            FileSystemNode::File(_) => vstd::pervasive::unreached(),
        }
    }
}

} // verus!
