//! A step-by-step tree builder.
//!
//! The builder is a state machine driven by an outside loop that owns the
//! actual directory listing — a filesystem, or a test double. While the
//! phase asks for a listing, the driver lists that path and hands the
//! outcome to [`Builder::deliver`]; while the phase is ready, the driver
//! calls [`Builder::step`] to consume one discovered entry or to close one
//! finished directory. The first failed listing aborts the whole build with
//! the error for the offending path; on success the finished phase carries
//! the materialized tree.
//!
//! Paths are the display names of the directories on the way down, joined
//! by `/`, starting from the root's own name.

use vstd::prelude::*;
use vstd::string::StringExecFns;

use crate::error::{ListFailure, RenderError};
use crate::node::{Entry, EntryKind, FileSystemNode};

verus! {

/// One directory whose listing has arrived and whose entries are being
/// worked through: the children built so far, and the listed entries not
/// yet consumed (those from index `next` onward).
pub struct Frame {
    pub name: String,
    pub path: String,
    pub done: Vec<FileSystemNode>,
    pub todo: Vec<Entry>,
    pub next: usize,
}

/// Where the build stands: waiting for one directory's listing (its display
/// name and its path), ready to consume the next entry, finished with the
/// whole tree, or aborted by a failed listing.
pub enum BuildPhase {
    Awaiting(String, String),
    Ready,
    Finished(FileSystemNode),
    Failed,
}

/// The build state: the open directories from the root downward, and the
/// phase.
pub struct Builder {
    pub frames: Vec<Frame>,
    pub phase: BuildPhase,
}

impl Frame {
    /// No more entries than were listed have been consumed.
    pub open spec fn wf(&self) -> bool {
        self.next <= self.todo@.len()
    }
}

impl Builder {
    pub open spec fn wf(&self) -> bool {
        &&& self.phase is Ready ==> self.frames@.len() > 0
        &&& self.phase is Finished ==> self.frames@.len() == 0
        &&& forall|i: int| 0 <= i < self.frames@.len() ==> (#[trigger] self.frames@[i]).wf()
    }

    /// Starts a build: the first thing to list is the root itself, whose
    /// path is its display name as given.
    pub fn new(root_name: String) -> (b: Builder)
        ensures
            b.wf(),
            b.frames@.len() == 0,
            b.phase is Awaiting,
            b.phase->Awaiting_0 == root_name,
            b.phase->Awaiting_1 == root_name,
    {
        let name = root_name.clone();
        Builder { frames: Vec::new(), phase: BuildPhase::Awaiting(name, root_name) }
    }

    /// Takes the outcome of listing the awaited directory. A successful
    /// listing opens a frame for it; a failure aborts the build and surfaces
    /// the error for that directory's path — an unreadable directory as an
    /// I/O error, an unrepresentable name as an encoding error.
    pub fn deliver(&mut self, outcome: Result<Vec<Entry>, ListFailure>) -> (r: Result<
        (),
        RenderError,
    >)
        requires
            old(self).wf(),
            old(self).phase is Awaiting,
        ensures
            final(self).wf(),
            outcome is Ok ==> {
                &&& r is Ok
                &&& final(self).phase is Ready
                &&& final(self).frames@.len() == old(self).frames@.len() + 1
                &&& final(self).frames@.subrange(0, old(self).frames@.len() as int) == old(
                    self,
                ).frames@
                &&& final(self).frames@.last().name == old(self).phase->Awaiting_0
                &&& final(self).frames@.last().path == old(self).phase->Awaiting_1
                &&& final(self).frames@.last().done@ == Seq::<FileSystemNode>::empty()
                &&& final(self).frames@.last().todo == outcome->Ok_0
                &&& final(self).frames@.last().next == 0
            },
            outcome is Err ==> {
                &&& r is Err
                &&& r->Err_0.spec_is_for_failure(outcome->Err_0, old(self).phase->Awaiting_1@)
                &&& final(self).phase is Failed
                &&& final(self).frames@ == old(self).frames@
            },
    {
        let mut phase = BuildPhase::Ready;
        core::mem::swap(&mut phase, &mut self.phase);
        match phase {
            BuildPhase::Awaiting(name, path) => match outcome {
                Ok(entries) => {
                    self.frames.push(Frame { name, path, done: Vec::new(), todo: entries, next: 0 });
                    proof {
                        assert(self.frames@.subrange(0, old(self).frames@.len() as int)
                            =~= old(self).frames@);
                    }
                    Ok(())
                },
                Err(failure) => {
                    self.phase = BuildPhase::Failed;
                    match failure {
                        ListFailure::Unreadable => Err(RenderError::IoError(path)),
                        ListFailure::BadName => Err(RenderError::EncodingError(path)),
                    }
                },
            },
            _ => vstd::pervasive::unreached(),
        }
    }

    /// Consumes one unit of ready work. The deepest open directory's next
    /// entry becomes a file child, or — for a directory entry — the next
    /// listing to await, at the entry's path below the open directory. With
    /// no entry left, the open directory closes into a node: a child of its
    /// parent, or, for the root, the finished tree.
    pub fn step(&mut self)
        requires
            old(self).wf(),
            old(self).phase is Ready,
        ensures
            final(self).wf(),
            step_transition(*old(self), *final(self)),
    {
        let ghost prev = *old(self);
        let n = self.frames.len();
        let mut top = self.frames.pop().unwrap();
        if top.next < top.todo.len() {
            let kind = top.todo[top.next].kind;
            match kind {
                EntryKind::File => {
                    let child_name = top.todo[top.next].name.clone();
                    top.done.push(FileSystemNode::File(child_name));
                    top.next = top.next + 1;
                    self.frames.push(top);
                    proof {
                        assert(self.frames@.subrange(0, prev.frames@.len() - 1) =~= prev.frames@
                            .subrange(0, prev.frames@.len() - 1));
                        assert(self.frames@.last().done@.drop_last() =~= prev.frames@.last()
                            .done@);
                    }
                },
                EntryKind::Directory => {
                    let child_name = top.todo[top.next].name.clone();
                    let mut child_path = top.path.clone();
                    child_path.append("/");
                    child_path.append(child_name.as_str());
                    proof {
                        reveal_strlit("/");
                        assert(child_path@ =~= top.path@ + seq!['/'] + child_name@);
                    }
                    top.next = top.next + 1;
                    self.frames.push(top);
                    self.phase = BuildPhase::Awaiting(child_name, child_path);
                    proof {
                        assert(self.frames@.subrange(0, prev.frames@.len() - 1) =~= prev.frames@
                            .subrange(0, prev.frames@.len() - 1));
                    }
                },
            }
        } else {
            let node = FileSystemNode::Directory(top.name, top.done);
            if n == 1 {
                self.phase = BuildPhase::Finished(node);
            } else {
                let mut parent = self.frames.pop().unwrap();
                parent.done.push(node);
                self.frames.push(parent);
                proof {
                    assert(self.frames@.subrange(0, prev.frames@.len() - 2) =~= prev.frames@
                        .subrange(0, prev.frames@.len() - 2));
                }
            }
        }
    }
}

/// How one ready step relates the new build state to the old one.
pub open spec fn step_transition(prev: Builder, next: Builder) -> bool {
    let fs = prev.frames@;
    let top = fs.last();
    if top.next < top.todo@.len() {
        let entry = top.todo@[top.next as int];
        &&& next.frames@.len() == fs.len()
        &&& next.frames@.subrange(0, fs.len() - 1) == fs.subrange(0, fs.len() - 1)
        &&& next.frames@.last().name == top.name
        &&& next.frames@.last().path == top.path
        &&& next.frames@.last().todo == top.todo
        &&& next.frames@.last().next == top.next + 1
        &&& if entry.kind == EntryKind::File {
            &&& next.phase is Ready
            &&& next.frames@.last().done@.len() == top.done@.len() + 1
            &&& next.frames@.last().done@.drop_last() == top.done@
            &&& next.frames@.last().done@.last() is File
            &&& next.frames@.last().done@.last().spec_name() == entry.name@
        } else {
            &&& next.phase is Awaiting
            &&& next.phase->Awaiting_0@ == entry.name@
            &&& next.phase->Awaiting_1@ == top.path@ + seq!['/'] + entry.name@
            &&& next.frames@.last().done == top.done
        }
    } else {
        if fs.len() == 1 {
            &&& next.frames@.len() == 0
            &&& next.phase is Finished
            &&& next.phase->Finished_0 is Directory
            &&& next.phase->Finished_0->Directory_0 == top.name
            &&& next.phase->Finished_0->Directory_1 == top.done
        } else {
            &&& next.phase is Ready
            &&& next.frames@.len() == fs.len() - 1
            &&& next.frames@.subrange(0, fs.len() - 2) == fs.subrange(0, fs.len() - 2)
            &&& next.frames@.last().name == fs[fs.len() - 2].name
            &&& next.frames@.last().path == fs[fs.len() - 2].path
            &&& next.frames@.last().todo == fs[fs.len() - 2].todo
            &&& next.frames@.last().next == fs[fs.len() - 2].next
            &&& next.frames@.last().done@ == fs[fs.len() - 2].done@.push(
                FileSystemNode::Directory(top.name, top.done),
            )
        }
    }
}

} // verus!
