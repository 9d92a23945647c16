//! Renders a directory tree as indented, box-drawing-character text, in the
//! style of the `tree` utility.
//!
//! The library is split into:
//! - [`node`]: the in-memory tree of files and directories;
//! - [`render`]: the mathematical description of the rendered lines, with the
//!   laws that hold of it;
//! - [`tree`]: the renderer itself, which turns a tree into lines of text;
//! - [`builder`]: a step-by-step tree builder driven by an outside loop that
//!   supplies directory listings;
//! - [`error`]: the error values a failed build reports.
//!
//! Siblings render in the order their directory's listing reported them: the
//! renderer never reorders entries. The root line shows the root's display
//! name exactly as it was given.

pub mod builder;
pub mod error;
pub mod node;
pub mod render;
pub mod tree;
