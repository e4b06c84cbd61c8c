//! Decision core of a watcher that keeps a PDF and a LaTeX fragment in step
//! with each SVG file of a directory tree.
//!
//! Nothing in this crate touches the filesystem, the environment or a child
//! process. Every function takes what was observed as plain values and
//! returns what is to be done next, so that a thin driver performs the
//! effects and the rules themselves are proved.

pub mod text;
pub mod paths;
pub mod error;
pub mod aux_files;
pub mod events;
pub mod walk_dirs;
pub mod walk_order;
pub mod which;
pub mod args;
pub mod convert;
pub mod batch;
