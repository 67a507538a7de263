//! Reconciles a source path and a destination path into one symbolic link.
//!
//! The library decides; it never touches the disk. A caller observes what
//! stands at the two paths, hands that observation to the engine, and gets
//! back either a question for the user or a complete plan: the lines to
//! print, the operations to perform, and the result to report once they are
//! done.

pub mod args;
pub mod error;
pub mod laws;
pub mod paths;
pub mod program;
pub mod prompt;
pub mod world;
