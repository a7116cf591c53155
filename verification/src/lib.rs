//! Conventional-commit composer: the commit type catalog, message assembly,
//! and the decisions of the staging, commit and prompt workflows.

pub mod catalog;
pub mod commit;
pub mod editor;
pub mod error;
pub mod message;
pub mod prompt;
pub mod staging;
pub mod status;
pub mod text;
pub mod workflow;

pub use catalog::{build_commit_types, format_commit_types};
pub use message::build_commit_message;
pub use status::has_unstaged_tracked_files;
