//! Semantic-version tags for a git repository, without the I/O.
//!
//! The crate reads version tags, computes the next version for a requested
//! bump and says which `git` commands record it. It never starts a process
//! itself. Every operation is a function from the replies received so far to
//! the next step: a command to run, or the operation's result. The caller
//! calls it with no replies, runs each command that it asks for, adds the
//! reply to the replies and calls again, until the operation is done.
//!
//! - [`version`] holds the version model: parsing, rendering, ordering and
//!   bumping.
//! - [`command`] holds commands, replies and the reading of replies.
//! - [`repository`] holds the commands that read and write tags.
//! - [`engine`] holds the operations that change the repository.
//! - [`laws`] holds what is proved of all of them together.
//! - [`trusted`] holds the few calls whose contracts are believed.

pub mod command;
pub mod engine;
pub mod error;
pub mod laws;
pub mod numeral;
pub mod repository;
pub mod text;
pub mod trusted;
pub mod version;

pub use crate::command::{run, run_with_stdin, Command, Reply};
pub use crate::engine::{bump, delete_latest, init, push_latest};
pub use crate::error::TagError;
pub use crate::repository::{get_all_tags, get_commit_log_between, get_latest_tag, Step};
pub use crate::version::{strip_v, Bump, PartType, Version};
