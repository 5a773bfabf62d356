//! A registry of locally built executables, and the rules for hoisting them
//! into a working directory.
//!
//! The registry is a set of records, each a binary's name together with its
//! canonical location; one name may be registered at several locations. A
//! project's build output is scanned for executables, whose records are
//! merged into the registry. Hoisting looks records up by name and says
//! which files to copy, and reports a conflict where a name is claimed by
//! more than one record rather than picking one.
//!
//! Nothing here reads or writes files, asks the user or prints: the caller
//! hands over what it found as plain values and performs what comes back.
//!
//! - [`binaries`]: records and copy orders
//! - [`paths`]: paths as text
//! - [`executables`]: what counts as an executable
//! - [`project`]: targets and binaries of a build output
//! - [`registry`]: the registry, insertion without duplicates, install
//! - [`document`]: the stored form of the registry
//! - [`hoist`]: candidates, conflicts and selections
//! - [`engine`]: the course of a hoist as states and events
//! - [`storage`]: the steps that set the storage up or reset it
//! - [`shell`]: the user's shell and its profile
//! - [`cli`]: the command line as values
//! - [`utils`]: sorted merging of name lists
//! - [`error`]: the ways an operation can fail

pub mod binaries;
pub mod cli;
pub mod document;
pub mod engine;
pub mod error;
pub mod executables;
pub mod hoist;
pub mod paths;
pub mod project;
pub mod registry;
pub mod shell;
pub mod storage;
pub mod utils;

pub use cli::run;
pub use cli::Args;
pub use cli::Command;
