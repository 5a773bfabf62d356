//! Deciding whether a path names an executable.

use crate::error::{text_outcome, HoistError};
use crate::paths::{base_name, file_name};
use vstd::prelude::*;

verus! {

/// The permission bits that let the owner, the group or anyone else execute
/// a file.
pub const EXECUTE_BITS: u32 = 0o111;

/// What the file system reports about a path, symbolic links followed.
#[derive(Debug, Clone, Copy, PartialEq, Eq, Structural)]
pub struct FileStatus {
    /// Whether the path leads to a regular file.
    pub is_file: bool,
    /// The permission bits of the file.
    pub mode: u32,
}

/// Whether `status` describes a regular file that somebody may execute.
pub open spec fn is_executable(status: FileStatus) -> bool {
    status.is_file && status.mode & EXECUTE_BITS != 0
}

/// The outcome of probing `path`, whose status is `status` (`None` when the
/// status could not be read): the base name of an executable, or the reason
/// why there is none.
pub open spec fn probe(path: Seq<char>, status: Option<FileStatus>) -> Result<
    Seq<char>,
    HoistError,
> {
    match status {
        None => Err(HoistError::Io),
        Some(s) => if !is_executable(s) {
            Err(HoistError::NotExecutable)
        } else {
            match base_name(path) {
                Some(name) => Ok(name),
                None => Err(HoistError::InvalidName),
            }
        },
    }
}

/// Returns the name of the binary at `exec` if it is an executable.
///
/// `status` is what the file system said of `exec`, `None` when it could not
/// say. A missing status is an I/O error; a path that is no regular file, or
/// that nobody may execute, is not executable; an executable whose path has
/// no base name has no valid name.
pub fn exec_path(exec: &str, status: Option<FileStatus>) -> (name: Result<String, HoistError>)
    ensures
        text_outcome(name) == probe(exec@, status),
{
    match status {
        None => Err(HoistError::Io),
        Some(s) => {
            if !s.is_file || s.mode & EXECUTE_BITS == 0 {
                Err(HoistError::NotExecutable)
            } else {
                match file_name(exec) {
                    Some(name) => Ok(name),
                    None => Err(HoistError::InvalidName),
                }
            }
        },
    }
}

} // verus!
