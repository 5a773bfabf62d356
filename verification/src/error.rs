//! The ways an operation on the registry or on a project can fail.

use vstd::prelude::*;

verus! {

/// Why an operation was abandoned.
#[derive(Debug, Clone, Copy, PartialEq, Eq, Structural)]
pub enum HoistError {
    /// The file system refused or failed a request.
    Io,
    /// A requested name matches no known binary.
    BinaryNotFound,
    /// The path is not a regular file with an executable permission bit.
    NotExecutable,
    /// The stored registry document does not describe a registry.
    CorruptRegistry,
    /// A path has no base name that can serve as a binary name.
    InvalidName,
    /// Several candidates carry a requested name, and nobody could be asked
    /// which of them is meant.
    Conflict,
    /// Nothing was requested by name, and nobody could be asked what to
    /// take.
    SelectionNeeded,
    /// The user declined the installation of the shell hook.
    HookRejected,
    /// The shell profile that the hook is written to does not exist.
    MissingShellProfile,
}

/// What an error says, as the contracts see it.
pub open spec fn message_of(error: HoistError) -> Seq<char> {
    match error {
        HoistError::Io => "the file system failed a request"@,
        HoistError::BinaryNotFound => "failed to find binary"@,
        HoistError::NotExecutable => "the path is not executable"@,
        HoistError::CorruptRegistry => "the hoist registry is corrupt"@,
        HoistError::InvalidName => "failed to extract binary name"@,
        HoistError::Conflict => "several registered binaries share the name"@,
        HoistError::SelectionNeeded => "no binaries were selected"@,
        HoistError::HookRejected => "cargo hoist installation rejected"@,
        HoistError::MissingShellProfile => "the shell profile does not exist"@,
    }
}

impl HoistError {
    /// What the error says.
    pub fn message(&self) -> (text: String)
        ensures
            text@ == message_of(*self),
    {
        match self {
            HoistError::Io => "the file system failed a request".to_owned(),
            HoistError::BinaryNotFound => "failed to find binary".to_owned(),
            HoistError::NotExecutable => "the path is not executable".to_owned(),
            HoistError::CorruptRegistry => "the hoist registry is corrupt".to_owned(),
            HoistError::InvalidName => "failed to extract binary name".to_owned(),
            HoistError::Conflict => "several registered binaries share the name".to_owned(),
            HoistError::SelectionNeeded => "no binaries were selected".to_owned(),
            HoistError::HookRejected => "cargo hoist installation rejected".to_owned(),
            HoistError::MissingShellProfile => "the shell profile does not exist".to_owned(),
        }
    }
}

/// The views of a list of strings, in the same order.
pub open spec fn texts(strings: Seq<String>) -> Seq<Seq<char>> {
    strings.map_values(|s: String| s@)
}

/// A string result as the contracts see it.
pub open spec fn text_outcome(outcome: Result<String, HoistError>) -> Result<
    Seq<char>,
    HoistError,
> {
    match outcome {
        Ok(text) => Ok(text@),
        Err(e) => Err(e),
    }
}

/// A result holding a list of strings as the contracts see it.
pub open spec fn texts_outcome(outcome: Result<Vec<String>, HoistError>) -> Result<
    Seq<Seq<char>>,
    HoistError,
> {
    match outcome {
        Ok(list) => Ok(texts(list@)),
        Err(e) => Err(e),
    }
}

} // verus!
