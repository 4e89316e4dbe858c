//! The errors that adding a directory to `PATH` can end in.

use vstd::prelude::*;

verus! {

/// Why a `PATH` update did not happen. Each variant is plain data: a kind and,
/// for some, the text it concerns.
#[derive(Debug, Clone, PartialEq, Eq)]
pub enum PathmanError {
    /// The user's home directory could not be found.
    UnableToFindHomeDirectory,
    /// The `SHELL` variable is not set.
    UnableToDetectShell,
    /// The directory's path is not valid Unicode.
    UnableToConvertPathToString,
    /// The `SHELL` variable names none of the supported shells; holds its value.
    UnsupportedShell(String),
    /// Kept for callers that match on it; no operation of this library ends in it.
    UnableToUpdatePath,
    /// None of the shell's start-up files exists.
    UnableToFindShellConfigFile,
    /// The start-up file at this path could not be read.
    UnableToReadShellConfigFile(String),
    /// The start-up file at this path could not be written.
    UnableToWriteShellConfigFile(String),
    /// The shell command that changes `PATH` could not be built.
    UnableToCreateExportCommand,
    /// The registry key that holds the user's environment could not be opened.
    UnableToOpenEnvironmentKey,
    /// Kept for callers that match on it: an unreadable `Path` value counts as empty.
    UnableToReadPathEnvironmentKey,
    /// The registry's `Path` value could not be written.
    UnableToWritePathEnvironmentKey,
}

/// How a successful update ended.
#[derive(Debug, Clone, Copy, PartialEq, Eq, Structural)]
pub enum UpdateType {
    /// The directory was added.
    Success,
    /// The directory was there already; nothing was changed.
    AlreadyInPath,
}

} // verus!
