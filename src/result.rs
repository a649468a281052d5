use vstd::prelude::*;

verus! {

/// An error that may occur when locating or launching Roblox Studio.
#[derive(Debug, Clone)]
#[non_exhaustive]
pub enum RobloxStudioError {
    /// The text does not name a task.
    UnknownTask(String),
    /// The user's documents directory could not be determined.
    UserDocumentsDirMissing,
    /// The user's local data directory could not be determined.
    LocalDataDirMissing,
    /// The place file could not be copied into the local data directory.
    LocalDataDirCopyPlace(String),
    /// The given path could not be resolved to an absolute, existing path.
    PathCanonicalize(String),
    /// The resolved path cannot be represented as text; it holds a lossy rendering.
    PathToString(String),
    /// No Roblox Studio executable was found.
    InstallationNotFound,
    /// An operating system call failed.
    Io(String),
}

/// Results that fail with a `RobloxStudioError`.
pub type RobloxStudioResult<T> = Result<T, RobloxStudioError>;

} // verus!
