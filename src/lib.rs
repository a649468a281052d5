use vstd::prelude::*;

mod opener;
mod paths;
mod result;
mod task;

pub use crate::opener::{ResolvedPath, RobloxStudioOpener, StagedPlace, DEFAULT_SERVER_PORT};
pub use crate::paths::{RobloxStudioPaths, VersionEntry};
pub use crate::result::{RobloxStudioError, RobloxStudioResult};
pub use crate::task::RobloxStudioTask;

verus! {

} // verus!
