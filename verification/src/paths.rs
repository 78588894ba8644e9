//! Resolution of the per-user cache location for the model artifact.

use vstd::prelude::*;
use crate::errors::TranslationError;

verus! {

/// Relies on directories::ProjectDirs: `from` resolves the host's
/// per-user project directories for this application and returns None
/// exactly when no valid home directory path can be retrieved from the
/// operating system, and `cache_dir` is the project's cache directory.
/// The value depends on the host environment, so nothing is promised of
/// its content.
#[verifier::external_body]
fn project_cache_dir() -> (r: Option<String>)
{
    match directories::ProjectDirs::from("com", "konnyaku", "konnyaku") {
        Some(dirs) => Some(dirs.cache_dir().to_string_lossy().into_owned()),
        None => None,
    }
}

/// Resolves the per-user cache root, or reports that the host-specific
/// application-directory convention cannot be determined.
pub fn resolve_cache_root() -> (r: Result<String, TranslationError>)
    ensures
        r matches Err(e) ==> e == TranslationError::Environment,
{
    match project_cache_dir() {
        Some(dir) => Ok(dir),
        None => Err(TranslationError::Environment),
    }
}

} // verus!
