//! The repository locator: finds the repository enclosing a starting path.

use vstd::prelude::*;
use crate::errors::NotFoundError;
use crate::git;

verus! {

/// A located repository, owned by the invocation that produced it; it is
/// opened by `locate` and discarded when the invocation ends.
pub struct RepositoryHandle {
    pub(crate) repo: git2::Repository,
}

/// Walks upward from `start_path` through its ancestor directories (that
/// path included) and opens the first enclosing repository. Whether one
/// exists depends on the filesystem alone, so the contract promises only the
/// shape of the outcome: a handle, or a `NotFoundError` that must propagate.
pub fn locate(start_path: &str) -> (r: Result<RepositoryHandle, NotFoundError>) {
    match git::discover_repository(start_path) {
        Ok(repo) => Ok(RepositoryHandle { repo }),
        Err(e) => Err(NotFoundError { msg: git::error_message(&e) }),
    }
}

} // verus!
