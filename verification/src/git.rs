//! The trusted boundary around the git2 crate: declarations of its types and
//! one wrapper per call the library makes. Everything a wrapper returns that
//! the logic reads is handed on as a plain value.

use vstd::prelude::*;

verus! {

#[verifier::external_type_specification]
#[verifier::external_body]
pub struct ExRepository(git2::Repository);

#[verifier::external_type_specification]
#[verifier::external_body]
pub struct ExReference<'repo>(git2::Reference<'repo>);

#[verifier::external_type_specification]
#[verifier::external_body]
pub struct ExOid(git2::Oid);

#[verifier::external_type_specification]
#[verifier::external_body]
pub struct ExGitError(git2::Error);

/// Relies on git2::Repository::discover: walks up from `path` through its
/// ancestor directories (that path included) and opens the first enclosing
/// repository; Err when no ancestor holds one. The outcome depends on what
/// is on disk, so nothing is promised of it.
#[verifier::external_body]
pub(crate) fn discover_repository(path: &str) -> (r: Result<git2::Repository, git2::Error>) {
    git2::Repository::discover(path)
}

/// Relies on git2::Repository::head: reads the reference pointed to by the
/// repository's HEAD; Err when it cannot be read or resolved (for one, an
/// unborn repository). The outcome depends on what is on disk.
#[verifier::external_body]
pub(crate) fn repository_head<'repo>(repo: &'repo git2::Repository) -> (r: Result<
    git2::Reference<'repo>,
    git2::Error,
>) {
    repo.head()
}

/// Relies on git2::Reference::is_branch: whether the reference is a local
/// branch.
#[verifier::external_body]
pub(crate) fn reference_is_branch(reference: &git2::Reference<'_>) -> (b: bool) {
    reference.is_branch()
}

/// Relies on git2::Reference::shorthand: the human-readable short name of
/// the reference (the full name when no shorter one is appropriate); Err
/// when the name is not valid UTF-8.
#[verifier::external_body]
pub(crate) fn reference_shorthand(reference: &git2::Reference<'_>) -> (r: Result<
    String,
    git2::Error,
>) {
    match reference.shorthand() {
        Ok(name) => Ok(name.to_string()),
        Err(e) => Err(e),
    }
}

/// Relies on git2::Reference::target: the object identifier of a direct
/// reference, None for a symbolic one.
#[verifier::external_body]
pub(crate) fn reference_target(reference: &git2::Reference<'_>) -> (t: Option<git2::Oid>) {
    reference.target()
}

/// Relies on git2::Oid::as_bytes: the raw bytes of the object identifier.
/// Without SHA-256 support (not enabled here) an identifier is exactly
/// twenty bytes.
#[verifier::external_body]
pub(crate) fn oid_bytes(oid: &git2::Oid) -> (b: Vec<u8>)
    ensures
        b@.len() == 20,
{
    oid.as_bytes().to_vec()
}

/// Relies on git2::Error::message: the textual description of the error.
#[verifier::external_body]
pub(crate) fn error_message(e: &git2::Error) -> (m: String) {
    e.message().to_string()
}

} // verus!
