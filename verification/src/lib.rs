//! Checks whether the current repository's active branch name matches a
//! regular-expression pattern: locate the enclosing repository, resolve the
//! symbolic branch name (or a detached-state label), and evaluate the pattern.

pub mod errors;
mod git;
pub mod head;
pub mod hex;
pub mod locate;
pub mod pattern;
pub mod pipeline;

pub use errors::CheckError;
pub use errors::NotFoundError;
pub use errors::PatternError;
pub use errors::ResolutionError;
pub use head::HeadState;
pub use head::HeadView;
pub use head::display_of;
pub use head::head_state_from_parts;
pub use head::head_state_spec;
pub use head::head_wf;
pub use head::resolve_head;
pub use hex::hex_encode;
pub use hex::hex_of;
pub use locate::RepositoryHandle;
pub use locate::locate;
pub use pattern::regex_accepts;
pub use pattern::regex_error;
pub use pattern::regex_valid;
pub use pipeline::RepoObservation;
pub use pipeline::current_branch_name;
pub use pipeline::exit_code;
pub use pipeline::outcome_of;
pub use pipeline::validate_branchname;
