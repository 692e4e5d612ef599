//! The composition: locate the repository, resolve its HEAD, render the name,
//! evaluate the pattern, and map the outcome to a process exit code. Any
//! failure short-circuits the remaining stages and surfaces as a single
//! `CheckError`; no partial result is produced.

use vstd::prelude::*;
use crate::errors::CheckError;
use crate::head::HeadView;
use crate::head::display_of;
use crate::head::head_state_spec;
use crate::head::head_wf;
use crate::head::resolve_head;
use crate::locate::locate;
use crate::pattern::regex_accepts;
use crate::pattern::regex_error;
use crate::pattern::regex_valid;

verus! {

/// Locates the repository enclosing `start_path`, resolves its HEAD and
/// renders the current reference: the short branch name, or the detached
/// label. A successful value is the display form of a well-formed head
/// state; a failure at either stage is surfaced, never swallowed, and is
/// never a pattern error.
pub fn current_branch_name(start_path: &str) -> (r: Result<String, CheckError>)
    ensures
        r is Ok ==> exists|h: HeadView| head_wf(h) && r->Ok_0@ == display_of(h),
        r is Err ==> !(r->Err_0 is Pattern),
{
    let handle = match locate(start_path) {
        Ok(handle) => handle,
        Err(e) => {
            return Err(CheckError::NotFound(e));
        },
    };
    match resolve_head(&handle) {
        Ok(state) => {
            let name = state.display();
            proof {
                assert(head_wf(state@) && name@ == display_of(state@));
            }
            Ok(name)
        },
        Err(e) => Err(CheckError::Resolution(e)),
    }
}

/// One whole invocation: whether the current branch name of the repository
/// enclosing `start_path` matches `pattern`. `Ok` is only returned when the
/// pattern is a well-formed regular expression, and then holds exactly
/// whether the pattern matches the resolved name; a malformed pattern that
/// is reached surfaces as a `Pattern` error carrying the engine's
/// diagnostic, distinguishable from a legitimate non-match.
pub fn validate_branchname(pattern: &str, start_path: &str) -> (r: Result<bool, CheckError>)
    ensures
        r is Ok ==> regex_valid(pattern@),
        r is Ok ==> exists|h: HeadView| head_wf(h) && r->Ok_0 == regex_accepts(
            pattern@,
            display_of(h),
        ),
        r is Err && r->Err_0 is Pattern ==> !regex_valid(pattern@) && regex_error(pattern@)
            == Some(r->Err_0.cause_view()),
{
    let name = match current_branch_name(start_path) {
        Ok(name) => name,
        Err(e) => {
            return Err(e);
        },
    };
    match crate::pattern::matches(pattern, name.as_str()) {
        Ok(found) => {
            proof {
                let h = choose|h: HeadView| head_wf(h) && name@ == display_of(h);
                assert(head_wf(h) && found == regex_accepts(pattern@, display_of(h)));
            }
            Ok(found)
        },
        Err(e) => Err(CheckError::Pattern(e)),
    }
}

/// Maps an invocation's outcome to its process exit code: 0 exactly when the
/// pattern matched; 1 on a non-match and on every error.
pub fn exit_code(outcome: &Result<bool, CheckError>) -> (code: i32)
    ensures
        code == 0 || code == 1,
        code == 0 <==> (outcome is Ok && outcome->Ok_0),
{
    match outcome {
        Ok(found) => {
            if *found {
                0
            } else {
                1
            }
        },
        Err(_) => 1,
    }
}

/// Everything one invocation reads from its environment: whether a
/// repository encloses the working directory, whether its HEAD could be
/// read, and — when it could — what HEAD showed.
pub enum RepoObservation {
    NoRepository,
    HeadUnreadable,
    Head { is_branch: bool, shorthand: Option<Seq<char>>, target: Option<Seq<u8>> },
}

/// The exit code an invocation ends with, as a function of the pattern and
/// of what it read: 0 exactly when a repository was found, its HEAD
/// resolved, the pattern is well formed and matches the resolved name; 1 on
/// a non-match and on every error.
pub open spec fn outcome_of(pattern: Seq<char>, obs: RepoObservation) -> int {
    match obs {
        RepoObservation::NoRepository => 1,
        RepoObservation::HeadUnreadable => 1,
        RepoObservation::Head { is_branch, shorthand, target } => {
            match head_state_spec(is_branch, shorthand, target) {
                Some(h) => if regex_valid(pattern) && regex_accepts(pattern, display_of(h)) {
                    0
                } else {
                    1
                },
                None => 1,
            }
        },
    }
}

/// Idempotence: two invocations that read identical repository state and
/// were given identical patterns end with identical exit codes — the
/// outcome is a function of what was read alone, with no hidden mutable
/// state.
pub proof fn lemma_outcome_idempotent(
    pattern1: Seq<char>,
    obs1: RepoObservation,
    pattern2: Seq<char>,
    obs2: RepoObservation,
)
    requires
        pattern1 == pattern2,
        obs1 == obs2,
    ensures
        outcome_of(pattern1, obs1) == outcome_of(pattern2, obs2),
{
}

/// On a named branch the invocation exits 0 exactly when the pattern is well
/// formed and matches the branch's short name.
pub proof fn lemma_branch_outcome(pattern: Seq<char>, name: Seq<char>, target: Option<Seq<u8>>)
    ensures
        outcome_of(
            pattern,
            RepoObservation::Head { is_branch: true, shorthand: Some(name), target },
        ) == if regex_valid(pattern) && regex_accepts(pattern, name) {
            0int
        } else {
            1int
        },
{
}

} // verus!
