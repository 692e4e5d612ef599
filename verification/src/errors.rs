//! The error taxonomy: one error kind per stage, and a unified error for the
//! whole pipeline that adds the stage context to the underlying cause.

use vstd::prelude::*;
use vstd::string::StringExecFns;

verus! {

/// No enclosing repository was found from the starting path.
#[derive(Debug)]
pub struct NotFoundError {
    pub msg: String,
}

/// The repository's current reference could not be read or resolved.
#[derive(Debug)]
pub struct ResolutionError {
    pub msg: String,
}

/// The pattern is not a well-formed regular expression; `msg` carries the
/// engine's diagnostic.
#[derive(Debug)]
pub struct PatternError {
    pub msg: String,
}

/// The failure of a whole invocation: exactly one stage's error.
#[derive(Debug)]
pub enum CheckError {
    NotFound(NotFoundError),
    Resolution(ResolutionError),
    Pattern(PatternError),
}

impl CheckError {
    /// The message of the underlying error, without stage context.
    pub open spec fn cause_view(&self) -> Seq<char> {
        match self {
            CheckError::NotFound(e) => e.msg@,
            CheckError::Resolution(e) => e.msg@,
            CheckError::Pattern(e) => e.msg@,
        }
    }

    /// The diagnostic line for this error: the stage that failed, then the
    /// underlying cause.
    pub open spec fn message_view(&self) -> Seq<char> {
        match self {
            CheckError::NotFound(_) => "Error getting branch name: "@ + self.cause_view(),
            CheckError::Resolution(_) => "Error getting branch name: "@ + self.cause_view(),
            CheckError::Pattern(_) => "Invalid regex pattern: "@ + self.cause_view(),
        }
    }

    /// Renders the diagnostic line: stage context, then the underlying cause.
    pub fn message(&self) -> (m: String)
        ensures
            m@ == self.message_view(),
    {
        match self {
            CheckError::NotFound(e) => {
                let mut m = String::from_str("Error getting branch name: ");
                m.append(e.msg.as_str());
                m
            },
            CheckError::Resolution(e) => {
                let mut m = String::from_str("Error getting branch name: ");
                m.append(e.msg.as_str());
                m
            },
            CheckError::Pattern(e) => {
                let mut m = String::from_str("Invalid regex pattern: ");
                m.append(e.msg.as_str());
                m
            },
        }
    }
}

} // verus!
