//! The branch resolver: determines the repository's current reference — the
//! short branch name when HEAD points at a named branch, or a detached-state
//! label built from the commit identifier when it does not.

use vstd::prelude::*;
use vstd::string::StrSliceExecFns;
use vstd::string::StringExecFns;
use crate::errors::ResolutionError;
use crate::git;
use crate::hex::hex_encode;
use crate::hex::hex_of;
use crate::hex::is_lower_hex_char;
use crate::hex::lemma_hex_of_chars;
use crate::locate::RepositoryHandle;

verus! {

/// The repository's current reference: exactly one of the two variants per
/// successful resolution. `Detached` holds the full commit identifier in its
/// lowercase hexadecimal form; the display form shortens it.
pub enum HeadState {
    NamedBranch(String),
    Detached(String),
}

/// The mathematical model of a `HeadState`: the same two variants over
/// character sequences.
pub enum HeadView {
    NamedBranch(Seq<char>),
    Detached(Seq<char>),
}

impl View for HeadState {
    type V = HeadView;

    open spec fn view(&self) -> HeadView {
        match self {
            HeadState::NamedBranch(name) => HeadView::NamedBranch(name@),
            HeadState::Detached(id) => HeadView::Detached(id@),
        }
    }
}

/// The string a head state is shown as: the branch name itself, or the fixed
/// tag `DETACHED@` followed by the first seven characters of the commit
/// identifier. An identifier shorter than seven characters (a pathological
/// repository) is truncated to its available length rather than failing.
pub open spec fn display_of(h: HeadView) -> Seq<char> {
    match h {
        HeadView::NamedBranch(name) => name,
        HeadView::Detached(id) => "DETACHED@"@ + id.take(
            if id.len() < 7 {
                id.len() as int
            } else {
                7
            },
        ),
    }
}

/// A well-formed head state: a detached identifier is the forty-character
/// lowercase hexadecimal form of a twenty-byte object identifier.
pub open spec fn head_wf(h: HeadView) -> bool {
    match h {
        HeadView::NamedBranch(_) => true,
        HeadView::Detached(id) => id.len() == 40 && forall|i: int|
            0 <= i < id.len() ==> is_lower_hex_char(#[trigger] id[i]),
    }
}

/// What resolution yields from what HEAD shows: `is_branch` is whether HEAD
/// points at a named branch, `shorthand` its derivable short name, `target`
/// the bytes of the commit identifier HEAD targets directly. `None` is the
/// one hard failure: detached with no target identifier at all.
pub open spec fn head_state_spec(
    is_branch: bool,
    shorthand: Option<Seq<char>>,
    target: Option<Seq<u8>>,
) -> Option<HeadView> {
    if is_branch {
        match shorthand {
            Some(name) => Some(HeadView::NamedBranch(name)),
            None => Some(HeadView::NamedBranch("unknown"@)),
        }
    } else {
        match target {
            Some(bytes) => Some(HeadView::Detached(hex_of(bytes))),
            None => None,
        }
    }
}

impl HeadState {
    /// Renders the state for matching and display: the branch name, or
    /// `DETACHED@` followed by the first seven characters of the identifier
    /// (all of it when it is shorter).
    pub fn display(&self) -> (r: String)
        ensures
            r@ == display_of(self@),
    {
        match self {
            HeadState::NamedBranch(name) => name.clone(),
            HeadState::Detached(id) => {
                let len = id.as_str().unicode_len();
                let cut: usize = if len < 7 {
                    len
                } else {
                    7
                };
                let prefix = id.as_str().substring_char(0, cut);
                let mut r = String::from_str("DETACHED@");
                r.append(prefix);
                proof {
                    assert(id@.subrange(0, cut as int) =~= id@.take(cut as int));
                }
                r
            },
        }
    }
}

/// The resolution decision, taken on plain values read from HEAD. On a named
/// branch the short name is kept exactly; when no short name can be derived
/// the lenient fallback is the literal `unknown`, not a failure. Detached
/// with a target is the identifier's hexadecimal form; detached with no
/// target is the one hard `ResolutionError`.
pub fn head_state_from_parts(
    is_branch: bool,
    shorthand: Option<String>,
    target: Option<Vec<u8>>,
) -> (r: Result<HeadState, ResolutionError>)
    ensures
        match head_state_spec(is_branch, shorthand.deep_view(), target.deep_view()) {
            Some(h) => r is Ok && r->Ok_0@ == h,
            None => r is Err && r->Err_0.msg@ == "No target OID"@,
        },
{
    if is_branch {
        match shorthand {
            Some(name) => Ok(HeadState::NamedBranch(name)),
            None => Ok(HeadState::NamedBranch(String::from_str("unknown"))),
        }
    } else {
        match target {
            Some(bytes) => {
                proof {
                    assert(bytes.deep_view() =~= bytes@);
                }
                Ok(HeadState::Detached(hex_encode(&bytes)))
            },
            None => Err(ResolutionError { msg: String::from_str("No target OID") }),
        }
    }
}

/// Reads the repository's HEAD and resolves it. What HEAD holds depends on
/// the repository on disk, so the contract promises the shape of every
/// outcome: a successful resolution is well formed — in particular a
/// detached identifier is forty lowercase hexadecimal characters — and any
/// read failure surfaces as a `ResolutionError`, never silently.
pub fn resolve_head(handle: &RepositoryHandle) -> (r: Result<HeadState, ResolutionError>)
    ensures
        r is Ok ==> head_wf(r->Ok_0@),
{
    let head = match git::repository_head(&handle.repo) {
        Ok(head) => head,
        Err(e) => {
            return Err(ResolutionError { msg: git::error_message(&e) });
        },
    };
    let is_branch = git::reference_is_branch(&head);
    let shorthand: Option<String> = if is_branch {
        match git::reference_shorthand(&head) {
            Ok(name) => Some(name),
            Err(_) => None,
        }
    } else {
        None
    };
    let target: Option<Vec<u8>> = if is_branch {
        None
    } else {
        match git::reference_target(&head) {
            Some(oid) => Some(git::oid_bytes(&oid)),
            None => None,
        }
    };
    let r = head_state_from_parts(is_branch, shorthand, target);
    proof {
        if r is Ok && r->Ok_0@ is Detached {
            assert(target->0.deep_view() =~= target->0@);
            lemma_hex_of_chars(target.deep_view()->0);
        }
    }
    r
}

/// A HEAD on a named branch resolves to exactly that branch's short name,
/// with no namespace prefix added or case changed, and is displayed as that
/// name itself.
pub proof fn lemma_named_branch_resolution(name: Seq<char>, target: Option<Seq<u8>>)
    ensures
        head_state_spec(true, Some(name), target) == Some(HeadView::NamedBranch(name)),
        display_of(HeadView::NamedBranch(name)) == name,
{
}

/// A detached HEAD with a target resolves to the identifier's lowercase
/// hexadecimal form, and — the identifier being at least seven characters —
/// is displayed as `DETACHED@` followed by exactly its first seven
/// characters.
pub proof fn lemma_detached_display(bytes: Seq<u8>, shorthand: Option<Seq<char>>)
    requires
        bytes.len() >= 4,
    ensures
        head_state_spec(false, shorthand, Some(bytes)) == Some(HeadView::Detached(hex_of(bytes))),
        display_of(HeadView::Detached(hex_of(bytes))) == "DETACHED@"@ + hex_of(bytes).take(7),
{
}

} // verus!
