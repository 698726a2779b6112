//! Errors of version-control and forge operations.

use vstd::prelude::*;

verus! {

/// `git2::Error`, the error of libgit2 calls.
#[verifier::external_type_specification]
#[verifier::external_body]
pub struct ExGitError(git2::Error);

/// Error of version-control and forge operations.
#[derive(Debug)]
pub enum TuicrError {
    /// A libgit2 call failed.
    Git(git2::Error),
    /// A version-control command could not be carried out; the message
    /// says why.
    VcsCommand(String),
}

} // verus!
