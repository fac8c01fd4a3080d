//! The errors of the library's operations.
use vstd::prelude::*;
use vstd::string::*;
use crate::engine::git_error_text;

verus! {

/// Why an operation failed.
#[derive(Debug)]
pub enum GitError {
    /// The version-control engine failed (network, authentication, corruption).
    Git(git2::Error),
    /// A filesystem access failed; holds the system's message.
    Io(String),
    /// No repository, or no commit that HEAD resolves to, at the given path.
    RepoNotFound(String),
    /// The remote has no branch of the given name.
    BranchNotFound(String),
    /// No file or directory at the given path.
    FileNotFound(String),
}

/// The message of every error but an engine failure, whose detail only the
/// engine knows.
pub open spec fn message_of(e: GitError) -> Seq<char> {
    match e {
        GitError::Git(_) => "git error: "@,
        GitError::Io(m) => "io error: "@ + m@,
        GitError::RepoNotFound(p) => "repository not found at "@ + p@,
        GitError::BranchNotFound(b) => "branch '"@ + b@ + "' not found"@,
        GitError::FileNotFound(p) => "file not found: "@ + p@,
    }
}

impl GitError {
    /// The human-readable message that crosses the wire for this error.
    pub fn message(&self) -> (r: String)
        ensures
            self is Git ==> exists|detail: Seq<char>| r@ == message_of(*self) + detail,
            !(self is Git) ==> r@ == message_of(*self),
    {
        match self {
            GitError::Git(e) => {
                let detail = git_error_text(e);
                let r = String::from_str("git error: ").concat(detail.as_str());
                assert(r@ == message_of(*self) + detail@);
                r
            },
            GitError::Io(m) => String::from_str("io error: ").concat(m.as_str()),
            GitError::RepoNotFound(p) => String::from_str("repository not found at ").concat(p.as_str()),
            GitError::BranchNotFound(b) => String::from_str("branch '").concat(b.as_str()).concat("' not found"),
            GitError::FileNotFound(p) => String::from_str("file not found: ").concat(p.as_str()),
        }
    }
}

} // verus!
