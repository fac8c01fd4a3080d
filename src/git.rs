//! Synchronisation and inspection of working trees.
use vstd::prelude::*;
use vstd::string::*;
use crate::engine::{
    clone_branch, commit_author, commit_message, commit_seconds, commit_sha, credential_callbacks,
    detached_remote, fetch_options, fetch_refspec, find_commit, find_reference, find_remote,
    head_reference, is_commit_id, list_remote_heads, open_repository, parse_oid, peel_to_commit,
    reset_hard, set_depth,
};
use crate::error::GitError;

verus! {

/// Metadata of the commit that HEAD resolves to.
#[derive(Debug, Clone)]
pub struct CommitInfo {
    pub sha: String,
    pub author: String,
    pub email: String,
    pub message: String,
    pub timestamp: i64,
}

/// `s`, or the empty sequence where the engine had nothing to give.
pub open spec fn or_empty(s: Option<String>) -> Seq<char> {
    match s {
        Some(v) => v@,
        None => Seq::empty(),
    }
}

/// Where the version-control metadata of the working tree at `path` lives.
pub open spec fn metadata_path(path: Seq<char>) -> Seq<char> {
    if path.len() == 0 {
        ".git"@
    } else if path.last() == '/' {
        path + ".git"@
    } else {
        path + "/.git"@
    }
}

/// The full name of the branch `branch` on a remote.
pub open spec fn branch_ref(branch: Seq<char>) -> Seq<char> {
    "refs/heads/"@ + branch
}

/// The full name of the remote-tracking reference that a fetch of `branch` updates.
pub open spec fn tracking_ref(branch: Seq<char>) -> Seq<char> {
    "refs/remotes/origin/"@ + branch
}

/// The history depth handed to the engine for a clone of `depth` commits.
pub open spec fn clone_depth_of(depth: u32) -> i32 {
    if depth <= i32::MAX as u32 {
        depth as i32
    } else {
        i32::MAX
    }
}

/// Lifts an engine failure into the library's error.
fn engine<T>(r: Result<T, git2::Error>) -> (out: Result<T, GitError>)
    ensures
        r is Ok <==> out is Ok,
        r is Ok ==> out->Ok_0 == r->Ok_0,
        out matches Err(e) ==> e is Git,
{
    match r {
        Ok(v) => Ok(v),
        Err(e) => Err(GitError::Git(e)),
    }
}

/// Relies on `std::path::Path::exists`: whether something is on disk at `path`.
#[verifier::external_body]
fn path_exists(path: &str) -> (r: bool) {
    std::path::Path::new(path).exists()
}

/// The path of the version-control metadata of the working tree at `path`.
pub fn metadata_dir(path: &str) -> (r: String)
    ensures
        r@ == metadata_path(path@),
{
    let n = path.unicode_len();
    if n == 0 {
        String::from_str(".git")
    } else if path.get_char(n - 1) == '/' {
        String::from_str(path).concat(".git")
    } else {
        String::from_str(path).concat("/.git")
    }
}

/// The full name of the branch `branch` on a remote.
pub fn branch_ref_name(branch: &str) -> (r: String)
    ensures
        r@ == branch_ref(branch@),
{
    String::from_str("refs/heads/").concat(branch)
}

/// The full name of the remote-tracking reference of `branch`.
pub fn tracking_ref_name(branch: &str) -> (r: String)
    ensures
        r@ == tracking_ref(branch@),
{
    String::from_str("refs/remotes/origin/").concat(branch)
}

/// The history depth of a shallow clone: `depth`, at most `i32::MAX`.
pub fn clone_depth(depth: u32) -> (r: i32)
    ensures
        r == clone_depth_of(depth),
{
    if depth <= i32::MAX as u32 {
        depth as i32
    } else {
        i32::MAX
    }
}

/// Assembles commit metadata; fields that the engine left unset are empty.
pub fn commit_info(sha: String, author: (Option<String>, Option<String>), message: Option<String>, timestamp: i64) -> (r: CommitInfo)
    ensures
        r.sha@ == sha@,
        r.author@ == or_empty(author.0),
        r.email@ == or_empty(author.1),
        r.message@ == or_empty(message),
        r.timestamp == timestamp,
{
    let (name, email) = author;
    CommitInfo {
        sha,
        author: match name {
            Some(n) => n,
            None => String::new(),
        },
        email: match email {
            Some(e) => e,
            None => String::new(),
        },
        message: match message {
            Some(m) => m,
            None => String::new(),
        },
        timestamp,
    }
}

/// Picks the tip of `branch` out of a remote's references (full name, commit
/// id): the id of the first reference named `refs/heads/<branch>`.
pub fn branch_tip(heads: &Vec<(String, String)>, branch: &str) -> (r: Result<String, GitError>)
    ensures
        r is Ok <==> exists|i: int| 0 <= i < heads@.len() && (#[trigger] heads@[i]).0@ == branch_ref(branch@),
        r matches Ok(sha) ==> exists|i: int|
            0 <= i < heads@.len() && (#[trigger] heads@[i]).0@ == branch_ref(branch@) && sha@ == heads@[i].1@
            && forall|j: int| 0 <= j < i ==> (#[trigger] heads@[j]).0@ != branch_ref(branch@),
        r matches Err(e) ==> (e matches GitError::BranchNotFound(b) && b@ == branch@),
{
    let wanted = branch_ref_name(branch);
    let mut i: usize = 0;
    while i < heads.len()
        invariant
            i <= heads@.len(),
            wanted@ == branch_ref(branch@),
            forall|j: int| 0 <= j < i ==> (#[trigger] heads@[j]).0@ != branch_ref(branch@),
        decreases heads@.len() - i,
    {
        if heads[i].0 == wanted {
            return Ok(heads[i].1.clone());
        }
        i = i + 1;
    }
    Err(GitError::BranchNotFound(branch.to_string()))
}

/// Whether `s` holds a NUL character.
pub fn has_nul(s: &str) -> (r: bool)
    ensures
        r == s@.contains('\0'),
{
    let n = s.unicode_len();
    let mut i: usize = 0;
    while i < n
        invariant
            n == s@.len(),
            i <= n,
            forall|j: int| 0 <= j < i ==> s@[j] != '\0',
        decreases n - i,
    {
        if s.get_char(i) == '\0' {
            return true;
        }
        i = i + 1;
    }
    false
}

/// The engine work that a sync comes to.
#[derive(Debug)]
pub enum SyncPlan {
    /// No repository yet: clone `branch` of `url` into `path`, `depth` commits deep.
    Clone { url: String, branch: String, path: String, depth: i32 },
    /// A repository is there: fetch `refspec` from the remote `remote`, then
    /// reset hard to the commit of the reference `tracking`.
    Update { path: String, remote: String, refspec: String, tracking: String },
}

/// Decides how the working tree at `path` is brought to the tip of `branch`
/// of `url`, given whether version-control metadata is `present` there.
pub fn plan_sync(url: &str, branch: &str, path: &str, depth: u32, present: bool) -> (r: SyncPlan)
    ensures
        !present ==> (r matches SyncPlan::Clone { url: u, branch: b, path: p, depth: d }
            && u@ == url@ && b@ == branch@ && p@ == path@ && d == clone_depth_of(depth)),
        present ==> (r matches SyncPlan::Update { path: p, remote: o, refspec: s, tracking: t }
            && p@ == path@ && o@ == "origin"@ && s@ == branch_ref(branch@) && t@ == tracking_ref(branch@)),
{
    if present {
        SyncPlan::Update {
            path: String::from_str(path),
            remote: String::from_str("origin"),
            refspec: branch_ref_name(branch),
            tracking: tracking_ref_name(branch),
        }
    } else {
        SyncPlan::Clone {
            url: String::from_str(url),
            branch: String::from_str(branch),
            path: String::from_str(path),
            depth: clone_depth(depth),
        }
    }
}

/// Clones `branch` of `url` into `path`, fetching `depth` commits of history.
/// A branch name with a NUL character is refused before the engine sees it:
/// no branch of a remote can carry one.
fn clone(url: &str, branch: &str, path: &str, depth: i32) -> (r: Result<git2::Repository, GitError>)
    ensures
        branch@.contains('\0') ==> (r matches Err(GitError::BranchNotFound(b)) && b@ == branch@),
        r matches Err(e) ==> (e is Git || (e matches GitError::BranchNotFound(b) && b@ == branch@
            && branch@.contains('\0'))),
{
    if has_nul(branch) {
        return Err(GitError::BranchNotFound(branch.to_string()));
    }
    let mut options = fetch_options(credential_callbacks());
    set_depth(&mut options, depth);
    engine(clone_branch(url, branch, path, options))
}

/// Fetches `refspec` from the remote `remote` of the repository at `path`
/// and resets the working tree hard to the commit of `tracking`.
fn fetch_and_reset(path: &str, remote: &str, refspec: &str, tracking: &str) -> (r: Result<git2::Repository, GitError>)
    ensures
        r matches Err(e) ==> e is Git,
{
    let repo = engine(open_repository(path))?;
    {
        let mut origin = engine(find_remote(&repo, remote))?;
        let mut options = fetch_options(credential_callbacks());
        engine(fetch_refspec(&mut origin, refspec, &mut options))?;
    }
    {
        let fetched = engine(find_reference(&repo, tracking))?;
        let commit = engine(peel_to_commit(&fetched))?;
        engine(reset_hard(&repo, &commit))?;
    }
    Ok(repo)
}

/// Brings the working tree at `path` to the tip of `branch` of `url` as
/// `plan_sync` decides: a shallow clone of `depth` commits where no
/// repository is there yet, otherwise a fetch of the branch and a hard reset
/// to its tip. Returns the commit that HEAD then points at.
pub fn sync(url: &str, branch: &str, path: &str, depth: u32) -> (r: Result<String, GitError>)
    ensures
        r matches Ok(sha) ==> is_commit_id(sha@),
        r matches Err(e) ==> (e is Git || (e matches GitError::BranchNotFound(b) && b@ == branch@
            && branch@.contains('\0'))),
{
    let marker = metadata_dir(path);
    let present = path_exists(marker.as_str());
    let repo = match plan_sync(url, branch, path, depth, present) {
        SyncPlan::Clone { url, branch, path, depth } => clone(url.as_str(), branch.as_str(), path.as_str(), depth)?,
        SyncPlan::Update { path, remote, refspec, tracking } =>
            fetch_and_reset(path.as_str(), remote.as_str(), refspec.as_str(), tracking.as_str())?,
    };
    let head = engine(head_reference(&repo))?;
    let commit = engine(peel_to_commit(&head))?;
    Ok(commit_sha(&commit))
}

/// The outcome of a HEAD query of the working tree at `path`, from the
/// commit that HEAD resolved to, if it resolved to one.
pub fn head_outcome(path: &str, resolved: Option<CommitInfo>) -> (r: Result<CommitInfo, GitError>)
    ensures
        resolved is None ==> (r matches Err(GitError::RepoNotFound(p)) && p@ == path@),
        resolved matches Some(info) ==> (r matches Ok(i) && i == info),
{
    match resolved {
        Some(info) => Ok(info),
        None => Err(GitError::RepoNotFound(path.to_string())),
    }
}

/// The metadata of the commit that HEAD of the working tree at `path`
/// resolves to. Reads only. Where the repository opens but HEAD resolves to
/// no commit (a repository without commits), `head_outcome` makes that
/// `RepoNotFound`.
pub fn head(path: &str) -> (r: Result<CommitInfo, GitError>)
    ensures
        r matches Ok(info) ==> is_commit_id(info.sha@),
        r matches Err(e) ==> (e is Git || (e matches GitError::RepoNotFound(p) && p@ == path@)),
{
    let repo = engine(open_repository(path))?;
    let resolved = match head_reference(&repo) {
        Ok(reference) => match peel_to_commit(&reference) {
            Ok(commit) => Some(commit_info(commit_sha(&commit), commit_author(&commit), commit_message(&commit), commit_seconds(&commit))),
            Err(_) => None,
        },
        Err(_) => None,
    };
    head_outcome(path, resolved)
}

/// Resets the working tree at `path` hard to the commit `sha`, which must
/// already be in its object store (nothing is fetched). Returns `sha`.
pub fn checkout(path: &str, sha: &str) -> (r: Result<String, GitError>)
    ensures
        r matches Ok(s) ==> s@ == sha@,
        r matches Err(e) ==> e is Git,
{
    let repo = engine(open_repository(path))?;
    let oid = engine(parse_oid(sha))?;
    let commit = engine(find_commit(&repo, oid))?;
    engine(reset_hard(&repo, &commit))?;
    Ok(sha.to_string())
}

/// The commit at the tip of `branch` of the remote `url`, asked of the remote
/// directly: nothing is fetched and nothing local is created or changed.
pub fn ls_remote(url: &str, branch: &str) -> (r: Result<String, GitError>)
    ensures
        r matches Ok(sha) ==> is_commit_id(sha@),
        r matches Err(e) ==> (e is Git || (e matches GitError::BranchNotFound(b) && b@ == branch@)),
{
    let mut remote = engine(detached_remote(url))?;
    let heads = engine(list_remote_heads(&mut remote, credential_callbacks()))?;
    let r = branch_tip(&heads, branch);
    if let Ok(sha) = &r {
        assert(exists|i: int| 0 <= i < heads@.len() && sha@ == (#[trigger] heads@[i]).1@);
    }
    r
}

} // verus!
