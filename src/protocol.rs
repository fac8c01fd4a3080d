//! Requests and responses of the wire protocol, and their dispatch.
use vstd::prelude::*;
use crate::engine::is_commit_id;
use crate::error::{message_of, GitError};
use crate::files::{base64_len, base64_of, config_names, is_sorted, list_files, read_file, texts, Disk};
use crate::git::{checkout, head, ls_remote, sync, CommitInfo};

verus! {

/// A request of the host, tagged on the wire by its `op`.
#[derive(Debug)]
pub enum Request {
    /// Clone or update a working tree to the tip of a branch.
    Sync { url: String, branch: String, path: String, depth: u32 },
    /// List the configuration files of a directory of a working tree.
    Files { path: String, subpath: Option<String> },
    /// Read a file, base64-encoded.
    Read { path: String, file: String },
    /// The metadata of HEAD's commit.
    Head { path: String },
    /// Reset a working tree hard to a commit already present.
    Checkout { path: String, sha: String },
    /// The tip of a remote branch, without fetching.
    LsRemote { url: String, branch: String },
}

/// A response, written on the wire as a map of one key: `ok` for the
/// first three kinds, `err` for a failure.
#[derive(Debug)]
pub enum Response {
    /// A commit identifier, or base64-encoded file content.
    Text(String),
    /// A file listing.
    Files(Vec<String>),
    /// Commit metadata.
    Commit(CommitInfo),
    /// What went wrong.
    Failed(String),
}

/// What the dispatch of a request comes to.
#[derive(Debug)]
pub enum Dispatch {
    /// The response, the request carried out.
    Done(Response),
    /// The directory `subpath` of the working tree `path` is to be listed,
    /// and the names of its regular files handed to `files_response`.
    ListDir { path: String, subpath: Option<String> },
    /// The file `file` of the working tree `path` is to be read, and its
    /// content handed to `read_response`.
    ReadFile { path: String, file: String },
}

/// History depth of a sync request that names none.
pub fn default_depth() -> (r: u32)
    ensures
        r == 1,
{
    1
}

/// Whether `r` is the response that answers the outcome `o` with its text.
pub open spec fn answers_text(o: Result<String, GitError>, r: Response) -> bool {
    match o {
        Ok(s) => r matches Response::Text(t) && t@ == s@,
        Err(e) => r matches Response::Failed(m) && answers_error(e, m@),
    }
}

/// Whether `m` is the message of the error `e`.
pub open spec fn answers_error(e: GitError, m: Seq<char>) -> bool {
    if e is Git {
        exists|detail: Seq<char>| m == message_of(e) + detail
    } else {
        m == message_of(e)
    }
}

/// The response that reports `outcome`.
pub fn reply(outcome: Result<String, GitError>) -> (r: Response)
    ensures
        answers_text(outcome, r),
{
    match outcome {
        Ok(s) => Response::Text(s),
        Err(e) => Response::Failed(e.message()),
    }
}

/// The response that reports the outcome of a listing.
pub fn reply_files(outcome: Result<Vec<String>, GitError>) -> (r: Response)
    ensures
        outcome matches Ok(v) ==> (r matches Response::Files(w) && w@ == v@),
        outcome matches Err(e) ==> (r matches Response::Failed(m) && answers_error(e, m@)),
{
    match outcome {
        Ok(v) => Response::Files(v),
        Err(e) => Response::Failed(e.message()),
    }
}

/// The response that reports the outcome of a HEAD query.
pub fn reply_commit(outcome: Result<CommitInfo, GitError>) -> (r: Response)
    ensures
        outcome matches Ok(info) ==> (r matches Response::Commit(i) && i == info),
        outcome matches Err(e) ==> (r matches Response::Failed(m) && answers_error(e, m@)),
{
    match outcome {
        Ok(info) => Response::Commit(info),
        Err(e) => Response::Failed(e.message()),
    }
}

/// Carries a request out. Engine operations are done here; the two that read
/// files of a working tree come back as what is to be read.
pub fn handle_request(request: Request) -> (r: Dispatch)
    ensures
        request matches Request::Files { path, subpath } ==> (r matches Dispatch::ListDir { path: p, subpath: s }
            && p == path && s == subpath),
        request matches Request::Read { path, file } ==> (r matches Dispatch::ReadFile { path: p, file: f }
            && p == path && f == file),
        request is Sync || request is Checkout || request is LsRemote ==> (r matches Dispatch::Done(resp)
            && (resp matches Response::Text(sha) ==> (request is Checkout || is_commit_id(sha@)))
            && (resp is Text || resp is Failed)),
        request matches Request::Checkout { sha, .. } ==> (r matches Dispatch::Done(resp)
            && (resp matches Response::Text(s) ==> s@ == sha@)),
        request is Head ==> (r matches Dispatch::Done(resp) && (resp matches Response::Commit(info)
            ==> is_commit_id(info.sha@)) && (resp is Commit || resp is Failed)),
        request matches Request::Sync { branch, .. } ==> (r matches Dispatch::Done(resp)
            && (resp matches Response::Failed(m) ==> ((exists|d: Seq<char>| m@ == "git error: "@ + d)
                || (branch@.contains('\0') && m@ == "branch '"@ + branch@ + "' not found"@)))),
        request is Checkout ==> (r matches Dispatch::Done(resp)
            && (resp matches Response::Failed(m) ==> exists|d: Seq<char>| m@ == "git error: "@ + d)),
        request matches Request::LsRemote { branch, .. } ==> (r matches Dispatch::Done(resp)
            && (resp matches Response::Failed(m) ==> ((exists|d: Seq<char>| m@ == "git error: "@ + d)
                || m@ == "branch '"@ + branch@ + "' not found"@))),
        request matches Request::Head { path } ==> (r matches Dispatch::Done(resp)
            && (resp matches Response::Failed(m) ==> ((exists|d: Seq<char>| m@ == "git error: "@ + d)
                || m@ == "repository not found at "@ + path@))),
{
    match request {
        Request::Sync { url, branch, path, depth } => Dispatch::Done(reply(sync(url.as_str(), branch.as_str(), path.as_str(), depth))),
        Request::Files { path, subpath } => Dispatch::ListDir { path, subpath },
        Request::Read { path, file } => Dispatch::ReadFile { path, file },
        Request::Head { path } => Dispatch::Done(reply_commit(head(path.as_str()))),
        Request::Checkout { path, sha } => Dispatch::Done(reply(checkout(path.as_str(), sha.as_str()))),
        Request::LsRemote { url, branch } => Dispatch::Done(reply(ls_remote(url.as_str(), branch.as_str()))),
    }
}

/// The response to a listing of the directory `dir`, from what was read there.
pub fn files_response(dir: &str, listing: Disk<Vec<String>>) -> (r: Response)
    ensures
        listing is Absent ==> (r matches Response::Failed(m) && m@ == "file not found: "@ + dir@),
        listing matches Disk::Failed(e) ==> (r matches Response::Failed(m) && m@ == "io error: "@ + e@),
        listing matches Disk::Found(names) ==> (r matches Response::Files(files) && is_sorted(texts(files@))
            && texts(files@).to_multiset() == config_names(texts(names@)).to_multiset()),
{
    reply_files(list_files(dir, listing))
}

/// The response to a read of the file at `path`, from what was read there.
pub fn read_response(path: &str, content: Disk<Vec<u8>>) -> (r: Response)
    requires
        content matches Disk::Found(b) ==> base64_len(b@.len()) <= usize::MAX,
    ensures
        content is Absent ==> (r matches Response::Failed(m) && m@ == "file not found: "@ + path@),
        content matches Disk::Failed(e) ==> (r matches Response::Failed(m) && m@ == "io error: "@ + e@),
        content matches Disk::Found(b) ==> (r matches Response::Text(text) && text@ == base64_of(b@)),
{
    reply(read_file(path, content))
}

} // verus!
