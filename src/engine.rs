//! The version-control engine: thin trusted bindings over git2, each making
//! the engine calls of one step and handing plain values back to verified
//! code, and the credential policy that every remote operation follows.
use vstd::prelude::*;

verus! {

/// What `git2` reports on failure; carried through opaquely.
#[verifier::external_type_specification]
#[verifier::external_body]
pub struct ExGitError(git2::Error);

/// An opened repository.
#[verifier::external_type_specification]
#[verifier::external_body]
pub struct ExRepository(git2::Repository);

/// A reference (branch, remote-tracking ref or HEAD) of a repository.
#[verifier::external_type_specification]
#[verifier::external_body]
pub struct ExReference<'repo>(git2::Reference<'repo>);

/// A commit object of a repository.
#[verifier::external_type_specification]
#[verifier::external_body]
pub struct ExCommit<'repo>(git2::Commit<'repo>);

/// A parsed object identifier.
#[verifier::external_type_specification]
#[verifier::external_body]
pub struct ExOid(git2::Oid);

/// A remote, named or detached.
#[verifier::external_type_specification]
#[verifier::external_body]
pub struct ExRemote<'repo>(git2::Remote<'repo>);

/// Callbacks used while talking to a remote.
#[verifier::external_type_specification]
#[verifier::external_body]
pub struct ExRemoteCallbacks<'a>(git2::RemoteCallbacks<'a>);

/// Options of a fetch (and of the fetch inside a clone).
#[verifier::external_type_specification]
#[verifier::external_body]
pub struct ExFetchOptions<'cb>(git2::FetchOptions<'cb>);

/// A credential handed to the engine while authenticating.
#[verifier::external_type_specification]
#[verifier::external_body]
pub struct ExCred(git2::Cred);

pub open spec fn is_hex_digit(c: char) -> bool {
    ('0' <= c && c <= '9') || ('a' <= c && c <= 'f')
}

/// A commit identifier in the legacy hash scheme: forty lowercase hex digits.
pub open spec fn is_commit_id(s: Seq<char>) -> bool {
    &&& s.len() == 40
    &&& forall|i: int| 0 <= i < s.len() ==> is_hex_digit(#[trigger] s[i])
}

/// Relies on `git2::Repository::open`: opens the repository at `path`.
#[verifier::external_body]
pub(crate) fn open_repository(path: &str) -> (r: Result<git2::Repository, git2::Error>) {
    git2::Repository::open(path)
}

/// Relies on `git2::Repository::head`: resolves what HEAD points at.
#[verifier::external_body]
pub(crate) fn head_reference<'r>(repo: &'r git2::Repository) -> (r: Result<git2::Reference<'r>, git2::Error>) {
    repo.head()
}

/// Relies on `git2::Repository::find_reference`: looks a reference up by its full name.
#[verifier::external_body]
pub(crate) fn find_reference<'r>(repo: &'r git2::Repository, name: &str) -> (r: Result<git2::Reference<'r>, git2::Error>) {
    repo.find_reference(name)
}

/// Relies on `git2::Reference::peel_to_commit`: follows a reference to its commit.
#[verifier::external_body]
pub(crate) fn peel_to_commit<'r>(reference: &git2::Reference<'r>) -> (r: Result<git2::Commit<'r>, git2::Error>) {
    reference.peel_to_commit()
}

/// Relies on `git2::Commit::id` and the hex `Display` of `git2::Oid`, which
/// writes the forty lowercase hex digits of the identifier.
#[verifier::external_body]
pub(crate) fn commit_sha(commit: &git2::Commit) -> (r: String)
    ensures
        is_commit_id(r@),
{
    commit.id().to_string()
}

/// Relies on `git2::Commit::author` with `git2::Signature::name` and
/// `git2::Signature::email`: the author's name and email, `None` where unset
/// or not UTF-8.
#[verifier::external_body]
pub(crate) fn commit_author(commit: &git2::Commit) -> (r: (Option<String>, Option<String>)) {
    let author = commit.author();
    (author.name().map(|n| n.to_string()), author.email().map(|e| e.to_string()))
}

/// Relies on `git2::Commit::message`: the full message, `None` where not UTF-8.
#[verifier::external_body]
pub(crate) fn commit_message(commit: &git2::Commit) -> (r: Option<String>) {
    commit.message().map(|m| m.to_string())
}

/// Relies on `git2::Commit::time` and `git2::Time::seconds`: the commit time in
/// seconds since the epoch.
#[verifier::external_body]
pub(crate) fn commit_seconds(commit: &git2::Commit) -> (r: i64) {
    commit.time().seconds()
}

/// Relies on `git2::Oid::from_str`: parses a hex object identifier.
#[verifier::external_body]
pub(crate) fn parse_oid(sha: &str) -> (r: Result<git2::Oid, git2::Error>) {
    git2::Oid::from_str(sha)
}

/// Relies on `git2::Repository::find_commit`: looks a commit up in the object store.
#[verifier::external_body]
pub(crate) fn find_commit<'r>(repo: &'r git2::Repository, oid: git2::Oid) -> (r: Result<git2::Commit<'r>, git2::Error>) {
    repo.find_commit(oid)
}

/// Relies on `git2::Repository::reset` with `ResetType::Hard`: moves HEAD to
/// `commit` and overwrites the tracked files of the working tree.
#[verifier::external_body]
pub(crate) fn reset_hard(repo: &git2::Repository, commit: &git2::Commit) -> (r: Result<(), git2::Error>) {
    repo.reset(commit.as_object(), git2::ResetType::Hard, None)
}

/// Relies on `git2::Cred::ssh_key_from_agent`: a credential that asks the ssh agent.
#[verifier::external_body]
pub(crate) fn agent_credential(username: &str) -> (r: Result<git2::Cred, git2::Error>) {
    git2::Cred::ssh_key_from_agent(username)
}

/// Relies on `git2::Cred::default`: the ambient credential of the environment.
#[verifier::external_body]
pub(crate) fn default_credential() -> (r: Result<git2::Cred, git2::Error>) {
    git2::Cred::default()
}

/// Relies on `git2::RemoteCallbacks::credentials`: callbacks whose credential
/// request is answered by `resolve_credentials`, afresh on every request.
#[verifier::external_body]
pub(crate) fn credential_callbacks() -> (r: git2::RemoteCallbacks<'static>) {
    let mut callbacks = git2::RemoteCallbacks::new();
    callbacks.credentials(|_url, username, _allowed| resolve_credentials(username));
    callbacks
}

/// Relies on `git2::FetchOptions::remote_callbacks`: fetch options that use `callbacks`.
#[verifier::external_body]
pub(crate) fn fetch_options(callbacks: git2::RemoteCallbacks<'static>) -> (r: git2::FetchOptions<'static>) {
    let mut options = git2::FetchOptions::new();
    options.remote_callbacks(callbacks);
    options
}

/// Relies on `git2::FetchOptions::depth`: limits the fetched history to `depth` commits.
#[verifier::external_body]
pub(crate) fn set_depth(options: &mut git2::FetchOptions<'static>, depth: i32) {
    options.depth(depth);
}

/// Relies on `git2::build::RepoBuilder::clone`: clones `url` into `path`,
/// checking out `branch`, with the fetch options given. `RepoBuilder::branch`
/// panics on a branch name with a NUL character, so none is admitted.
#[verifier::external_body]
pub(crate) fn clone_branch(url: &str, branch: &str, path: &str, options: git2::FetchOptions<'static>) -> (r: Result<git2::Repository, git2::Error>)
    requires
        !branch@.contains('\0'),
{
    git2::build::RepoBuilder::new()
        .branch(branch)
        .fetch_options(options)
        .clone(url, std::path::Path::new(path))
}

/// Relies on `git2::Repository::find_remote`: looks a configured remote up by name.
#[verifier::external_body]
pub(crate) fn find_remote<'r>(repo: &'r git2::Repository, name: &str) -> (r: Result<git2::Remote<'r>, git2::Error>) {
    repo.find_remote(name)
}

/// Relies on `git2::Remote::fetch`: fetches the one refspec given, updating
/// the matching remote-tracking reference.
#[verifier::external_body]
pub(crate) fn fetch_refspec(remote: &mut git2::Remote, refspec: &str, options: &mut git2::FetchOptions<'static>) -> (r: Result<(), git2::Error>) {
    remote.fetch(&[refspec], Some(options), None)
}

/// Relies on `git2::Remote::create_detached`: a remote for `url` that belongs
/// to no repository, so nothing local is created or changed.
#[verifier::external_body]
pub(crate) fn detached_remote(url: &str) -> (r: Result<git2::Remote<'static>, git2::Error>) {
    git2::Remote::create_detached(url)
}

/// Relies on `git2::Remote::connect_auth` and `git2::Remote::list`: connects
/// for fetching and lists the remote's references as (full name, commit id),
/// each id the forty lowercase hex digits that `git2::Oid` displays.
#[verifier::external_body]
pub(crate) fn list_remote_heads(remote: &mut git2::Remote<'static>, callbacks: git2::RemoteCallbacks<'static>) -> (r: Result<Vec<(String, String)>, git2::Error>)
    ensures
        r matches Ok(heads) ==> forall|i: int| 0 <= i < heads@.len() ==> is_commit_id(#[trigger] heads@[i].1@),
{
    let connection = remote.connect_auth(git2::Direction::Fetch, Some(callbacks), None)?;
    let heads = connection.list()?;
    Ok(heads.iter().map(|h| (h.name().to_string(), h.oid().to_string())).collect())
}

/// Relies on the `Display` of `git2::Error`: its human-readable message.
#[verifier::external_body]
pub(crate) fn git_error_text(e: &git2::Error) -> (r: String) {
    e.to_string()
}

/// Where a remote operation takes its credential from.
#[derive(Debug, PartialEq, Eq)]
pub enum CredentialSource {
    /// The ssh agent, for the user named in the URL.
    SshAgent(String),
    /// The ambient credential of the environment.
    Ambient,
}

/// The credential policy: the ssh agent for the user that the URL names,
/// otherwise the ambient credential.
pub fn credential_source(username: Option<&str>) -> (r: CredentialSource)
    ensures
        username matches Some(u) ==> (r matches CredentialSource::SshAgent(n) && n@ == u@),
        username is None ==> r == CredentialSource::Ambient,
{
    match username {
        Some(u) => CredentialSource::SshAgent(u.to_string()),
        None => CredentialSource::Ambient,
    }
}

/// Builds the credential that `credential_source` selects.
pub fn resolve_credentials(username: Option<&str>) -> (r: Result<git2::Cred, git2::Error>) {
    match credential_source(username) {
        CredentialSource::SshAgent(u) => agent_credential(u.as_str()),
        CredentialSource::Ambient => default_credential(),
    }
}

} // verus!
