use nopea_git::engine::{credential_source, CredentialSource};
use nopea_git::error::GitError;
use nopea_git::git::{
    branch_ref_name, branch_tip, clone_depth, commit_info, has_nul, head_outcome, metadata_dir, plan_sync,
    tracking_ref_name, SyncPlan,
};
use nopea_git::protocol::{default_depth, handle_request, reply, Dispatch, Request, Response};

const SHA_A: &str = "1111111111111111111111111111111111111111";
const SHA_B: &str = "2222222222222222222222222222222222222222";

fn heads() -> Vec<(String, String)> {
    vec![
        ("HEAD".to_string(), SHA_A.to_string()),
        ("refs/heads/main".to_string(), SHA_A.to_string()),
        ("refs/heads/dev".to_string(), SHA_B.to_string()),
        ("refs/tags/dev".to_string(), SHA_A.to_string()),
    ]
}

#[test]
fn branch_tip_picks_the_named_branch() {
    assert_eq!(branch_tip(&heads(), "dev").unwrap(), SHA_B);
    assert_eq!(branch_tip(&heads(), "main").unwrap(), SHA_A);
}

#[test]
fn branch_tip_of_missing_branch_is_branch_not_found() {
    match branch_tip(&heads(), "release") {
        Err(GitError::BranchNotFound(b)) => assert_eq!(b, "release"),
        other => panic!("unexpected {:?}", other),
    }
    assert!(matches!(branch_tip(&Vec::new(), "main"), Err(GitError::BranchNotFound(_))));
}

#[test]
fn branch_tip_takes_the_first_match() {
    let mut list = heads();
    list.push(("refs/heads/dev".to_string(), SHA_A.to_string()));
    assert_eq!(branch_tip(&list, "dev").unwrap(), SHA_B);
}

#[test]
fn reference_names() {
    assert_eq!(branch_ref_name("main"), "refs/heads/main");
    assert_eq!(tracking_ref_name("feature/x"), "refs/remotes/origin/feature/x");
}

#[test]
fn metadata_directory() {
    assert_eq!(metadata_dir("/srv/repo"), "/srv/repo/.git");
    assert_eq!(metadata_dir("/srv/repo/"), "/srv/repo/.git");
    assert_eq!(metadata_dir(""), ".git");
}

#[test]
fn depth_is_capped() {
    assert_eq!(clone_depth(1), 1);
    assert_eq!(clone_depth(0), 0);
    assert_eq!(clone_depth(u32::MAX), i32::MAX);
    assert_eq!(default_depth(), 1);
}

#[test]
fn credential_policy() {
    assert_eq!(credential_source(Some("git")), CredentialSource::SshAgent("git".to_string()));
    assert_eq!(credential_source(None), CredentialSource::Ambient);
}

#[test]
fn commit_info_fills_unset_fields_with_empty() {
    let info = commit_info(SHA_A.to_string(), (None, Some("a@b.c".to_string())), None, 42);
    assert_eq!(info.sha, SHA_A);
    assert_eq!(info.author, "");
    assert_eq!(info.email, "a@b.c");
    assert_eq!(info.message, "");
    assert_eq!(info.timestamp, 42);
}

#[test]
fn error_messages() {
    assert_eq!(GitError::Io("denied".to_string()).message(), "io error: denied");
    assert_eq!(GitError::RepoNotFound("/r".to_string()).message(), "repository not found at /r");
    assert_eq!(GitError::BranchNotFound("dev".to_string()).message(), "branch 'dev' not found");
    assert_eq!(GitError::FileNotFound("/r/a".to_string()).message(), "file not found: /r/a");
    let engine = GitError::Git(git2::Error::from_str("boom"));
    assert!(engine.message().starts_with("git error: "));
    assert!(engine.message().contains("boom"));
}

#[test]
fn replies() {
    assert!(matches!(reply(Ok("x".to_string())), Response::Text(ref s) if s == "x"));
    assert!(matches!(reply(Err(GitError::BranchNotFound("b".to_string()))), Response::Failed(ref m) if m == "branch 'b' not found"));
}

#[test]
fn file_requests_are_handed_back() {
    let d = handle_request(Request::Files { path: "/r".to_string(), subpath: Some("k8s".to_string()) });
    assert!(matches!(d, Dispatch::ListDir { ref path, ref subpath } if path == "/r" && subpath.as_deref() == Some("k8s")));
    let d = handle_request(Request::Read { path: "/r".to_string(), file: "a.yaml".to_string() });
    assert!(matches!(d, Dispatch::ReadFile { ref path, ref file } if path == "/r" && file == "a.yaml"));
}

#[test]
fn absent_tree_is_cloned() {
    match plan_sync("https://example.com/r.git", "main", "/srv/r", 3, false) {
        SyncPlan::Clone { url, branch, path, depth } => {
            assert_eq!(url, "https://example.com/r.git");
            assert_eq!(branch, "main");
            assert_eq!(path, "/srv/r");
            assert_eq!(depth, 3);
        }
        other => panic!("unexpected {:?}", other),
    }
}

#[test]
fn present_tree_is_fetched_and_reset() {
    match plan_sync("https://example.com/r.git", "dev", "/srv/r", 3, true) {
        SyncPlan::Update { path, remote, refspec, tracking } => {
            assert_eq!(path, "/srv/r");
            assert_eq!(remote, "origin");
            assert_eq!(refspec, "refs/heads/dev");
            assert_eq!(tracking, "refs/remotes/origin/dev");
        }
        other => panic!("unexpected {:?}", other),
    }
}

#[test]
fn nul_detection() {
    assert!(has_nul("ma\0in"));
    assert!(has_nul("\0"));
    assert!(!has_nul("main"));
    assert!(!has_nul(""));
}

#[test]
fn unresolved_head_is_repo_not_found() {
    match head_outcome("/srv/r", None) {
        Err(GitError::RepoNotFound(p)) => assert_eq!(p, "/srv/r"),
        other => panic!("unexpected {:?}", other),
    }
    let info = commit_info(SHA_A.to_string(), (Some("A".to_string()), None), Some("m".to_string()), 7);
    let got = head_outcome("/srv/r", Some(info)).unwrap();
    assert_eq!(got.sha, SHA_A);
    assert_eq!(got.author, "A");
    assert_eq!(got.message, "m");
    assert_eq!(got.timestamp, 7);
}
