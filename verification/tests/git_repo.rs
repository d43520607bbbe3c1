//! Tests of the git facade against real repositories on disk: status,
//! commit, log, branches, checkout and diff.

use std::path::Path;

use gorgon_desktop::Error;
use gorgon_desktop::git_branch;
use gorgon_desktop::git_checkout;
use gorgon_desktop::git_commit;
use gorgon_desktop::git_create_branch;
use gorgon_desktop::git_diff;
use gorgon_desktop::git_log;
use gorgon_desktop::git_status;

fn init_repo() -> (tempfile::TempDir, git2::Repository) {
    let td = tempfile::tempdir().unwrap();
    let repo = git2::Repository::init(td.path()).unwrap();
    (td, repo)
}

fn set_identity(repo: &git2::Repository) {
    let mut cfg = repo.config().unwrap();
    cfg.set_str("user.name", "Tester").unwrap();
    cfg.set_str("user.email", "tester@example.com").unwrap();
}

fn write_file(td: &tempfile::TempDir, rel: &str, content: &str) {
    fs_err::write(td.path().join(rel), content).unwrap();
}

fn stage(repo: &git2::Repository, rel: &str) {
    let mut index = repo.index().unwrap();
    index.add_path(Path::new(rel)).unwrap();
    index.write().unwrap();
}

fn commit_index(repo: &git2::Repository, msg: &str) -> git2::Oid {
    let mut index = repo.index().unwrap();
    let tree_id = index.write_tree().unwrap();
    let tree = repo.find_tree(tree_id).unwrap();
    let sig = git2::Signature::now("Tester", "tester@example.com").unwrap();
    let parent = repo.head().ok().and_then(|h| h.peel_to_commit().ok());
    let parents: Vec<&git2::Commit> = parent.iter().collect();
    repo.commit(Some("HEAD"), &sig, &sig, msg, &tree, &parents).unwrap()
}

fn path_str(td: &tempfile::TempDir) -> String {
    td.path().to_str().unwrap().to_string()
}

#[test]
fn status_of_fresh_repo_with_one_untracked_file() {
    let (td, repo) = init_repo();
    write_file(&td, "a.txt", "hello");
    let entries = git_status(path_str(&td)).unwrap();
    assert_eq!(entries.len(), 1);
    assert_eq!(entries[0].path, "a.txt");
    assert_eq!(entries[0].status, "untracked");
    assert!(!entries[0].staged);

    stage(&repo, "a.txt");
    let entries = git_status(path_str(&td)).unwrap();
    assert_eq!(entries.len(), 1);
    assert!(entries[0].status == "new" || entries[0].status == "modified");
    assert!(entries[0].staged);
}

#[test]
fn status_fails_outside_any_repository() {
    let td = tempfile::tempdir().unwrap();
    let err = git_status(path_str(&td)).unwrap_err();
    assert!(matches!(err, Error::NoRepository));
    assert_eq!(err.message(), "Git repository not found at path");
}

#[test]
fn commit_without_identity_mentions_configuration() {
    let (td, repo) = init_repo();
    write_file(&td, "a.txt", "hello");
    stage(&repo, "a.txt");
    let err = git_commit(path_str(&td), String::from("first")).unwrap_err();
    assert!(
        err.message().contains("config"),
        "unexpected message: {}",
        err.message()
    );
}

#[test]
fn commit_with_identity_returns_full_id_matching_log() {
    let (td, repo) = init_repo();
    set_identity(&repo);
    write_file(&td, "a.txt", "one");
    stage(&repo, "a.txt");
    commit_index(&repo, "first");

    write_file(&td, "a.txt", "two");
    stage(&repo, "a.txt");
    let id = git_commit(path_str(&td), String::from("second")).unwrap();
    assert_eq!(id.len(), 40);
    assert!(id.chars().all(|c| c.is_ascii_hexdigit() && !c.is_ascii_uppercase()));

    let log = git_log(path_str(&td), Some(1)).unwrap();
    assert_eq!(log.len(), 1);
    assert_eq!(log[0].id, &id[..8]);
    assert_eq!(log[0].message, "second");
    assert_eq!(log[0].author, "Tester");
}

#[test]
fn log_stops_at_requested_count_newest_first() {
    let (td, repo) = init_repo();
    set_identity(&repo);
    for i in 1..=5 {
        write_file(&td, "a.txt", &format!("content {}", i));
        stage(&repo, "a.txt");
        commit_index(&repo, &format!("c{}", i));
    }
    let log = git_log(path_str(&td), Some(2)).unwrap();
    assert_eq!(log.len(), 2);
    assert_eq!(log[0].message, "c5");
    assert_eq!(log[1].message, "c4");

    let all = git_log(path_str(&td), None).unwrap();
    assert_eq!(all.len(), 5);
    assert_eq!(all[4].message, "c1");
    assert!(all[0].time >= all[4].time);

    assert!(git_log(path_str(&td), Some(0)).unwrap().is_empty());
}

#[test]
fn branch_listing_marks_only_the_head_branch_current() {
    let (td, repo) = init_repo();
    set_identity(&repo);
    write_file(&td, "a.txt", "one");
    stage(&repo, "a.txt");
    commit_index(&repo, "first");
    let head_name = repo.head().unwrap().shorthand().unwrap().to_string();

    git_create_branch(path_str(&td), String::from("feature")).unwrap();
    let branches = git_branch(path_str(&td)).unwrap();
    assert_eq!(branches.len(), 2);
    for b in &branches {
        assert!(!b.is_remote);
        assert_eq!(b.is_current, b.name == head_name);
    }
    assert!(branches.iter().any(|b| b.name == "feature"));
}

#[test]
fn creating_an_existing_branch_fails() {
    let (td, repo) = init_repo();
    set_identity(&repo);
    write_file(&td, "a.txt", "one");
    stage(&repo, "a.txt");
    commit_index(&repo, "first");

    git_create_branch(path_str(&td), String::from("feature")).unwrap();
    let err = git_create_branch(path_str(&td), String::from("feature")).unwrap_err();
    assert!(matches!(err, Error::Git(_)));
}

#[test]
fn checkout_switches_head_to_the_named_branch() {
    let (td, repo) = init_repo();
    set_identity(&repo);
    write_file(&td, "a.txt", "one");
    stage(&repo, "a.txt");
    commit_index(&repo, "first");

    git_create_branch(path_str(&td), String::from("feature")).unwrap();
    git_checkout(path_str(&td), String::from("feature")).unwrap();
    assert_eq!(repo.head().unwrap().shorthand().unwrap(), "feature");

    let err = git_checkout(path_str(&td), String::from("missing")).unwrap_err();
    assert!(matches!(err, Error::Git(_)));
}

#[test]
fn diff_shows_added_lines_with_plus_prefix() {
    let (td, repo) = init_repo();
    set_identity(&repo);
    write_file(&td, "a.txt", "line1\n");
    stage(&repo, "a.txt");
    commit_index(&repo, "first");

    write_file(&td, "a.txt", "line1\nline2\n");
    let unstaged = git_diff(path_str(&td), false).unwrap();
    assert!(unstaged.contains("+line2"), "unexpected diff: {}", unstaged);

    stage(&repo, "a.txt");
    let staged = git_diff(path_str(&td), true).unwrap();
    assert!(staged.contains("+line2"), "unexpected diff: {}", staged);
}
