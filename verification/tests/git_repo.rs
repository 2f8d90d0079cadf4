//! Scenarios against a real repository: each test builds a small repository
//! and drives a checkout through the adapter.

use branch_picker::git::CheckoutType;
use branch_picker::git::GitError;
use branch_picker::git::GitManager;

fn empty_tree(repo: &git2::Repository) -> git2::Oid {
    let tb = repo.treebuilder(None).unwrap();
    tb.write().unwrap()
}

fn make_commit(repo: &git2::Repository, message: &str) -> git2::Oid {
    let sig = git2::Signature::new("tester", "tester@example.com", &git2::Time::new(1000, 0))
        .unwrap();
    let tree = repo.find_tree(empty_tree(repo)).unwrap();
    repo.commit(None, &sig, &sig, message, &tree, &[]).unwrap()
}

/// A repository with local branch `main` at one commit and remote-tracking
/// refs as asked; hands back the two commit ids.
fn make_repo(path: &str) -> (git2::Repository, git2::Oid, git2::Oid) {
    let repo = git2::Repository::init(path).unwrap();
    if repo.find_remote("origin").is_err() {
        repo.remote("origin", "https://invalid.example/repo.git").unwrap();
    }
    let a = make_commit(&repo, "first");
    let b = make_commit(&repo, "second");
    {
        // park HEAD on a bare commit so the branch below can be (re)created
        repo.set_head_detached(a).unwrap();
        let commit_a = repo.find_commit(a).unwrap();
        repo.branch("main", &commit_a, true).unwrap();
    }
    (repo, a, b)
}

fn manager(repo: git2::Repository, locals: &[&str], remotes: &[&str]) -> GitManager {
    GitManager {
        repo,
        local_branches: locals.iter().map(|s| s.to_string()).collect(),
        remote_branches: remotes.iter().map(|s| s.to_string()).collect(),
    }
}

#[test]
fn local_branch_checks_out_attached() {
    let (repo, _a, _b) = make_repo("/tmp/branch_picker_scenario_local");
    let git = manager(repo, &["main"], &[]);
    let got = git.checkout(&"main".to_string()).unwrap();
    assert_eq!(got.branch_name, "main".to_string());
    assert_eq!(got.checkout_type, CheckoutType::LOCAL);
}

#[test]
fn fresh_remote_creates_tracking_branch_and_attaches() {
    let (repo, a, _b) = make_repo("/tmp/branch_picker_scenario_tracking");
    repo.reference("refs/remotes/origin/feature", a, true, "test").unwrap();
    if let Ok(mut stale) = repo.find_branch("feature", git2::BranchType::Local) {
        stale.delete().unwrap();
    }
    let git = manager(repo, &["main"], &["origin/main", "origin/feature"]);
    let got = git.checkout(&"origin/feature".to_string()).unwrap();
    assert_eq!(got.branch_name, "feature".to_string());
    assert_eq!(got.checkout_type, CheckoutType::LOCAL);
    let created = git.repo.find_branch("feature", git2::BranchType::Local).unwrap();
    assert_eq!(created.get().target().unwrap(), a);
    assert!(created.upstream().is_ok());
}

#[test]
fn remote_matching_local_checks_out_the_local_branch() {
    let (repo, a, _b) = make_repo("/tmp/branch_picker_scenario_up_to_date");
    repo.reference("refs/remotes/origin/main", a, true, "test").unwrap();
    let git = manager(repo, &["main"], &["origin/main"]);
    let got = git.checkout(&"origin/main".to_string()).unwrap();
    assert_eq!(got.branch_name, "main".to_string());
    assert_eq!(got.checkout_type, CheckoutType::LOCAL);
}

#[test]
fn diverged_remote_detaches_and_leaves_the_local_branch_alone() {
    let (repo, a, b) = make_repo("/tmp/branch_picker_scenario_diverged");
    repo.reference("refs/remotes/origin/main", b, true, "test").unwrap();
    let before = repo.find_reference("refs/heads/main").unwrap().target().unwrap();
    assert_eq!(before, a);
    let git = manager(repo, &["main"], &["origin/main"]);
    let got = git.checkout(&"origin/main".to_string()).unwrap();
    assert_eq!(got.branch_name, "origin/main".to_string());
    assert_eq!(got.checkout_type, CheckoutType::REMOTE);
    let after = git.repo.find_reference("refs/heads/main").unwrap().target().unwrap();
    assert_eq!(after, a);
}

#[test]
fn unknown_name_without_slash_is_rejected_as_malformed() {
    let (repo, _a, _b) = make_repo("/tmp/branch_picker_scenario_malformed");
    let git = manager(repo, &["main"], &[]);
    let got = git.checkout(&"nonsense".to_string());
    assert!(matches!(got, Err(GitError::MalformedRemoteName)));
}

#[test]
fn vanished_remote_ref_reports_reference_not_found() {
    let (repo, _a, _b) = make_repo("/tmp/branch_picker_scenario_vanished");
    if let Ok(mut stale) = repo.find_branch("gone", git2::BranchType::Local) {
        stale.delete().unwrap();
    }
    let git = manager(repo, &["main"], &["origin/gone"]);
    let got = git.checkout(&"origin/gone".to_string());
    assert!(matches!(got, Err(GitError::ReferenceNotFound(_))));
}
