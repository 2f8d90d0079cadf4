use branch_picker::git::divergence_plan;
use branch_picker::git::plan_for;
use branch_picker::git::split_remote_name;
use branch_picker::git::CheckoutPlan;
use branch_picker::git::DivergencePlan;
use branch_picker::git::GitError;

fn names(v: &[&str]) -> Vec<String> {
    v.iter().map(|s| s.to_string()).collect()
}

#[test]
fn local_name_is_used_directly() {
    let locals = names(&["main", "dev"]);
    let plan = plan_for(&"dev".to_string(), &locals);
    assert_eq!(plan, CheckoutPlan::UseLocal { local: "dev".to_string() });
}

#[test]
fn fresh_remote_name_creates_tracking_branch() {
    let locals = names(&["main", "dev"]);
    let plan = plan_for(&"origin/feature".to_string(), &locals);
    assert_eq!(
        plan,
        CheckoutPlan::CreateTracking {
            remote: "origin/feature".to_string(),
            local: "feature".to_string(),
        }
    );
}

#[test]
fn remote_name_with_local_counterpart_compares_commits() {
    let locals = names(&["main", "dev"]);
    let plan = plan_for(&"origin/main".to_string(), &locals);
    assert_eq!(
        plan,
        CheckoutPlan::CompareWithLocal {
            remote: "origin/main".to_string(),
            local: "main".to_string(),
        }
    );
}

#[test]
fn unknown_name_without_slash_is_malformed() {
    let locals = names(&["main", "dev"]);
    let plan = plan_for(&"nonsense".to_string(), &locals);
    assert_eq!(plan, CheckoutPlan::Malformed);
}

#[test]
fn split_takes_everything_after_the_first_slash() {
    assert_eq!(
        split_remote_name("origin/feature/login"),
        Some("feature/login".to_string())
    );
    assert_eq!(split_remote_name("origin/main"), Some("main".to_string()));
    assert_eq!(split_remote_name("main"), None);
    assert_eq!(split_remote_name(""), None);
}

#[test]
fn identical_commits_pick_the_local_branch() {
    let id = vec![1u8, 2, 3];
    let plan = divergence_plan(
        &"origin/main".to_string(),
        &"main".to_string(),
        &id,
        &id.clone(),
    );
    assert_eq!(plan, DivergencePlan::CheckoutLocal { local: "main".to_string() });
}

#[test]
fn diverged_commits_pick_the_detached_remote() {
    let plan = divergence_plan(
        &"origin/main".to_string(),
        &"main".to_string(),
        &vec![1u8, 2, 3],
        &vec![1u8, 2, 4],
    );
    assert_eq!(
        plan,
        DivergencePlan::CheckoutDetached { remote: "origin/main".to_string() }
    );
}

#[test]
fn malformed_remote_name_message_matches() {
    let e = GitError::MalformedRemoteName;
    assert_eq!(e.message(), "Invalid remote branch name".to_string());
}

#[test]
fn backend_message_is_passed_through() {
    let e = GitError::Backend("boom".to_string());
    assert_eq!(e.message(), "boom".to_string());
}
