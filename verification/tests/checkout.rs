use git_core::branch::{Branch, BranchType};
use git_core::config::Config;
use git_core::error::GitError;
use git_core::git::{find_branch, CheckoutOptions, CheckoutPlan, NewBranch, Repo};

fn local(name: &str) -> (Branch, BranchType) {
    (Branch::named(name), BranchType::Local)
}

fn remote(name: &str) -> (Branch, BranchType) {
    (Branch::named(name), BranchType::Remote)
}

fn forced() -> CheckoutOptions {
    CheckoutOptions { force: true, allow_conflicts: true }
}

fn plan(name: &str, branches: &Vec<(Branch, BranchType)>) -> Result<CheckoutPlan, GitError> {
    let config = Config::default();
    Repo::open(&config).checkout(name, branches)
}

#[test]
fn checkout_of_a_local_branch() {
    let branches = vec![local("main"), local("dev"), remote("origin/main")];
    assert_eq!(
        plan("dev", &branches),
        Ok(CheckoutPlan {
            source: 1,
            create: None,
            head: "refs/heads/dev".to_string(),
            options: forced(),
        })
    );
}

#[test]
fn checkout_of_a_branch_that_only_the_remote_has() {
    let branches = vec![local("main"), remote("origin/main"), remote("origin/feature")];
    assert_eq!(
        plan("feature", &branches),
        Ok(CheckoutPlan {
            source: 2,
            create: Some(NewBranch {
                name: "feature".to_string(),
                upstream: "origin/feature".to_string(),
                force: false,
            }),
            head: "refs/heads/feature".to_string(),
            options: forced(),
        })
    );
}

#[test]
fn local_branch_wins_over_its_remote_counterpart() {
    let remote_first = vec![remote("origin/main"), local("main")];
    let found = plan("main", &remote_first).unwrap();
    assert_eq!(found.source, 1);
    assert_eq!(found.create, None);

    let local_first = vec![local("main"), remote("origin/main")];
    let found = plan("main", &local_first).unwrap();
    assert_eq!(found.source, 0);
    assert_eq!(found.create, None);
}

#[test]
fn checkout_of_an_unknown_branch_fails() {
    let branches = vec![local("main"), remote("origin/main")];
    assert_eq!(plan("nope", &branches), Err(GitError::NoBranchWithThisName));
    assert_eq!(plan("main", &Vec::new()), Err(GitError::NoBranchWithThisName));
    assert_eq!(GitError::NoBranchWithThisName.to_string(), "no branch with this name");
}

#[test]
fn remote_branch_of_another_remote_does_not_count() {
    let branches = vec![remote("upstream/topic"), remote("topic")];
    assert_eq!(plan("topic", &branches), Err(GitError::NoBranchWithThisName));
}

#[test]
fn local_branch_named_like_a_remote_one_does_not_count_as_remote() {
    let branches = vec![local("origin/topic")];
    assert_eq!(plan("topic", &branches), Err(GitError::NoBranchWithThisName));
    let found = plan("origin/topic", &branches).unwrap();
    assert_eq!(found.source, 0);
    assert_eq!(found.head, "refs/heads/origin/topic");
}

#[test]
fn branches_without_a_name_are_passed_over() {
    let branches = vec![
        (Branch { name: Ok(None) }, BranchType::Local),
        (Branch { name: Err(GitError::from_str("main")) }, BranchType::Local),
        local("main"),
    ];
    assert_eq!(plan("main", &branches).unwrap().source, 2);
}

#[test]
fn first_of_several_is_the_source() {
    let branches = vec![remote("origin/x"), remote("origin/x"), local("y"), local("y")];
    assert_eq!(plan("x", &branches).unwrap().source, 0);
    assert_eq!(plan("y", &branches).unwrap().source, 2);
}

#[test]
fn checkout_overwrites_the_working_tree() {
    let found = plan("main", &vec![local("main")]).unwrap();
    assert!(found.options.force);
    assert!(found.options.allow_conflicts);
}

#[test]
fn second_checkout_creates_nothing() {
    let before = vec![local("main"), remote("origin/topic")];
    let first = plan("topic", &before).unwrap();
    assert!(first.create.is_some());

    let mut after = before.clone();
    after.push(local("topic"));
    let second = plan("topic", &after).unwrap();
    assert_eq!(second.create, None);
    assert_eq!(second.head, first.head);
    assert_eq!(second.options, first.options);
    assert_eq!(after[second.source], local("topic"));

    let third = plan("topic", &after).unwrap();
    assert_eq!(third, second);
}

#[test]
fn find_branch_gives_the_first_position() {
    let branches = vec![remote("a"), local("a"), local("b"), local("a")];
    assert_eq!(find_branch(&branches, BranchType::Local, &"a".to_string()), Some(1));
    assert_eq!(find_branch(&branches, BranchType::Remote, &"a".to_string()), Some(0));
    assert_eq!(find_branch(&branches, BranchType::Remote, &"b".to_string()), None);
    assert_eq!(find_branch(&Vec::new(), BranchType::Local, &"a".to_string()), None);
}

#[test]
fn tip_that_is_no_commit_fails_the_checkout() {
    let config = Config::default();
    let repo = Repo::open(&config);
    assert_eq!(repo.checkout_commit(None), Err(GitError::FailedToObtainCommit));
    assert_eq!(repo.checkout_commit(Some("abc".to_string())), Ok("abc".to_string()));
    assert_eq!(GitError::FailedToObtainCommit.to_string(), "Failed to obtain commit");
}

#[test]
fn empty_branch_name() {
    let branches = vec![local(""), remote("origin/")];
    let found = plan("", &branches).unwrap();
    assert_eq!(found.source, 0);
    assert_eq!(found.head, "refs/heads/");
}
