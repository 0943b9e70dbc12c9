use std::path::Path;
use std::time::{SystemTime, UNIX_EPOCH};

use git2::{ObjectType, Oid, Repository};
use git_core::addin::Git;
use git_core::analysis::MergeAnalysis;
use git_core::branch::{Branch, BranchType};
use git_core::config::{AuthType, Config, Credentials};
use git_core::error::GitError;
use git_core::git::{PullResult, Repo};
use git_core::git_status::{Delta, DiffDelta, StatusEntry};
use git_core::run::{Answer, Command, Outcome, Request, Run, Step};

fn error(e: git2::Error) -> GitError {
    GitError::from_str(&e.to_string())
}

fn branch(branch: &git2::Branch) -> Branch {
    Branch {
        name: match branch.name() {
            Ok(name) => Ok(name.map(str::to_string)),
            Err(e) => Err(error(e)),
        },
    }
}

fn branch_type(kind: git2::BranchType) -> BranchType {
    match kind {
        git2::BranchType::Local => BranchType::Local,
        git2::BranchType::Remote => BranchType::Remote,
    }
}

fn delta_kind(kind: git2::Delta) -> Delta {
    match kind {
        git2::Delta::Unmodified => Delta::Unmodified,
        git2::Delta::Added => Delta::Added,
        git2::Delta::Deleted => Delta::Deleted,
        git2::Delta::Modified => Delta::Modified,
        git2::Delta::Renamed => Delta::Renamed,
        git2::Delta::Copied => Delta::Copied,
        git2::Delta::Ignored => Delta::Ignored,
        git2::Delta::Untracked => Delta::Untracked,
        git2::Delta::Typechange => Delta::Typechange,
        git2::Delta::Unreadable => Delta::Unreadable,
        git2::Delta::Conflicted => Delta::Conflicted,
    }
}

fn diff_delta(delta: &git2::DiffDelta) -> DiffDelta {
    DiffDelta {
        status: delta_kind(delta.status()),
        old_file: delta.old_file().path().and_then(Path::to_str).map(str::to_string),
        new_file: delta.new_file().path().and_then(Path::to_str).map(str::to_string),
    }
}

fn status_entry(entry: git2::StatusEntry) -> StatusEntry {
    StatusEntry {
        head_to_index: entry.head_to_index().as_ref().map(diff_delta),
        index_to_workdir: entry.index_to_workdir().as_ref().map(diff_delta),
    }
}

fn callbacks<'b>(credentials: &Option<Credentials<'b>>) -> git2::RemoteCallbacks<'b> {
    let mut callbacks = git2::RemoteCallbacks::new();
    if let Some(credentials) = credentials {
        let username = credentials.username;
        let password = credentials.password;
        callbacks.credentials(move |_url, _username_from_url, _allowed_types| {
            git2::Cred::userpass_plaintext(username, password)
        });
    }
    callbacks
}

fn fetch_options<'b>(options: &git_core::config::FetchOptions<'b>) -> git2::FetchOptions<'b> {
    let mut converted = git2::FetchOptions::new();
    converted.remote_callbacks(callbacks(&options.credentials));
    if options.prune {
        converted.prune(git2::FetchPrune::On);
    }
    converted
}

struct Handles<'r> {
    repo: &'r Repository,
    listed: Vec<git2::Branch<'r>>,
    local: Option<git2::Branch<'r>>,
    upstream: Option<git2::Branch<'r>>,
    upstream_commit: Option<git2::Commit<'r>>,
    commit: Option<git2::Commit<'r>>,
    tree: Option<git2::Tree<'r>>,
    remote: Option<git2::Remote<'r>>,
    asked: Vec<&'static str>,
}

fn missing(what: &str) -> git2::Error {
    git2::Error::from_str(&format!("{what} was not asked for before"))
}

impl<'r> Handles<'r> {
    fn perform(&mut self, request: Request) -> Result<Answer, git2::Error> {
        match request {
            Request::Clone(_) | Request::Open { .. } => {
                Err(git2::Error::from_str("the repository is open already"))
            },
            Request::Remotes => {
                self.asked.push("remotes");
                let remotes = self.repo.remotes()?;
                Ok(Answer::Names(remotes.iter().map(|name| name.map(str::to_string)).collect()))
            },
            Request::Fetch(request) => {
                self.asked.push("fetch");
                let mut remote = self.repo.find_remote(&request.remote)?;
                let mut options = fetch_options(&request.options);
                remote.fetch(&request.refspecs, Some(&mut options), None)?;
                Ok(Answer::Done)
            },
            Request::Branches => {
                self.asked.push("branches");
                self.listed.clear();
                let mut listing = Vec::new();
                for item in self.repo.branches(None)? {
                    match item {
                        Ok((found, kind)) => {
                            listing.push(Ok((branch(&found), branch_type(kind))));
                            self.listed.push(found);
                        },
                        Err(e) => listing.push(Err(error(e))),
                    }
                }
                Ok(Answer::Listing(listing))
            },
            Request::Head => {
                self.asked.push("head");
                let head = self.repo.head()?;
                Ok(Answer::Head {
                    shorthand: head.shorthand().map(str::to_string),
                    name: head.name().map(str::to_string),
                })
            },
            Request::Statuses(options) => {
                self.asked.push("statuses");
                let mut converted = git2::StatusOptions::new();
                converted
                    .renames_from_rewrites(options.renames_from_rewrites)
                    .include_untracked(options.include_untracked)
                    .renames_head_to_index(options.renames_head_to_index)
                    .renames_index_to_workdir(options.renames_index_to_workdir);
                let statuses = self.repo.statuses(Some(&mut converted))?;
                Ok(Answer::Entries(statuses.iter().map(status_entry).collect()))
            },
            Request::LocalBranch(name) => {
                self.asked.push("local branch");
                let found = self.repo.find_branch(&name, git2::BranchType::Local)?;
                let answer = branch(&found);
                self.local = Some(found);
                Ok(Answer::Branch(answer))
            },
            Request::Upstream => {
                self.asked.push("upstream");
                let local = self.local.as_ref().ok_or_else(|| missing("the local branch"))?;
                let found = local.upstream()?;
                let answer = branch(&found);
                self.upstream = Some(found);
                Ok(Answer::Branch(answer))
            },
            Request::Stage(request) => {
                self.asked.push("stage");
                let mut index = self.repo.index()?;
                let option = if request.force {
                    git2::IndexAddOption::FORCE
                } else {
                    git2::IndexAddOption::DEFAULT
                };
                index.add_all(request.pathspecs.iter(), option, None)?;
                index.write()?;
                Ok(Answer::Count(index.len()))
            },
            Request::WriteTree => {
                self.asked.push("write tree");
                let mut index = self.repo.index()?;
                let tree_oid = index.write_tree()?;
                self.tree = Some(self.repo.find_tree(tree_oid)?);
                Ok(Answer::Done)
            },
            Request::HeadCommit => {
                self.asked.push("head commit");
                let object = self.repo.head()?.resolve()?.peel(ObjectType::Commit)?;
                self.commit = object.into_commit().ok();
                Ok(Answer::Commit(self.commit.as_ref().map(|commit| commit.id().to_string())))
            },
            Request::Commit(request) => {
                self.asked.push("commit");
                let tree = self.tree.as_ref().ok_or_else(|| missing("the tree"))?;
                let parents: Vec<&git2::Commit> = self.commit.iter().collect();
                let signature =
                    git2::Signature::now(request.signature.name, request.signature.email)?;
                let id = self.repo.commit(
                    Some(request.update_ref),
                    &signature,
                    &signature,
                    &request.message,
                    tree,
                    &parents,
                )?;
                Ok(Answer::Id(id.to_string()))
            },
            Request::Tip(position) => {
                self.asked.push("tip");
                let found = self.listed.get(position).ok_or_else(|| missing("the branch"))?;
                let object = found.get().resolve()?.peel(ObjectType::Commit)?;
                self.commit = object.into_commit().ok();
                Ok(Answer::Commit(self.commit.as_ref().map(|commit| commit.id().to_string())))
            },
            Request::CreateBranch(new_branch) => {
                self.asked.push("create branch");
                let commit = self.commit.as_ref().ok_or_else(|| missing("the commit"))?;
                self.repo
                    .branch(&new_branch.name, commit, new_branch.force)?
                    .set_upstream(Some(&new_branch.upstream))?;
                Ok(Answer::Done)
            },
            Request::SetHead(reference) => {
                self.asked.push("set head");
                self.repo.set_head(&reference)?;
                Ok(Answer::Done)
            },
            Request::CheckoutHead(options) => {
                self.asked.push("checkout head");
                let mut builder = git2::build::CheckoutBuilder::new();
                builder.allow_conflicts(options.allow_conflicts);
                if options.force {
                    builder.force();
                }
                self.repo.checkout_head(Some(&mut builder))?;
                Ok(Answer::Done)
            },
            Request::Remote(name) => {
                self.asked.push("remote");
                self.remote = Some(self.repo.find_remote(name)?);
                Ok(Answer::Done)
            },
            Request::Push(request) => {
                self.asked.push("push");
                let remote = self.remote.as_mut().ok_or_else(|| missing("the remote"))?;
                let mut options = git2::PushOptions::new();
                options.remote_callbacks(callbacks(&request.options.credentials));
                remote.push(&request.refspecs, Some(&mut options))?;
                Ok(Answer::Done)
            },
            Request::Tips => {
                self.asked.push("tips");
                let local = self.local.as_ref().ok_or_else(|| missing("the local branch"))?;
                let upstream = self.upstream.as_ref().ok_or_else(|| missing("the upstream"))?;
                let local_id = local.get().peel_to_commit()?.id();
                let upstream_commit = upstream.get().peel_to_commit()?;
                let upstream_id = upstream_commit.id();
                self.upstream_commit = Some(upstream_commit);
                Ok(Answer::Tips { local: local_id.to_string(), upstream: upstream_id.to_string() })
            },
            Request::Analyze => {
                self.asked.push("analyze");
                let local = self.local.as_ref().ok_or_else(|| missing("the local branch"))?;
                let commit =
                    self.upstream_commit.as_ref().ok_or_else(|| missing("the upstream's tip"))?;
                let annotated = self.repo.find_annotated_commit(commit.id())?;
                let (analysis, _preference) =
                    self.repo.merge_analysis_for_ref(local.get(), &[&annotated])?;
                Ok(Answer::Analysis(MergeAnalysis { bits: analysis.bits() }))
            },
            Request::SetTarget { target, log_message } => {
                self.asked.push("set target");
                let local = self.local.as_mut().ok_or_else(|| missing("the local branch"))?;
                let moved = local.get_mut().set_target(Oid::from_str(&target)?, &log_message)?;
                Ok(Answer::Id(moved.peel_to_commit()?.id().to_string()))
            },
        }
    }
}

fn tell<'a>(run: Run<'a>, answer: Answer) -> (Run<'a>, Step<'a>) {
    assert!(run.accepts(&answer), "the engine answered {:?} to another question", answer);
    run.next(answer)
}

/// Carries the operation out, and gives its result with the names of the
/// requests that were made after the repository was open.
fn run_and_watch(config: &Config, command: Command) -> (Result<Outcome, GitError>, Vec<&'static str>) {
    let (run, step) = Run::start(Repo::open(config), command);
    let first = match step {
        Step::Finish(result) => return (result, Vec::new()),
        Step::Ask(request) => request,
    };
    let opened = match first {
        Request::Open { path } => Repository::open(path),
        Request::Clone(request) => git2::build::RepoBuilder::new()
            .fetch_options(fetch_options(&request.options))
            .clone(&request.url, Path::new(request.path)),
        _ => panic!("a run starts by opening or cloning the repository"),
    };
    let repository = match opened {
        Ok(repository) => repository,
        Err(e) => {
            return match tell(run, Answer::Failed(error(e))).1 {
                Step::Finish(result) => (result, Vec::new()),
                Step::Ask(_) => panic!("the run went on without a repository"),
            }
        },
    };
    let mut handles = Handles {
        repo: &repository,
        listed: Vec::new(),
        local: None,
        upstream: None,
        upstream_commit: None,
        commit: None,
        tree: None,
        remote: None,
        asked: Vec::new(),
    };
    let (mut run, mut step) = tell(run, Answer::Done);
    loop {
        let request = match step {
            Step::Finish(result) => return (result, handles.asked),
            Step::Ask(request) => request,
        };
        let answer = handles.perform(request).unwrap_or_else(|e| Answer::Failed(error(e)));
        (run, step) = tell(run, answer);
    }
}

fn run(config: &Config, command: Command) -> Result<Outcome, GitError> {
    run_and_watch(config, command).0
}

fn fresh_directory(name: &str) -> String {
    let nanos = SystemTime::now().duration_since(UNIX_EPOCH).map(|d| d.as_nanos()).unwrap_or(0);
    format!("/tmp/git_core_on_disk/{name}_{nanos}")
}

fn config(path: &str) -> Config {
    Config {
        username: "ferris".to_string(),
        auth: AuthType::Anonymous,
        email: "ferris@example.org".to_string(),
        path: path.to_string(),
    }
}

fn signature() -> git2::Signature<'static> {
    git2::Signature::now("setup", "setup@example.org").unwrap()
}

/// Adds a commit with an empty tree to `reference`, on top of its tip if it
/// has one.
fn commit_empty(repo: &Repository, reference: &str, message: &str) -> Oid {
    let tree_id = repo.treebuilder(None).unwrap().write().unwrap();
    let tree = repo.find_tree(tree_id).unwrap();
    let parent = repo.refname_to_id(reference).ok().map(|id| repo.find_commit(id).unwrap());
    let parents: Vec<&git2::Commit> = parent.iter().collect();
    repo.commit(Some(reference), &signature(), &signature(), message, &tree, &parents).unwrap()
}

/// A repository with two commits on `main` and no remotes.
fn repository_with_two_commits(path: &str) -> Repository {
    let repo = Repository::init(path).unwrap();
    repo.set_head("refs/heads/main").unwrap();
    commit_empty(&repo, "refs/heads/main", "first");
    commit_empty(&repo, "refs/heads/main", "second");
    repo
}

/// Puts a file into the working directory that the index does not know.
fn create_untracked_file(repo: &Repository, name: &str, content: &[u8]) {
    let blob = repo.blob(content).unwrap();
    let mut builder = repo.treebuilder(None).unwrap();
    builder.insert(name, blob, 0o100644).unwrap();
    let tree = repo.find_tree(builder.write().unwrap()).unwrap();
    let mut checkout = git2::build::CheckoutBuilder::new();
    checkout.force();
    repo.checkout_tree(tree.as_object(), Some(&mut checkout)).unwrap();
    let mut index = repo.index().unwrap();
    index.remove_path(Path::new(name)).unwrap();
    index.write().unwrap();
}

/// A bare repository with one commit on `main`, and a clone of it whose
/// `main` follows `origin/main`.
fn remote_and_clone(name: &str) -> (Repository, String, String) {
    let base = fresh_directory(name);
    let remote_path = format!("{base}/remote.git");
    let local_path = format!("{base}/local");
    let remote = Repository::init_bare(&remote_path).unwrap();
    remote.set_head("refs/heads/main").unwrap();
    commit_empty(&remote, "refs/heads/main", "first");
    let cloned = run(
        &config(&local_path),
        Command::Clone { url: remote_path.clone() },
    );
    assert_eq!(cloned, Ok(Outcome::Cloned));
    (remote, remote_path, local_path)
}

fn status_text(config: &Config) -> String {
    Git::default().answer(run(config, Command::Status))
}

#[test]
fn status_add_commit_on_disk() {
    let path = fresh_directory("scenario");
    let repo = repository_with_two_commits(&path);
    let config = config(&path);
    let git = Git::default();

    assert_eq!(status_text(&config), "on branch main\nnothing to commit, working tree clean");

    create_untracked_file(&repo, "a.txt", b"hello\n");
    assert_eq!(status_text(&config), "on branch main\nUntracked files:\n\tuntracked: a.txt");

    let added = run(&config, Command::AddAll);
    assert_eq!(added, Ok(Outcome::Added(1)));
    assert_eq!(git.answer(added), "1 files to be committed");

    match run(&config, Command::Status) {
        Ok(Outcome::Status(summary)) => {
            assert_eq!(summary.staged.len(), 1);
            assert_eq!(summary.staged[0].to_string(), "added: a.txt");
            assert!(summary.not_staged.is_empty());
            assert!(summary.untracked.is_empty());
        },
        other => panic!("{:?}", other),
    }

    let before = repo.head().unwrap().peel_to_commit().unwrap().id();
    match run(&config, Command::Commit { message: "msg".to_string() }) {
        Ok(Outcome::Committed(id)) => {
            assert_eq!(id.len(), 40);
            assert!(id.chars().all(|c| c.is_ascii_hexdigit()));
            let commit = repo.head().unwrap().peel_to_commit().unwrap();
            assert_eq!(commit.id().to_string(), id);
            assert_eq!(commit.message(), Some("msg"));
            assert_eq!(commit.parent_count(), 1);
            assert_eq!(commit.parent_id(0).unwrap(), before);
            assert_eq!(commit.author().name(), Some("ferris"));
            assert_eq!(commit.author().email(), Some("ferris@example.org"));
            assert_eq!(commit.committer().name(), Some("ferris"));
        },
        other => panic!("{:?}", other),
    }

    assert_eq!(status_text(&config), "on branch main\nnothing to commit, working tree clean");
}

#[test]
fn staged_and_changed_again_on_disk() {
    let path = fresh_directory("changed_again");
    let repo = repository_with_two_commits(&path);
    let config = config(&path);
    create_untracked_file(&repo, "a.txt", b"one\n");
    assert_eq!(run(&config, Command::AddAll), Ok(Outcome::Added(1)));

    let mut index = repo.index().unwrap();
    index.read(true).unwrap();
    let staged = index.get_path(Path::new("a.txt"), 0).unwrap();
    create_untracked_file(&repo, "a.txt", b"two, and longer\n");
    index.read(true).unwrap();
    index.add(&staged).unwrap();
    index.write().unwrap();

    assert_eq!(
        status_text(&config),
        "on branch main\nChanges to be committed:\n\tadded: a.txt\nChanges not staged for commit:\n\tmodified: a.txt"
    );
}

#[test]
fn add_of_chosen_paths_on_disk() {
    let path = fresh_directory("chosen_paths");
    let repo = repository_with_two_commits(&path);
    let config = config(&path);
    create_untracked_file(&repo, "a.txt", b"a\n");
    let added = run(&config, Command::Add { pathspecs: vec!["b.txt".to_string()] });
    assert_eq!(added, Ok(Outcome::Added(0)));
    let added = run(&config, Command::Add { pathspecs: vec!["a.txt".to_string()] });
    assert_eq!(added, Ok(Outcome::Added(1)));
}

#[test]
fn commit_on_a_branch_without_commits_fails_on_disk() {
    let path = fresh_directory("unborn");
    let repo = Repository::init(&path).unwrap();
    repo.set_head("refs/heads/main").unwrap();
    let (result, asked) = run_and_watch(&config(&path), Command::Commit { message: "m".to_string() });
    assert!(matches!(result, Err(GitError::Engine(_))));
    assert_eq!(asked, vec!["write tree", "head commit"]);
    assert!(repo.head().is_err());
}

#[test]
fn repository_that_is_not_there() {
    let path = fresh_directory("nowhere");
    let result = run(&config(&path), Command::Status);
    match result {
        Err(GitError::Engine(message)) => assert!(!message.is_empty()),
        other => panic!("{:?}", other),
    }
}

#[test]
fn branches_and_current_branch_on_disk() {
    let (_remote, _remote_path, local_path) = remote_and_clone("branches");
    let config = config(&local_path);
    let git = Git::default();

    let (branches, asked) = run_and_watch(&config, Command::Branches);
    assert_eq!(asked, vec!["remotes", "fetch", "branches"]);
    match &branches {
        Ok(Outcome::Branches(found)) => {
            assert!(found.contains(&(Branch::named("main"), BranchType::Local)));
            assert!(found.contains(&(Branch::named("origin/main"), BranchType::Remote)));
        },
        other => panic!("{:?}", other),
    }
    let text = git.answer(branches);
    assert!(text.lines().any(|line| line == "Local main"));
    assert!(text.lines().any(|line| line == "Remote origin/main"));

    assert_eq!(git.answer(run(&config, Command::CurrentBranch)), "main:origin/main");
}

#[test]
fn current_branch_without_upstream_on_disk() {
    let path = fresh_directory("no_upstream");
    let _repo = repository_with_two_commits(&path);
    let (result, asked) = run_and_watch(&config(&path), Command::CurrentBranch);
    assert_eq!(asked, vec!["head", "local branch", "upstream"]);
    assert_eq!(Git::default().answer(result), "main:[No upstream branch tracked]");
}

#[test]
fn pull_without_new_commits_is_up_to_date() {
    let (_remote, _remote_path, local_path) = remote_and_clone("up_to_date");
    let (result, asked) =
        run_and_watch(&config(&local_path), Command::Pull { branch_name: "main".to_string() });
    assert_eq!(result, Ok(Outcome::Pulled(PullResult::UpToDate)));
    assert_eq!(
        asked,
        vec!["remotes", "fetch", "local branch", "upstream", "tips", "analyze"]
    );
}

#[test]
fn pull_after_a_new_commit_upstream() {
    let (remote, _remote_path, local_path) = remote_and_clone("new_upstream");
    let local = Repository::open(&local_path).unwrap();
    let before = local.refname_to_id("refs/heads/main").unwrap();
    commit_empty(&remote, "refs/heads/main", "second");

    let result = run(&config(&local_path), Command::Pull { branch_name: "main".to_string() });

    let analysis = MergeAnalysis {
        bits: (git2::MergeAnalysis::ANALYSIS_NORMAL | git2::MergeAnalysis::ANALYSIS_FASTFORWARD)
            .bits(),
    };
    let expected = match Repo::open(&config(&local_path)).pull("main", analysis, String::new()) {
        git_core::git::PullStep::Done(result) => result,
        git_core::git::PullStep::FastForward { .. } => panic!("the first flag decides"),
    };
    assert_eq!(result, Ok(Outcome::Pulled(expected)));
    assert_eq!(result, Ok(Outcome::Pulled(PullResult::Normal)));
    assert_eq!(local.refname_to_id("refs/heads/main").unwrap(), before);
    assert_ne!(local.refname_to_id("refs/remotes/origin/main").unwrap(), before);
}

#[test]
fn pull_on_histories_without_a_common_commit() {
    let base = fresh_directory("unrelated");
    let remote_path = format!("{base}/remote.git");
    let local_path = format!("{base}/local");
    let remote = Repository::init_bare(&remote_path).unwrap();
    remote.set_head("refs/heads/main").unwrap();
    commit_empty(&remote, "refs/heads/main", "theirs");

    let local = Repository::init(&local_path).unwrap();
    local.set_head("refs/heads/main").unwrap();
    let blob = local.blob(b"ours\n").unwrap();
    let mut builder = local.treebuilder(None).unwrap();
    builder.insert("ours.txt", blob, 0o100644).unwrap();
    let tree = local.find_tree(builder.write().unwrap()).unwrap();
    let ours = local
        .commit(Some("refs/heads/main"), &signature(), &signature(), "ours", &tree, &[])
        .unwrap();
    local.remote("origin", &remote_path).unwrap().fetch(&[] as &[&str], None, None).unwrap();
    local
        .find_branch("main", git2::BranchType::Local)
        .unwrap()
        .set_upstream(Some("origin/main"))
        .unwrap();

    let result = run(&config(&local_path), Command::Pull { branch_name: "main".to_string() });
    assert_eq!(result, Ok(Outcome::Pulled(PullResult::Normal)));
    assert_eq!(local.refname_to_id("refs/heads/main").unwrap(), ours);
}

#[test]
fn pull_of_a_branch_without_commits_fails() {
    let (_remote, _remote_path, local_path) = remote_and_clone("pull_unborn");
    let local = Repository::open(&local_path).unwrap();
    local.set_head("refs/heads/empty").unwrap();
    let (result, asked) =
        run_and_watch(&config(&local_path), Command::Pull { branch_name: "empty".to_string() });
    assert!(matches!(result, Err(GitError::Engine(_))));
    assert_eq!(asked, vec!["remotes", "fetch", "local branch"]);
}

#[test]
fn pull_of_a_branch_that_follows_nothing_fails() {
    let path = fresh_directory("pull_no_upstream");
    let _repo = repository_with_two_commits(&path);
    let (result, asked) =
        run_and_watch(&config(&path), Command::Pull { branch_name: "main".to_string() });
    assert!(matches!(result, Err(GitError::Engine(_))));
    assert_eq!(asked, vec!["remotes", "local branch", "upstream"]);
}

#[test]
fn checkout_of_a_remote_branch_twice() {
    let (remote, _remote_path, local_path) = remote_and_clone("checkout_twice");
    let tip = commit_empty(&remote, "refs/heads/topic", "topic");
    let config = config(&local_path);
    let local = Repository::open(&local_path).unwrap();
    assert!(local.find_branch("topic", git2::BranchType::Local).is_err());

    let (first, asked) =
        run_and_watch(&config, Command::Checkout { branch_name: "topic".to_string() });
    assert_eq!(first, Ok(Outcome::CheckedOut { branch_name: "topic".to_string() }));
    assert_eq!(
        asked,
        vec!["remotes", "fetch", "branches", "tip", "create branch", "set head", "checkout head"]
    );
    let created = local.find_branch("topic", git2::BranchType::Local).unwrap();
    assert_eq!(created.get().target(), Some(tip));
    assert_eq!(created.upstream().unwrap().name().unwrap(), Some("origin/topic"));
    assert_eq!(local.head().unwrap().name(), Some("refs/heads/topic"));
    let status_after_first = status_text(&config);

    let (second, asked) =
        run_and_watch(&config, Command::Checkout { branch_name: "topic".to_string() });
    assert_eq!(second, Ok(Outcome::CheckedOut { branch_name: "topic".to_string() }));
    assert_eq!(asked, vec!["remotes", "fetch", "branches", "tip", "set head", "checkout head"]);
    assert_eq!(local.head().unwrap().name(), Some("refs/heads/topic"));
    assert_eq!(local.head().unwrap().target(), Some(tip));
    assert_eq!(status_text(&config), status_after_first);
    assert_eq!(status_after_first, "on branch topic\nnothing to commit, working tree clean");
}

#[test]
fn checkout_of_an_unknown_branch_on_disk() {
    let (_remote, _remote_path, local_path) = remote_and_clone("checkout_unknown");
    let config = config(&local_path);
    let (result, asked) =
        run_and_watch(&config, Command::Checkout { branch_name: "nope".to_string() });
    assert_eq!(result, Err(GitError::NoBranchWithThisName));
    assert_eq!(asked, vec!["remotes", "fetch", "branches"]);
    assert_eq!(Git::default().answer(result), "no branch with this name");
    let local = Repository::open(&local_path).unwrap();
    assert_eq!(local.head().unwrap().name(), Some("refs/heads/main"));
}

#[test]
fn checkout_discards_changes_of_the_working_tree() {
    let (remote, _remote_path, local_path) = remote_and_clone("checkout_discards");
    let blob = remote.blob(b"from the remote\n").unwrap();
    let mut builder = remote.treebuilder(None).unwrap();
    builder.insert("a.txt", blob, 0o100644).unwrap();
    let tree = remote.find_tree(builder.write().unwrap()).unwrap();
    let parent = remote.find_commit(remote.refname_to_id("refs/heads/main").unwrap()).unwrap();
    remote
        .commit(Some("refs/heads/topic"), &signature(), &signature(), "topic", &tree, &[&parent])
        .unwrap();

    let config = config(&local_path);
    let local = Repository::open(&local_path).unwrap();
    create_untracked_file(&local, "a.txt", b"a local edit\n");

    let result = run(&config, Command::Checkout { branch_name: "topic".to_string() });
    assert_eq!(result, Ok(Outcome::CheckedOut { branch_name: "topic".to_string() }));
    assert_eq!(status_text(&config), "on branch topic\nnothing to commit, working tree clean");
    let head_tree = local.head().unwrap().peel_to_tree().unwrap();
    assert_eq!(head_tree.get_name("a.txt").unwrap().id(), blob);
}

#[test]
fn push_on_disk() {
    let (remote, _remote_path, local_path) = remote_and_clone("push");
    let local = Repository::open(&local_path).unwrap();
    let pushed = commit_empty(&local, "refs/heads/main", "second");
    assert_ne!(remote.refname_to_id("refs/heads/main").unwrap(), pushed);

    let (result, asked) = run_and_watch(&config(&local_path), Command::Push);
    assert_eq!(result, Ok(Outcome::Pushed));
    assert_eq!(asked, vec!["remotes", "fetch", "remote", "head", "push"]);
    assert_eq!(remote.refname_to_id("refs/heads/main").unwrap(), pushed);
}

#[test]
fn push_without_origin_fails_on_disk() {
    let path = fresh_directory("push_no_origin");
    let _repo = repository_with_two_commits(&path);
    let (result, asked) = run_and_watch(&config(&path), Command::Push);
    assert!(matches!(result, Err(GitError::Engine(_))));
    assert_eq!(asked, vec!["remotes", "remote"]);
}

#[test]
fn merge_on_disk_touches_nothing() {
    let path = fresh_directory("merge");
    let (result, asked) = run_and_watch(&config(&path), Command::Merge);
    assert_eq!(result, Ok(Outcome::Merged));
    assert!(asked.is_empty());
    assert!(Repository::open(&path).is_err());
}
