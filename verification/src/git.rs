//! The repository session: what each operation asks of the engine and what it
//! makes of the engine's answers.
//!
//! A session borrows the configuration and holds no other state. The caller
//! owns the engine's handle, performs each request that the session hands out
//! and hands back what the engine reported.
use vstd::prelude::*;
use vstd::string::*;

use crate::analysis::{MergeAnalysis, Verdict};
use crate::branch::{head_name, Branch, BranchType, TrackedBranch};
use crate::config::{credentials_view, AuthType, Config, Credentials, FetchOptions, PushOptions};
use crate::error::GitError;
use crate::git_status::{StatusEntry, StatusSummary, StatusSummaryView};

verus! {

/// The remote that checkout and push work with.
pub const ORIGIN: &'static str = "origin";

/// The reference that a commit moves.
pub const HEAD: &'static str = "HEAD";

/// The path specification that matches every path of the working directory.
pub const ALL_PATHS: &'static str = ".";

/// The operations of a session.
#[derive(Clone, Copy, Debug, PartialEq, Eq, Structural)]
pub enum Operation {
    Clone,
    Branches,
    CurrentBranch,
    Status,
    Add,
    Commit,
    Checkout,
    Push,
    Pull,
    Merge,
}

impl Operation {
    /// Whether the operation works with the state of a remote, so that every
    /// remote is fetched from before it starts.
    pub open spec fn touches_remote(self) -> bool {
        self == Operation::Branches || self == Operation::Checkout || self == Operation::Push
            || self == Operation::Pull
    }

    /// Whether a fetch from every remote comes before the operation.
    pub fn fetches_first(self) -> (r: bool)
        ensures
            r == self.touches_remote(),
    {
        match self {
            Operation::Branches | Operation::Checkout | Operation::Push | Operation::Pull => true,
            _ => false,
        }
    }
}

/// The name of the remote-tracking branch that stands for `name` on the
/// remote `origin`.
pub open spec fn remote_name(name: Seq<char>) -> Seq<char> {
    "origin/"@ + name
}

/// The full reference name of the local branch `name`.
pub open spec fn head_ref(name: Seq<char>) -> Seq<char> {
    "refs/heads/"@ + name
}

/// The note that the reference log gets when `name` is moved forward.
pub open spec fn fast_forward_note(name: Seq<char>) -> Seq<char> {
    "fast forward branch '"@ + name + "' tip"@
}

fn prefixed(prefix: &str, name: &str) -> (r: String)
    ensures
        r@ == prefix@ + name@,
{
    let mut r = String::from_str(prefix);
    r.append(name);
    r
}

/// A listed branch is of this kind and carries this name.
pub open spec fn is_branch(entry: (Branch, BranchType), kind: BranchType, name: Seq<char>) -> bool {
    entry.1 == kind && entry.0.is_named(name)
}

/// Some listed branch is of this kind and carries this name.
pub open spec fn has_branch(
    branches: Seq<(Branch, BranchType)>,
    kind: BranchType,
    name: Seq<char>,
) -> bool {
    exists|i: int| 0 <= i < branches.len() && is_branch(#[trigger] branches[i], kind, name)
}

/// The branch at `at` is the first listed one of this kind and name.
pub open spec fn is_first_branch(
    branches: Seq<(Branch, BranchType)>,
    kind: BranchType,
    name: Seq<char>,
    at: int,
) -> bool {
    &&& 0 <= at < branches.len()
    &&& is_branch(branches[at], kind, name)
    &&& forall|j: int| 0 <= j < at ==> !is_branch(#[trigger] branches[j], kind, name)
}

/// Finds the first listed branch of a kind and name.
pub fn find_branch(branches: &Vec<(Branch, BranchType)>, kind: BranchType, name: &String) -> (r:
    Option<usize>)
    ensures
        match r {
            Some(at) => is_first_branch(branches@, kind, name@, at as int),
            None => !has_branch(branches@, kind, name@),
        },
{
    let mut i: usize = 0;
    while i < branches.len()
        invariant
            i <= branches.len(),
            forall|j: int| 0 <= j < i ==> !is_branch(#[trigger] branches@[j], kind, name@),
        decreases branches.len() - i,
    {
        if branches[i].1 == kind && branches[i].0.has_name(name) {
            return Some(i);
        }
        i += 1;
    }
    None
}

/// How the working tree is brought to the new `HEAD`.
#[derive(Clone, Copy, Debug, PartialEq, Eq, Structural)]
pub struct CheckoutOptions {
    /// Files of the working tree are overwritten where they differ.
    pub force: bool,
    /// Paths in conflict do not stop the checkout.
    pub allow_conflicts: bool,
}

/// A local branch to create before switching to it.
#[derive(Clone, Debug, PartialEq, Eq)]
pub struct NewBranch {
    pub name: String,
    /// The remote-tracking branch that the new branch follows.
    pub upstream: String,
    /// Whether a local branch of that name may be replaced.
    pub force: bool,
}

/// What a checkout asks of the engine, in this order: resolve the tip of the
/// listed branch at `source` to a commit; create `create` at that commit and
/// set its upstream; point `HEAD` to `head`; check the working tree out with
/// `options`.
#[derive(Clone, Debug, PartialEq, Eq)]
pub struct CheckoutPlan {
    pub source: usize,
    pub create: Option<NewBranch>,
    pub head: String,
    pub options: CheckoutOptions,
}

/// Whether `plan` is what a checkout of `name` asks for, given the branches
/// that the engine lists. A local branch of that name is switched to as it
/// is, and nothing is created. Without one, the remote-tracking branch of
/// that name under `origin` is the source, and a local branch is created at
/// its tip to follow it, never replacing another. Of several listed branches
/// that fit, the first is the source. The working tree is overwritten.
pub open spec fn is_checkout_plan(
    name: Seq<char>,
    branches: Seq<(Branch, BranchType)>,
    plan: CheckoutPlan,
) -> bool {
    &&& plan.head@ == head_ref(name)
    &&& plan.options == (CheckoutOptions { force: true, allow_conflicts: true })
    &&& if has_branch(branches, BranchType::Local, name) {
        &&& is_first_branch(branches, BranchType::Local, name, plan.source as int)
        &&& plan.create is None
    } else {
        &&& is_first_branch(branches, BranchType::Remote, remote_name(name), plan.source as int)
        &&& plan.create matches Some(branch)
        &&& branch.name@ == name
        &&& branch.upstream@ == remote_name(name)
        &&& !branch.force
    }
}

/// Whether a checkout of `name` finds a branch to switch to.
pub open spec fn can_checkout(name: Seq<char>, branches: Seq<(Branch, BranchType)>) -> bool {
    has_branch(branches, BranchType::Local, name) || has_branch(
        branches,
        BranchType::Remote,
        remote_name(name),
    )
}

/// A second checkout of the same branch changes nothing more. After a
/// checkout that succeeded the local branch exists: it was there or the
/// checkout created it. Whatever else the engine lists then, the next
/// checkout of that name switches to that local branch, creates nothing, and
/// sets the same `HEAD` and working tree.
pub proof fn checkout_again_changes_nothing(
    name: Seq<char>,
    before: Seq<(Branch, BranchType)>,
    first: CheckoutPlan,
    after: Seq<(Branch, BranchType)>,
    second: CheckoutPlan,
)
    requires
        is_checkout_plan(name, before, first),
        has_branch(after, BranchType::Local, name),
        is_checkout_plan(name, after, second),
    ensures
        can_checkout(name, after),
        second.create is None,
        second.head@ == first.head@,
        second.options == first.options,
        is_branch(after[second.source as int], BranchType::Local, name),
{
}

/// One fetch from one remote.
#[derive(Clone, PartialEq, Eq)]
pub struct FetchRequest<'a> {
    pub remote: String,
    /// What to fetch; empty for what the remote is configured to give.
    pub refspecs: Vec<String>,
    pub options: FetchOptions<'a>,
}

/// A clone of a remote repository into the configured working directory.
#[derive(Clone, PartialEq, Eq)]
pub struct CloneRequest<'a> {
    pub url: String,
    pub path: &'a str,
    pub options: FetchOptions<'a>,
}

/// One push to one remote.
#[derive(Clone, PartialEq, Eq)]
pub struct PushRequest<'a> {
    pub remote: &'static str,
    pub refspecs: Vec<String>,
    pub options: PushOptions<'a>,
}

/// What a status query looks for.
#[derive(Clone, Copy, Debug, PartialEq, Eq, Structural)]
pub struct StatusOptions {
    pub include_untracked: bool,
    pub renames_head_to_index: bool,
    pub renames_index_to_workdir: bool,
    pub renames_from_rewrites: bool,
}

/// Paths to stage.
#[derive(Clone, Debug, PartialEq, Eq)]
pub struct AddRequest {
    pub pathspecs: Vec<String>,
    /// Whether ignored files are staged too.
    pub force: bool,
}

/// Who made a commit. The time is that of the moment the commit is made.
#[derive(Clone, Copy, Debug, PartialEq, Eq)]
pub struct Signature<'a> {
    pub name: &'a str,
    pub email: &'a str,
}

/// One commit to create from the tree of the index.
#[derive(Clone, Debug, PartialEq, Eq)]
pub struct CommitRequest<'a> {
    /// The reference that is moved to the new commit.
    pub update_ref: &'static str,
    /// Who made the commit, as its author and as its committer.
    pub signature: Signature<'a>,
    pub message: String,
    /// The ids of the parents.
    pub parents: Vec<String>,
}

/// Whether `request` is the session's commit of the index with this message
/// on top of the commit `parent`: it moves `HEAD`, has `parent` as its only
/// parent, and is signed with the configured name and address.
pub open spec fn is_commit_of(
    config: Config,
    message: Seq<char>,
    parent: String,
    request: CommitRequest<'_>,
) -> bool {
    &&& request.update_ref@ == HEAD@
    &&& request.message@ == message
    &&& request.parents@ == seq![parent]
    &&& request.signature.name@ == config.username@
    &&& request.signature.email@ == config.email@
}

/// Whether `request` is the session's push of the reference `name`: to
/// `origin`, that one reference, with the credentials that the configuration
/// offers.
pub open spec fn is_push_of(config: Config, name: Seq<char>, request: PushRequest<'_>) -> bool {
    &&& request.remote@ == ORIGIN@
    &&& request.refspecs@.len() == 1
    &&& request.refspecs@[0]@ == name
    &&& credentials_view(request.options.credentials) == config.offered()
}

/// Whether `request` is the session's clone of `url`: into the configured
/// working directory, fetched as the session fetches.
pub open spec fn is_clone_of(config: Config, url: Seq<char>, request: CloneRequest<'_>) -> bool {
    &&& request.url@ == url
    &&& request.path@ == config.path@
    &&& request.options.prune
    &&& credentials_view(request.options.credentials) == config.offered()
}

/// How a pull ended.
#[derive(Clone, Debug, PartialEq, Eq)]
pub enum PullResult {
    /// No merge is possible.
    NoMerge,
    /// The histories have diverged. The merge they need is left to the
    /// caller.
    Normal,
    /// The branch holds everything of its upstream.
    UpToDate,
    /// The branch was moved forward from `old_id` to `new_id`.
    FastForwarded { old_id: String, new_id: String },
    /// The branch has no commit yet.
    Unborn,
}

impl PullResult {
    /// How the result is shown.
    pub open spec fn text(self) -> Seq<char> {
        match self {
            PullResult::NoMerge => "None"@,
            PullResult::Normal => "Normal"@,
            PullResult::UpToDate => "UpToDate"@,
            PullResult::FastForwarded { old_id, new_id } => "FastForwarded { old_id: "@ + old_id@
                + ", new_id: "@ + new_id@ + " }"@,
            PullResult::Unborn => "Unborn"@,
        }
    }

    /// Renders the result.
    pub fn to_string(&self) -> (r: String)
        ensures
            r@ == self.text(),
    {
        match self {
            PullResult::NoMerge => String::from_str("None"),
            PullResult::Normal => String::from_str("Normal"),
            PullResult::UpToDate => String::from_str("UpToDate"),
            PullResult::FastForwarded { old_id, new_id } => {
                let mut res = String::from_str("FastForwarded { old_id: ");
                res.append(old_id.as_str());
                res.append(", new_id: ");
                res.append(new_id.as_str());
                res.append(" }");
                res
            },
            PullResult::Unborn => String::from_str("Unborn"),
        }
    }
}

/// What a pull does after the analysis.
#[derive(Clone, Debug, PartialEq, Eq)]
pub enum PullStep {
    /// Nothing more: this is the result.
    Done(PullResult),
    /// Move the branch to the commit `target`, with this note in the
    /// reference log.
    FastForward { target: String, log_message: String },
}

/// Whether `request` is the session's fetch from the remote `name`: for what
/// the remote is configured to give, pruning what it no longer has, with the
/// credentials that the configuration offers.
pub open spec fn is_fetch_from(config: Config, request: FetchRequest<'_>, name: String) -> bool {
    &&& request.remote == name
    &&& request.refspecs@.len() == 0
    &&& request.options.prune
    &&& credentials_view(request.options.credentials) == config.offered()
}

/// Whether `step` is what a pull of the branch `name` does on this verdict,
/// where the tip of the upstream is the commit `upstream_id`. Only a
/// fast-forward asks for more work: the branch is to be moved to the
/// upstream's tip. Every other verdict is the result.
pub open spec fn is_pull_step(
    name: Seq<char>,
    verdict: Verdict,
    upstream_id: String,
    step: PullStep,
) -> bool {
    match verdict {
        Verdict::NoMerge => step == PullStep::Done(PullResult::NoMerge),
        Verdict::Normal => step == PullStep::Done(PullResult::Normal),
        Verdict::UpToDate => step == PullStep::Done(PullResult::UpToDate),
        Verdict::FastForward => {
            &&& step matches PullStep::FastForward { target, log_message }
            &&& target == upstream_id
            &&& log_message@ == fast_forward_note(name)
        },
        Verdict::Unborn => step == PullStep::Done(PullResult::Unborn),
    }
}

/// The names of the remotes that can be asked for by name, in order.
pub open spec fn named_remotes(remotes: Seq<Option<String>>) -> Seq<String> {
    remotes.filter_map(|name: Option<String>| name)
}

/// The branches that were listed without a failure, in order.
pub open spec fn listed_branches(listing: Seq<Result<(Branch, BranchType), GitError>>) -> Seq<
    (Branch, BranchType),
> {
    listing.filter_map(
        |item: Result<(Branch, BranchType), GitError>|
            match item {
                Ok(entry) => Some(entry),
                Err(_) => None,
            },
    )
}

/// The rules of one session on one working directory.
#[derive(Clone, Copy)]
pub struct Repo<'a> {
    config: &'a Config,
}

impl<'a> Repo<'a> {
    /// The configuration that the session works with.
    pub closed spec fn config(&self) -> Config {
        *self.config
    }

    /// Binds a session to a configuration.
    pub fn open(config: &'a Config) -> (r: Repo<'a>)
        ensures
            r.config() == *config,
    {
        Repo { config }
    }

    /// The configuration that the session borrows.
    pub fn configuration(&self) -> (r: &'a Config)
        ensures
            *r == self.config(),
    {
        self.config
    }

    /// The credentials to answer a remote with: the user name and the
    /// password where the configuration holds a password, none otherwise.
    /// Both are borrowed from the configuration.
    pub fn register_credentials(config: &'a Config) -> (r: Option<Credentials<'a>>)
        ensures
            credentials_view(r) == config.offered(),
    {
        match &config.auth {
            AuthType::Password(password) => Some(
                Credentials { username: config.username.as_str(), password: password.as_str() },
            ),
            AuthType::Anonymous => None,
        }
    }

    /// How the session fetches: with its credentials, and pruning what the
    /// remote no longer has.
    pub fn fetch_options(config: &'a Config) -> (r: FetchOptions<'a>)
        ensures
            credentials_view(r.credentials) == config.offered(),
            r.prune,
    {
        FetchOptions { credentials: Self::register_credentials(config), prune: true }
    }

    /// How the session pushes: with its credentials.
    pub fn push_options(config: &'a Config) -> (r: PushOptions<'a>)
        ensures
            credentials_view(r.credentials) == config.offered(),
    {
        PushOptions { credentials: Self::register_credentials(config) }
    }

    /// The clone of `url` into the configured working directory.
    pub fn clone_from(url: &str, config: &'a Config) -> (r: CloneRequest<'a>)
        ensures
            is_clone_of(*config, url@, r),
    {
        CloneRequest {
            url: String::from_str(url),
            path: config.path.as_str(),
            options: Self::fetch_options(config),
        }
    }

    /// The fetches that bring every remote up to date: one for each remote
    /// whose name is text, in the order of the names, each for what the remote
    /// is configured to give.
    pub fn fetch_all(&self, remotes: &Vec<Option<String>>) -> (r: Vec<FetchRequest<'a>>)
        ensures
            r@.len() == named_remotes(remotes@).len(),
            forall|k: int|
                0 <= k < r@.len() ==> is_fetch_from(
                    self.config(),
                    #[trigger] r@[k],
                    named_remotes(remotes@)[k],
                ),
    {
        let mut requests: Vec<FetchRequest<'a>> = Vec::new();
        let mut i: usize = 0;
        while i < remotes.len()
            invariant
                i <= remotes.len(),
                requests@.len() == named_remotes(remotes@.subrange(0, i as int)).len(),
                forall|k: int|
                    0 <= k < requests@.len() ==> is_fetch_from(
                        self.config(),
                        #[trigger] requests@[k],
                        named_remotes(remotes@.subrange(0, i as int))[k],
                    ),
            decreases remotes.len() - i,
        {
            proof {
                let done = remotes@.subrange(0, i as int);
                let next = remotes@.subrange(0, i + 1);
                assert(next.drop_last() =~= done);
                assert(next.last() == remotes@[i as int]);
            }
            if let Some(name) = &remotes[i] {
                requests.push(
                    FetchRequest {
                        remote: name.clone(),
                        refspecs: Vec::new(),
                        options: Self::fetch_options(self.config),
                    },
                );
            }
            i += 1;
        }
        assert(remotes@.subrange(0, i as int) =~= remotes@);
        requests
    }

    /// The branches of a listing, local and remote: every item that was
    /// listed without a failure, in order. An item that failed is left out
    /// and stops nothing.
    pub fn branches(&self, listing: &Vec<Result<(Branch, BranchType), GitError>>) -> (r: Vec<
        (Branch, BranchType),
    >)
        ensures
            r@ == listed_branches(listing@),
    {
        let mut found: Vec<(Branch, BranchType)> = Vec::new();
        let mut i: usize = 0;
        while i < listing.len()
            invariant
                i <= listing.len(),
                found@ == listed_branches(listing@.subrange(0, i as int)),
            decreases listing.len() - i,
        {
            proof {
                let done = listing@.subrange(0, i as int);
                let next = listing@.subrange(0, i + 1);
                assert(next.drop_last() =~= done);
                assert(next.last() == listing@[i as int]);
            }
            if let Ok(entry) = &listing[i] {
                found.push((entry.0.clone(), entry.1));
            }
            i += 1;
        }
        assert(listing@.subrange(0, i as int) =~= listing@);
        found
    }

    /// The name under which the current branch is looked up among the local
    /// branches: the short name of `HEAD`, or `HEAD` where it has none.
    pub fn current_branch_name(&self, head_shorthand: Option<&str>) -> (r: String)
        ensures
            r@ == head_name(
                match head_shorthand {
                    Some(name) => Some(name@),
                    None => None,
                },
            ),
    {
        match head_shorthand {
            Some(name) => String::from_str(name),
            None => String::from_str("HEAD"),
        }
    }

    /// The current branch with its upstream. That the lookup of the upstream
    /// failed means that the branch tracks nothing.
    pub fn current_branch(&self, local: Branch, upstream: Result<Branch, GitError>) -> (r:
        TrackedBranch)
        ensures
            r.local == local,
            r.upstream == match upstream {
                Ok(branch) => Some(branch),
                Err(_) => None::<Branch>,
            },
    {
        TrackedBranch::new(local, upstream)
    }

    /// What the status query of the session looks for: files that are not
    /// tracked, and renames on both sides of the index.
    pub fn status_options() -> (r: StatusOptions)
        ensures
            r == (StatusOptions {
                include_untracked: true,
                renames_head_to_index: true,
                renames_index_to_workdir: true,
                renames_from_rewrites: true,
            }),
    {
        StatusOptions {
            include_untracked: true,
            renames_head_to_index: true,
            renames_index_to_workdir: true,
            renames_from_rewrites: true,
        }
    }

    /// The name of the branch that a status summary opens with: the short
    /// name of `HEAD`. Where that is not text the status fails.
    pub fn status_branch_name(&self, head_shorthand: Option<String>) -> (r: Result<String, GitError>)
        ensures
            match head_shorthand {
                Some(name) => r == Ok::<String, GitError>(name),
                None => r == Err::<String, GitError>(GitError::BranchNameNotText),
            },
    {
        match head_shorthand {
            Some(name) => Ok(name),
            None => Err(GitError::BranchNameNotText),
        }
    }

    /// The status summary: the branch that `HEAD` is on and every entry of the
    /// status query sorted into the three buckets, in the order of the query.
    /// It fails only where the short name of `HEAD` is not text.
    pub fn status(&self, head_shorthand: Option<String>, entries: &Vec<StatusEntry>) -> (r: Result<
        StatusSummary,
        GitError,
    >)
        ensures
            match head_shorthand {
                Some(name) => r matches Ok(summary) && summary@ == StatusSummaryView::of(
                    name@,
                    entries@,
                ),
                None => r matches Err(e) && e == GitError::BranchNameNotText,
            },
    {
        let branch_name = self.status_branch_name(head_shorthand)?;
        Ok(StatusSummary::from_entries(branch_name, entries))
    }

    /// The staging of the given paths.
    pub fn add(&self, pathspecs: Vec<String>) -> (r: AddRequest)
        ensures
            r.pathspecs == pathspecs,
            !r.force,
    {
        AddRequest { pathspecs, force: false }
    }

    /// The staging of every path of the working directory.
    pub fn add_all(&self) -> (r: AddRequest)
        ensures
            r.pathspecs@.len() == 1,
            r.pathspecs@[0]@ == ALL_PATHS@,
            !r.force,
    {
        let mut pathspecs: Vec<String> = Vec::new();
        pathspecs.push(String::from_str(ALL_PATHS));
        self.add(pathspecs)
    }

    /// The commit that `HEAD` leads to, given what the engine found there:
    /// the id of a commit, or nothing where the object is no commit.
    pub fn find_last_commit(&self, found: Option<String>) -> (r: Result<String, GitError>)
        ensures
            match found {
                Some(id) => r == Ok::<String, GitError>(id),
                None => r == Err::<String, GitError>(GitError::LastCommitNotFound),
            },
    {
        match found {
            Some(id) => Ok(id),
            None => Err(GitError::LastCommitNotFound),
        }
    }

    /// The commit of the index: it moves `HEAD`, has the current commit as
    /// its only parent, and names the configured user as author and as
    /// committer.
    pub fn commit(&self, message: &str, parent: String) -> (r: CommitRequest<'a>)
        ensures
            is_commit_of(self.config(), message@, parent, r),
    {
        let mut parents: Vec<String> = Vec::new();
        parents.push(parent);
        CommitRequest {
            update_ref: HEAD,
            signature: Signature {
                name: self.config.username.as_str(),
                email: self.config.email.as_str(),
            },
            message: String::from_str(message),
            parents,
        }
    }

    /// What a checkout of `branch_name` asks of the engine, given the
    /// branches that the engine lists after a fetch from every remote. It
    /// fails exactly where neither a local branch of that name nor its
    /// counterpart under `origin` is listed.
    pub fn checkout(&self, branch_name: &str, branches: &Vec<(Branch, BranchType)>) -> (r: Result<
        CheckoutPlan,
        GitError,
    >)
        ensures
            match r {
                Ok(plan) => can_checkout(branch_name@, branches@) && is_checkout_plan(
                    branch_name@,
                    branches@,
                    plan,
                ),
                Err(e) => !can_checkout(branch_name@, branches@) && e
                    == GitError::NoBranchWithThisName,
            },
    {
        let local_name = String::from_str(branch_name);
        let remote_branch_name = prefixed("origin/", branch_name);
        let options = CheckoutOptions { force: true, allow_conflicts: true };
        match find_branch(branches, BranchType::Local, &local_name) {
            Some(source) => Ok(
                CheckoutPlan {
                    source,
                    create: None,
                    head: prefixed("refs/heads/", branch_name),
                    options,
                },
            ),
            None => match find_branch(branches, BranchType::Remote, &remote_branch_name) {
                Some(source) => Ok(
                    CheckoutPlan {
                        source,
                        create: Some(
                            NewBranch { name: local_name, upstream: remote_branch_name, force: false },
                        ),
                        head: prefixed("refs/heads/", branch_name),
                        options,
                    },
                ),
                None => Err(GitError::NoBranchWithThisName),
            },
        }
    }

    /// The commit at the tip of the branch to switch to, given what the
    /// engine found there: the id of a commit, or nothing where the object is
    /// no commit.
    pub fn checkout_commit(&self, found: Option<String>) -> (r: Result<String, GitError>)
        ensures
            match found {
                Some(id) => r == Ok::<String, GitError>(id),
                None => r == Err::<String, GitError>(GitError::FailedToObtainCommit),
            },
    {
        match found {
            Some(id) => Ok(id),
            None => Err(GitError::FailedToObtainCommit),
        }
    }

    /// The push of the current branch to `origin`: the one reference that
    /// `HEAD` names, with the session's credentials. It fails exactly where
    /// `HEAD` has no name that is text.
    pub fn push(&self, head_name: Option<&str>) -> (r: Result<PushRequest<'a>, GitError>)
        ensures
            match head_name {
                Some(name) => r matches Ok(request) && is_push_of(self.config(), name@, request),
                None => r matches Err(e) && e == GitError::NoBranchName,
            },
    {
        match head_name {
            Some(name) => {
                let mut refspecs: Vec<String> = Vec::new();
                refspecs.push(String::from_str(name));
                Ok(PushRequest { remote: ORIGIN, refspecs, options: Self::push_options(self.config) })
            },
            None => Err(GitError::NoBranchName),
        }
    }

    /// What a pull of `branch_name` does once the engine has compared the
    /// branch with its upstream, whose tip is the commit `upstream_id`. Only
    /// the verdict of a fast-forward asks for more work: the branch is to be
    /// moved to the upstream's tip. Every other verdict is the result.
    pub fn pull(&self, branch_name: &str, analysis: MergeAnalysis, upstream_id: String) -> (r:
        PullStep)
        requires
            analysis.verdict() is Some,
        ensures
            is_pull_step(branch_name@, analysis.verdict()->0, upstream_id, r),
    {
        match analysis.classify() {
            Some(Verdict::NoMerge) => PullStep::Done(PullResult::NoMerge),
            Some(Verdict::Normal) => PullStep::Done(PullResult::Normal),
            Some(Verdict::UpToDate) => PullStep::Done(PullResult::UpToDate),
            Some(Verdict::FastForward) => {
                let mut log_message = prefixed("fast forward branch '", branch_name);
                log_message.append("' tip");
                PullStep::FastForward { target: upstream_id, log_message }
            },
            Some(Verdict::Unborn) => PullStep::Done(PullResult::Unborn),
            None => unreached(),
        }
    }

    /// The result of a pull that moved the branch forward.
    pub fn fast_forwarded(&self, old_id: String, new_id: String) -> (r: PullResult)
        ensures
            r == (PullResult::FastForwarded { old_id, new_id }),
    {
        PullResult::FastForwarded { old_id, new_id }
    }

    /// Merging is not part of the session yet: the call does nothing and
    /// succeeds.
    pub fn merge(&self, branch_from: &str, branch_to: Option<&str>) -> (r: Result<(), GitError>)
        ensures
            r is Ok,
    {
        Ok(())
    }
}

} // verus!
