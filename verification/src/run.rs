//! One operation of a session as a conversation with the engine.
//!
//! A run starts from a command and hands out one request at a time. The
//! caller performs the request on the repository and hands the engine's answer
//! back; the run answers with the next request or with the result. So the
//! order of the engine's calls, and what becomes of each answer, is decided
//! here, and the caller decides nothing.
use vstd::prelude::*;

use crate::analysis::{MergeAnalysis, Verdict};
use crate::branch::{head_name, Branch, BranchType, TrackedBranch};
use crate::config::Config;
use crate::error::GitError;
use crate::git::{
    can_checkout, is_checkout_plan, is_clone_of, is_commit_of, is_fetch_from, is_pull_step,
    is_push_of, listed_branches, named_remotes, AddRequest, CheckoutOptions, CheckoutPlan,
    CloneRequest, CommitRequest, FetchRequest, NewBranch, Operation, PullResult, PullStep,
    PushRequest, Repo, StatusOptions, ALL_PATHS, ORIGIN,
};
use crate::git_status::{StatusEntry, StatusSummary, StatusSummaryView};

verus! {

/// What a caller wants done.
#[derive(Clone, Debug, PartialEq, Eq)]
pub enum Command {
    Clone { url: String },
    Branches,
    CurrentBranch,
    Status,
    Add { pathspecs: Vec<String> },
    AddAll,
    Commit { message: String },
    Checkout { branch_name: String },
    Push,
    Pull { branch_name: String },
    Merge,
}

impl Command {
    /// The operation that the command asks for.
    pub open spec fn operation(self) -> Operation {
        match self {
            Command::Clone { .. } => Operation::Clone,
            Command::Branches => Operation::Branches,
            Command::CurrentBranch => Operation::CurrentBranch,
            Command::Status => Operation::Status,
            Command::Add { .. } => Operation::Add,
            Command::AddAll => Operation::Add,
            Command::Commit { .. } => Operation::Commit,
            Command::Checkout { .. } => Operation::Checkout,
            Command::Push => Operation::Push,
            Command::Pull { .. } => Operation::Pull,
            Command::Merge => Operation::Merge,
        }
    }

    /// The operation that the command asks for.
    pub fn kind(&self) -> (r: Operation)
        ensures
            r == self.operation(),
    {
        match self {
            Command::Clone { .. } => Operation::Clone,
            Command::Branches => Operation::Branches,
            Command::CurrentBranch => Operation::CurrentBranch,
            Command::Status => Operation::Status,
            Command::Add { .. } => Operation::Add,
            Command::AddAll => Operation::Add,
            Command::Commit { .. } => Operation::Commit,
            Command::Checkout { .. } => Operation::Checkout,
            Command::Push => Operation::Push,
            Command::Pull { .. } => Operation::Pull,
            Command::Merge => Operation::Merge,
        }
    }
}

/// One thing that the engine is asked to do.
#[derive(Clone, PartialEq, Eq)]
pub enum Request<'a> {
    /// Clone a remote repository.
    Clone(CloneRequest<'a>),
    /// Open the repository in the working directory `path`.
    Open { path: &'a str },
    /// List the names of the remotes; a name that is not text is listed as
    /// `None`.
    Remotes,
    /// Fetch from one remote.
    Fetch(FetchRequest<'a>),
    /// List the branches, local and remote.
    Branches,
    /// Resolve `HEAD` and give its short name and its full name.
    Head,
    /// Run the status query.
    Statuses(StatusOptions),
    /// Find the local branch of this name.
    LocalBranch(String),
    /// Find the upstream of the branch that was found last.
    Upstream,
    /// Stage paths, write the index and count the paths that it holds.
    Stage(AddRequest),
    /// Write the index as a tree.
    WriteTree,
    /// Resolve `HEAD` to the object it leads to and give its id if it is a
    /// commit.
    HeadCommit,
    /// Create a commit from the tree that was written last.
    Commit(CommitRequest<'a>),
    /// Resolve the tip of the listed branch at this position and give its id
    /// if it is a commit.
    Tip(usize),
    /// Create a local branch at the commit that was resolved last, and set
    /// its upstream.
    CreateBranch(NewBranch),
    /// Point `HEAD` to this reference.
    SetHead(String),
    /// Bring the working tree to `HEAD`.
    CheckoutHead(CheckoutOptions),
    /// Find the remote of this name.
    Remote(&'static str),
    /// Push to the remote that was found last.
    Push(PushRequest<'a>),
    /// Give the ids of the commits at the tips of the local branch and of its
    /// upstream, as they were found last.
    Tips,
    /// Compare the local branch with the tip of its upstream.
    Analyze,
    /// Move the local branch to the commit `target` and give the id of the
    /// commit at its new tip.
    SetTarget { target: String, log_message: String },
}

/// What the engine reported for a request.
#[derive(Clone, Debug, PartialEq, Eq)]
pub enum Answer {
    /// The request failed.
    Failed(GitError),
    /// The request was carried out and has nothing to report.
    Done,
    /// The names of the remotes; `None` for a name that is not text.
    Names(Vec<Option<String>>),
    /// The branches as they were listed, each with its kind or with the
    /// failure to list it.
    Listing(Vec<Result<(Branch, BranchType), GitError>>),
    /// The short name and the full name of `HEAD`; `None` for a name that is
    /// not text.
    Head { shorthand: Option<String>, name: Option<String> },
    /// The entries of the status query, in its order.
    Entries(Vec<StatusEntry>),
    /// The branch that was found.
    Branch(Branch),
    /// The number of paths that the index holds.
    Count(usize),
    /// The id of a commit, or `None` where the object is no commit.
    Commit(Option<String>),
    /// The id of the commit that was created or moved to.
    Id(String),
    /// The ids of the commits at the tips of the branch and of its upstream.
    Tips { local: String, upstream: String },
    /// The result of the merge analysis.
    Analysis(MergeAnalysis),
}

/// What a finished operation has to show.
#[derive(Clone, Debug, PartialEq, Eq)]
pub enum Outcome {
    Cloned,
    Branches(Vec<(Branch, BranchType)>),
    CurrentBranch(TrackedBranch),
    Status(StatusSummary),
    /// The number of paths that the index holds after the staging.
    Added(usize),
    /// The id of the new commit.
    Committed(String),
    /// The branch that was switched to.
    CheckedOut { branch_name: String },
    Pushed,
    Pulled(PullResult),
    Merged,
}

/// What a run says next: a request to perform, or the end of the operation.
#[derive(PartialEq, Eq)]
pub enum Step<'a> {
    Ask(Request<'a>),
    Finish(Result<Outcome, GitError>),
}

/// The kinds of answer.
#[derive(Clone, Copy, Debug, PartialEq, Eq, Structural)]
pub enum AnswerKind {
    Failed,
    Done,
    Names,
    Listing,
    Head,
    Entries,
    Branch,
    Count,
    Commit,
    Id,
    Tips,
    Analysis,
}

impl Answer {
    /// The kind of the answer.
    pub open spec fn kind(self) -> AnswerKind {
        match self {
            Answer::Failed(_) => AnswerKind::Failed,
            Answer::Done => AnswerKind::Done,
            Answer::Names(_) => AnswerKind::Names,
            Answer::Listing(_) => AnswerKind::Listing,
            Answer::Head { .. } => AnswerKind::Head,
            Answer::Entries(_) => AnswerKind::Entries,
            Answer::Branch(_) => AnswerKind::Branch,
            Answer::Count(_) => AnswerKind::Count,
            Answer::Commit(_) => AnswerKind::Commit,
            Answer::Id(_) => AnswerKind::Id,
            Answer::Tips { .. } => AnswerKind::Tips,
            Answer::Analysis(_) => AnswerKind::Analysis,
        }
    }

    /// The kind of the answer.
    pub fn which(&self) -> (r: AnswerKind)
        ensures
            r == self.kind(),
    {
        match self {
            Answer::Failed(_) => AnswerKind::Failed,
            Answer::Done => AnswerKind::Done,
            Answer::Names(_) => AnswerKind::Names,
            Answer::Listing(_) => AnswerKind::Listing,
            Answer::Head { .. } => AnswerKind::Head,
            Answer::Entries(_) => AnswerKind::Entries,
            Answer::Branch(_) => AnswerKind::Branch,
            Answer::Count(_) => AnswerKind::Count,
            Answer::Commit(_) => AnswerKind::Commit,
            Answer::Id(_) => AnswerKind::Id,
            Answer::Tips { .. } => AnswerKind::Tips,
            Answer::Analysis(_) => AnswerKind::Analysis,
        }
    }
}

/// Where a run stands: which answer it waits for, and what it has kept of the
/// answers so far.
pub enum Stage<'a> {
    /// The repository is being opened.
    Opening { command: Command },
    /// The names of the remotes were asked for.
    Remotes { command: Command },
    /// A fetch is under way; `pending` holds the fetches that follow it.
    Fetching { pending: Vec<FetchRequest<'a>>, command: Command },
    /// The clone is under way.
    Cloning,
    /// The branches were asked for, to be listed.
    Listing,
    /// `HEAD` was asked for, to find the current branch.
    CurrentHead,
    /// The current branch was asked for.
    CurrentLocal,
    /// The upstream of the current branch `local` was asked for.
    CurrentUpstream { local: Branch },
    /// `HEAD` was asked for, to name the branch of the summary.
    StatusHead,
    /// The status query is under way.
    StatusEntries { branch_name: String },
    /// The staging is under way.
    Staging,
    /// The tree of the index is being written.
    CommitTree { message: String },
    /// The current commit was asked for.
    CommitParent { message: String },
    /// The commit is being created.
    Committing,
    /// The branches were asked for, to find the one to switch to.
    CheckoutListing { branch_name: String },
    /// The tip of the branch to switch to was asked for.
    CheckoutTip { branch_name: String, plan: CheckoutPlan },
    /// The local branch is being created.
    CheckoutCreating { branch_name: String, head: String, options: CheckoutOptions },
    /// `HEAD` is being set.
    CheckoutSetHead { branch_name: String, options: CheckoutOptions },
    /// The working tree is being brought to `HEAD`.
    CheckoutTree { branch_name: String },
    /// The remote to push to was asked for.
    PushRemote,
    /// `HEAD` was asked for, to name the reference to push.
    PushHead,
    /// The push is under way.
    Pushing,
    /// The branch to pull was asked for.
    PullLocal { branch_name: String },
    /// The upstream of the branch to pull was asked for.
    PullUpstream { branch_name: String },
    /// The tips of the branch and of its upstream were asked for.
    PullTips { branch_name: String },
    /// The analysis is under way.
    PullAnalysis { branch_name: String, old_id: String, upstream_id: String },
    /// The branch is being moved forward.
    PullMoving { old_id: String },
    /// The operation has ended.
    Finished,
}

impl<'a> Stage<'a> {
    /// The kind of answer that the request of this stage has, if it does not
    /// fail. A finished run waits for nothing.
    pub open spec fn awaits(self) -> Option<AnswerKind> {
        match self {
            Stage::Opening { .. } => Some(AnswerKind::Done),
            Stage::Remotes { .. } => Some(AnswerKind::Names),
            Stage::Fetching { .. } => Some(AnswerKind::Done),
            Stage::Cloning => Some(AnswerKind::Done),
            Stage::Listing => Some(AnswerKind::Listing),
            Stage::CurrentHead => Some(AnswerKind::Head),
            Stage::CurrentLocal => Some(AnswerKind::Branch),
            Stage::CurrentUpstream { .. } => Some(AnswerKind::Branch),
            Stage::StatusHead => Some(AnswerKind::Head),
            Stage::StatusEntries { .. } => Some(AnswerKind::Entries),
            Stage::Staging => Some(AnswerKind::Count),
            Stage::CommitTree { .. } => Some(AnswerKind::Done),
            Stage::CommitParent { .. } => Some(AnswerKind::Commit),
            Stage::Committing => Some(AnswerKind::Id),
            Stage::CheckoutListing { .. } => Some(AnswerKind::Listing),
            Stage::CheckoutTip { .. } => Some(AnswerKind::Commit),
            Stage::CheckoutCreating { .. } => Some(AnswerKind::Done),
            Stage::CheckoutSetHead { .. } => Some(AnswerKind::Done),
            Stage::CheckoutTree { .. } => Some(AnswerKind::Done),
            Stage::PushRemote => Some(AnswerKind::Done),
            Stage::PushHead => Some(AnswerKind::Head),
            Stage::Pushing => Some(AnswerKind::Done),
            Stage::PullLocal { .. } => Some(AnswerKind::Branch),
            Stage::PullUpstream { .. } => Some(AnswerKind::Branch),
            Stage::PullTips { .. } => Some(AnswerKind::Tips),
            Stage::PullAnalysis { .. } => Some(AnswerKind::Analysis),
            Stage::PullMoving { .. } => Some(AnswerKind::Id),
            Stage::Finished => None,
        }
    }

    /// Whether `answer` answers the request of this stage: it is the failure
    /// of the request or of the kind that the request has. An analysis must
    /// have a verdict.
    pub open spec fn accepts(self, answer: Answer) -> bool {
        &&& self.awaits() matches Some(kind)
        &&& answer is Failed || answer.kind() == kind
        &&& answer matches Answer::Analysis(analysis) ==> analysis.verdict() is Some
    }

    /// How far the run is from the operation proper: a finished run not at
    /// all, a run that is opening the repository the farthest.
    pub open spec fn phase(self) -> nat {
        match self {
            Stage::Opening { .. } => 3,
            Stage::Remotes { .. } => 2,
            Stage::Finished => 0,
            _ => 1,
        }
    }

    /// A bound on the answers that the run still takes, once the fetches are
    /// known.
    pub open spec fn answers_left(self) -> nat {
        match self {
            Stage::Fetching { pending, .. } => pending@.len() + 6,
            Stage::CheckoutListing { .. } | Stage::PullLocal { .. } => 5,
            Stage::CheckoutTip { .. } | Stage::PullUpstream { .. } => 4,
            Stage::CurrentHead | Stage::CommitTree { .. } | Stage::CheckoutCreating { .. }
            | Stage::PushRemote | Stage::PullTips { .. } => 3,
            Stage::CurrentLocal | Stage::StatusHead | Stage::CommitParent { .. }
            | Stage::CheckoutSetHead { .. } | Stage::PushHead | Stage::PullAnalysis { .. } => 2,
            Stage::Finished => 0,
            _ => 1,
        }
    }

    /// The run at `after` is nearer to its end than the run at `self`.
    pub open spec fn is_before(self, after: Stage<'_>) -> bool {
        after.phase() < self.phase() || (after.phase() == self.phase() && after.answers_left()
            < self.answers_left())
    }
}

/// Whether a run begins the operation proper with `step` and goes on at
/// `after`. This is where a run is once the repository is open and, for an
/// operation that works with a remote, every remote was fetched from.
pub open spec fn begins(command: Command, after: Stage<'_>, step: Step<'_>) -> bool {
    match command {
        Command::Branches => step == Step::Ask(Request::Branches) && after == Stage::Listing,
        Command::CurrentBranch => step == Step::Ask(Request::Head) && after == Stage::CurrentHead,
        Command::Status => step == Step::Ask(Request::Head) && after == Stage::StatusHead,
        Command::Add { pathspecs } => {
            &&& step == Step::Ask(Request::Stage(AddRequest { pathspecs, force: false }))
            &&& after == Stage::Staging
        },
        Command::AddAll => {
            &&& step matches Step::Ask(Request::Stage(request))
            &&& request.pathspecs@.len() == 1
            &&& request.pathspecs@[0]@ == ALL_PATHS@
            &&& !request.force
            &&& after == Stage::Staging
        },
        Command::Commit { message } => {
            &&& step == Step::Ask(Request::WriteTree)
            &&& after == (Stage::CommitTree { message })
        },
        Command::Checkout { branch_name } => {
            &&& step == Step::Ask(Request::Branches)
            &&& after == (Stage::CheckoutListing { branch_name })
        },
        Command::Push => {
            &&& step matches Step::Ask(Request::Remote(name))
            &&& name@ == ORIGIN@
            &&& after == Stage::PushRemote
        },
        Command::Pull { branch_name } => {
            &&& step == Step::Ask(Request::LocalBranch(branch_name))
            &&& after == (Stage::PullLocal { branch_name })
        },
        Command::Clone { .. } | Command::Merge => false,
    }
}

/// Whether a run goes on with the fetches from the remotes `names`, one after
/// the other, and begins the operation proper where there is none.
pub open spec fn fetches(
    config: Config,
    names: Seq<String>,
    command: Command,
    after: Stage<'_>,
    step: Step<'_>,
) -> bool {
    if names.len() == 0 {
        begins(command, after, step)
    } else {
        &&& step matches Step::Ask(Request::Fetch(first))
        &&& is_fetch_from(config, first, names[0])
        &&& after matches Stage::Fetching { pending, command: kept }
        &&& kept == command
        &&& pending@.len() == names.len() - 1
        &&& forall|k: int|
            0 <= k < pending@.len() ==> is_fetch_from(config, #[trigger] pending@[k], names[k + 1])
    }
}

/// Whether a run on `command` starts with `step` at the stage `after`. A
/// clone starts with the clone. A merge does nothing and has ended at once.
/// Every other operation starts by opening the repository in the configured
/// working directory.
pub open spec fn starts(config: Config, command: Command, after: Stage<'_>, step: Step<'_>) -> bool {
    match command {
        Command::Clone { url } => {
            &&& step matches Step::Ask(Request::Clone(request))
            &&& is_clone_of(config, url@, request)
            &&& after == Stage::Cloning
        },
        Command::Merge => step == Step::Finish(Ok(Outcome::Merged)) && after == Stage::Finished,
        _ => {
            &&& step matches Step::Ask(Request::Open { path })
            &&& path@ == config.path@
            &&& after == (Stage::Opening { command })
        },
    }
}

/// Whether a run ends at once with this result.
pub open spec fn ends(result: Result<Outcome, GitError>, after: Stage<'_>, step: Step<'_>) -> bool {
    step == Step::Finish(result) && after == Stage::Finished
}

/// Whether a run that stands at `before` and is told `answer` says `step` and
/// goes on at `after`.
///
/// A failure ends the run with that failure, with one exception: that the
/// upstream of the current branch cannot be found means that the branch
/// follows none. Every other answer is used as the operation lays down: it
/// ends the run with the result, or with the session's own finding, or it
/// brings the next request.
pub open spec fn follows(
    config: Config,
    before: Stage<'_>,
    answer: Answer,
    after: Stage<'_>,
    step: Step<'_>,
) -> bool {
    match (before, answer) {
        (Stage::CurrentUpstream { local }, Answer::Failed(_)) => ends(
            Ok(Outcome::CurrentBranch(TrackedBranch { local, upstream: None })),
            after,
            step,
        ),
        (_, Answer::Failed(e)) => ends(Err(e), after, step),
        (Stage::Opening { command }, _) => if command.operation().touches_remote() {
            step == Step::Ask(Request::Remotes) && after == (Stage::Remotes { command })
        } else {
            begins(command, after, step)
        },
        (Stage::Remotes { command }, Answer::Names(names)) => fetches(
            config,
            named_remotes(names@),
            command,
            after,
            step,
        ),
        (Stage::Fetching { pending, command }, _) => if pending@.len() == 0 {
            begins(command, after, step)
        } else {
            &&& step == Step::Ask(Request::Fetch(pending@[0]))
            &&& after matches Stage::Fetching { pending: rest, command: kept }
            &&& kept == command
            &&& rest@ == pending@.remove(0)
        },
        (Stage::Cloning, _) => ends(Ok(Outcome::Cloned), after, step),
        (Stage::Listing, Answer::Listing(listing)) => {
            &&& step matches Step::Finish(Ok(Outcome::Branches(branches)))
            &&& branches@ == listed_branches(listing@)
            &&& after == Stage::Finished
        },
        (Stage::CurrentHead, Answer::Head { shorthand, .. }) => {
            &&& step matches Step::Ask(Request::LocalBranch(name))
            &&& name@ == head_name(
                match shorthand {
                    Some(text) => Some(text@),
                    None => None,
                },
            )
            &&& after == Stage::CurrentLocal
        },
        (Stage::CurrentLocal, Answer::Branch(local)) => {
            &&& step == Step::Ask(Request::Upstream)
            &&& after == (Stage::CurrentUpstream { local })
        },
        (Stage::CurrentUpstream { local }, Answer::Branch(upstream)) => ends(
            Ok(Outcome::CurrentBranch(TrackedBranch { local, upstream: Some(upstream) })),
            after,
            step,
        ),
        (Stage::StatusHead, Answer::Head { shorthand, .. }) => match shorthand {
            Some(branch_name) => {
                &&& step == Step::Ask(
                    Request::Statuses(
                        StatusOptions {
                            include_untracked: true,
                            renames_head_to_index: true,
                            renames_index_to_workdir: true,
                            renames_from_rewrites: true,
                        },
                    ),
                )
                &&& after == (Stage::StatusEntries { branch_name })
            },
            None => ends(Err(GitError::BranchNameNotText), after, step),
        },
        (Stage::StatusEntries { branch_name }, Answer::Entries(entries)) => {
            &&& step matches Step::Finish(Ok(Outcome::Status(summary)))
            &&& summary@ == StatusSummaryView::of(branch_name@, entries@)
            &&& after == Stage::Finished
        },
        (Stage::Staging, Answer::Count(count)) => ends(Ok(Outcome::Added(count)), after, step),
        (Stage::CommitTree { message }, _) => {
            &&& step == Step::Ask(Request::HeadCommit)
            &&& after == (Stage::CommitParent { message })
        },
        (Stage::CommitParent { message }, Answer::Commit(found)) => match found {
            Some(parent) => {
                &&& step matches Step::Ask(Request::Commit(request))
                &&& is_commit_of(config, message@, parent, request)
                &&& after == Stage::Committing
            },
            None => ends(Err(GitError::LastCommitNotFound), after, step),
        },
        (Stage::Committing, Answer::Id(id)) => ends(Ok(Outcome::Committed(id)), after, step),
        (Stage::CheckoutListing { branch_name }, Answer::Listing(listing)) => if can_checkout(
            branch_name@,
            listed_branches(listing@),
        ) {
            &&& after matches Stage::CheckoutTip { branch_name: kept, plan }
            &&& kept == branch_name
            &&& is_checkout_plan(branch_name@, listed_branches(listing@), plan)
            &&& step == Step::Ask(Request::Tip(plan.source))
        } else {
            ends(Err(GitError::NoBranchWithThisName), after, step)
        },
        (Stage::CheckoutTip { branch_name, plan }, Answer::Commit(found)) => match (
            found,
            plan.create,
        ) {
            (None, _) => ends(Err(GitError::FailedToObtainCommit), after, step),
            (Some(_), Some(branch)) => {
                &&& step == Step::Ask(Request::CreateBranch(branch))
                &&& after == (Stage::CheckoutCreating {
                    branch_name,
                    head: plan.head,
                    options: plan.options,
                })
            },
            (Some(_), None) => {
                &&& step == Step::Ask(Request::SetHead(plan.head))
                &&& after == (Stage::CheckoutSetHead { branch_name, options: plan.options })
            },
        },
        (Stage::CheckoutCreating { branch_name, head, options }, _) => {
            &&& step == Step::Ask(Request::SetHead(head))
            &&& after == (Stage::CheckoutSetHead { branch_name, options })
        },
        (Stage::CheckoutSetHead { branch_name, options }, _) => {
            &&& step == Step::Ask(Request::CheckoutHead(options))
            &&& after == (Stage::CheckoutTree { branch_name })
        },
        (Stage::CheckoutTree { branch_name }, _) => ends(
            Ok(Outcome::CheckedOut { branch_name }),
            after,
            step,
        ),
        (Stage::PushRemote, _) => step == Step::Ask(Request::Head) && after == Stage::PushHead,
        (Stage::PushHead, Answer::Head { name, .. }) => match name {
            Some(reference) => {
                &&& step matches Step::Ask(Request::Push(request))
                &&& is_push_of(config, reference@, request)
                &&& after == Stage::Pushing
            },
            None => ends(Err(GitError::NoBranchName), after, step),
        },
        (Stage::Pushing, _) => ends(Ok(Outcome::Pushed), after, step),
        (Stage::PullLocal { branch_name }, _) => {
            &&& step == Step::Ask(Request::Upstream)
            &&& after == (Stage::PullUpstream { branch_name })
        },
        (Stage::PullUpstream { branch_name }, _) => {
            &&& step == Step::Ask(Request::Tips)
            &&& after == (Stage::PullTips { branch_name })
        },
        (Stage::PullTips { branch_name }, Answer::Tips { local, upstream }) => {
            &&& step == Step::Ask(Request::Analyze)
            &&& after == (Stage::PullAnalysis { branch_name, old_id: local, upstream_id: upstream })
        },
        (
            Stage::PullAnalysis { branch_name, old_id, upstream_id },
            Answer::Analysis(analysis),
        ) => match analysis.verdict() {
            Some(Verdict::FastForward) => {
                &&& step matches Step::Ask(Request::SetTarget { target, log_message })
                &&& is_pull_step(
                    branch_name@,
                    Verdict::FastForward,
                    upstream_id,
                    PullStep::FastForward { target, log_message },
                )
                &&& after == (Stage::PullMoving { old_id })
            },
            Some(verdict) => {
                &&& step matches Step::Finish(Ok(Outcome::Pulled(result)))
                &&& is_pull_step(branch_name@, verdict, upstream_id, PullStep::Done(result))
                &&& after == Stage::Finished
            },
            None => false,
        },
        (Stage::PullMoving { old_id }, Answer::Id(new_id)) => ends(
            Ok(Outcome::Pulled(PullResult::FastForwarded { old_id, new_id })),
            after,
            step,
        ),
        _ => false,
    }
}

/// Nothing is tried again. A failure of the engine ends the run at once, with
/// that failure as the result. The one exception is the question for the
/// upstream of the current branch, whose failure means that there is none.
pub proof fn failure_ends_the_run(
    config: Config,
    before: Stage<'_>,
    e: GitError,
    after: Stage<'_>,
    step: Step<'_>,
)
    requires
        follows(config, before, Answer::Failed(e), after, step),
        !(before is CurrentUpstream),
    ensures
        step == Step::Finish(Err(e)),
        after == Stage::Finished,
{
}

/// An operation that works with a remote fetches first. Once the repository
/// is open, such an operation asks for the remotes; it begins its own work
/// only when the last fetch is done. Every other operation begins its own work
/// at once.
pub proof fn remote_operations_fetch_first(
    config: Config,
    command: Command,
    before: Stage<'_>,
    after: Stage<'_>,
    step: Step<'_>,
)
    requires
        follows(config, before, Answer::Done, after, step),
        before == (Stage::Opening { command }) || (before matches Stage::Fetching {
            pending,
            command: kept,
        } && pending@.len() == 0 && kept == command),
    ensures
        before is Opening && command.operation().touches_remote() ==> step == Step::Ask(
            Request::Remotes,
        ) && after == (Stage::Remotes { command }),
        before is Opening && !command.operation().touches_remote() ==> begins(command, after, step),
        before is Fetching ==> begins(command, after, step),
{
}

/// A run opens the repository once. Opening and cloning are asked for at the
/// start of a run only: no answer brings either request again.
pub proof fn repository_is_opened_once(
    config: Config,
    before: Stage<'_>,
    answer: Answer,
    after: Stage<'_>,
    step: Step<'_>,
)
    requires
        before.accepts(answer),
        follows(config, before, answer, after, step),
    ensures
        !(step matches Step::Ask(Request::Open { .. })),
        !(step matches Step::Ask(Request::Clone(_))),
        !(after is Opening),
        !(after is Cloning),
{
}

/// A checkout changes the repository in a fixed order. A branch is created
/// only once the tip to create it at was found to be a commit. `HEAD` is set
/// only once the branch to point it to exists: it was listed, or it has just
/// been created. The working tree is brought to `HEAD` only once `HEAD` is
/// set. And the checkout reports success only once the working tree is there.
pub proof fn checkout_keeps_its_order(
    config: Config,
    before: Stage<'_>,
    answer: Answer,
    after: Stage<'_>,
    step: Step<'_>,
)
    requires
        before.accepts(answer),
        follows(config, before, answer, after, step),
    ensures
        step matches Step::Ask(Request::CreateBranch(_)) ==> before is CheckoutTip
            && answer matches Answer::Commit(Some(_)),
        step matches Step::Ask(Request::SetHead(_)) ==> (before is CheckoutCreating
            && answer is Done) || (before matches Stage::CheckoutTip { plan, .. }
            && plan.create is None && answer matches Answer::Commit(Some(_))),
        step matches Step::Ask(Request::CheckoutHead(_)) ==> before is CheckoutSetHead
            && answer is Done,
        step matches Step::Finish(Ok(Outcome::CheckedOut { .. })) ==> before is CheckoutTree
            && answer is Done,
{
}

/// What changes a repository or a remote is asked for only once everything
/// before it has worked: a commit once the current commit was found, a push
/// once `origin` was found and `HEAD` has a name, the move of a branch once
/// the analysis allowed a fast-forward.
pub proof fn changes_come_last(
    config: Config,
    before: Stage<'_>,
    answer: Answer,
    after: Stage<'_>,
    step: Step<'_>,
)
    requires
        before.accepts(answer),
        follows(config, before, answer, after, step),
    ensures
        step matches Step::Ask(Request::Commit(_)) ==> before is CommitParent
            && answer matches Answer::Commit(Some(_)),
        step matches Step::Ask(Request::Push(_)) ==> before is PushHead
            && answer matches Answer::Head { name: Some(_), .. },
        step matches Step::Ask(Request::SetTarget { .. }) ==> before is PullAnalysis && (
        answer matches Answer::Analysis(analysis) && analysis.verdict() == Some(
            Verdict::FastForward,
        )),
{
}

/// One operation under way.
pub struct Run<'a> {
    repo: Repo<'a>,
    stage: Stage<'a>,
}

impl<'a> Run<'a> {
    /// A run that still has the command before it has a command that opens
    /// the repository.
    #[verifier::type_invariant]
    spec fn well_formed(self) -> bool {
        match self.stage {
            Stage::Opening { command } | Stage::Remotes { command } | Stage::Fetching {
                command,
                ..
            } => !(command is Clone) && !(command is Merge),
            _ => true,
        }
    }

    /// The configuration that the run works with.
    pub closed spec fn config(&self) -> Config {
        self.repo.config()
    }

    /// Where the run stands.
    pub closed spec fn stage(&self) -> Stage<'a> {
        self.stage
    }

    /// Whether the operation has ended.
    pub fn is_finished(&self) -> (r: bool)
        ensures
            r == (self.stage() is Finished),
    {
        match &self.stage {
            Stage::Finished => true,
            _ => false,
        }
    }

    /// The kind of answer that the run waits for, if it waits for one.
    pub fn awaits(&self) -> (r: Option<AnswerKind>)
        ensures
            r == self.stage().awaits(),
    {
        match &self.stage {
            Stage::Opening { .. } => Some(AnswerKind::Done),
            Stage::Remotes { .. } => Some(AnswerKind::Names),
            Stage::Fetching { .. } => Some(AnswerKind::Done),
            Stage::Cloning => Some(AnswerKind::Done),
            Stage::Listing => Some(AnswerKind::Listing),
            Stage::CurrentHead => Some(AnswerKind::Head),
            Stage::CurrentLocal => Some(AnswerKind::Branch),
            Stage::CurrentUpstream { .. } => Some(AnswerKind::Branch),
            Stage::StatusHead => Some(AnswerKind::Head),
            Stage::StatusEntries { .. } => Some(AnswerKind::Entries),
            Stage::Staging => Some(AnswerKind::Count),
            Stage::CommitTree { .. } => Some(AnswerKind::Done),
            Stage::CommitParent { .. } => Some(AnswerKind::Commit),
            Stage::Committing => Some(AnswerKind::Id),
            Stage::CheckoutListing { .. } => Some(AnswerKind::Listing),
            Stage::CheckoutTip { .. } => Some(AnswerKind::Commit),
            Stage::CheckoutCreating { .. } => Some(AnswerKind::Done),
            Stage::CheckoutSetHead { .. } => Some(AnswerKind::Done),
            Stage::CheckoutTree { .. } => Some(AnswerKind::Done),
            Stage::PushRemote => Some(AnswerKind::Done),
            Stage::PushHead => Some(AnswerKind::Head),
            Stage::Pushing => Some(AnswerKind::Done),
            Stage::PullLocal { .. } => Some(AnswerKind::Branch),
            Stage::PullUpstream { .. } => Some(AnswerKind::Branch),
            Stage::PullTips { .. } => Some(AnswerKind::Tips),
            Stage::PullAnalysis { .. } => Some(AnswerKind::Analysis),
            Stage::PullMoving { .. } => Some(AnswerKind::Id),
            Stage::Finished => None,
        }
    }

    /// Whether `answer` answers the request that the run made last.
    pub fn accepts(&self, answer: &Answer) -> (r: bool)
        ensures
            r == self.stage().accepts(*answer),
    {
        match self.awaits() {
            Some(kind) => {
                let fits = match answer {
                    Answer::Failed(_) => true,
                    _ => answer.which() == kind,
                };
                let decided = match answer {
                    Answer::Analysis(analysis) => analysis.classify().is_some(),
                    _ => true,
                };
                fits && decided
            },
            None => false,
        }
    }

    /// Starts the operation that `command` asks for.
    pub fn start(repo: Repo<'a>, command: Command) -> (r: (Run<'a>, Step<'a>))
        ensures
            r.0.config() == repo.config(),
            starts(repo.config(), command, r.0.stage(), r.1),
    {
        match command {
            Command::Clone { url } => {
                let request = Repo::clone_from(url.as_str(), repo.configuration());
                (Run { repo, stage: Stage::Cloning }, Step::Ask(Request::Clone(request)))
            },
            Command::Merge => (
                Run { repo, stage: Stage::Finished },
                Step::Finish(Ok(Outcome::Merged)),
            ),
            command => {
                let path = repo.configuration().path.as_str();
                (Run { repo, stage: Stage::Opening { command } }, Step::Ask(Request::Open { path }))
            },
        }
    }

    /// Ends the operation.
    fn end(repo: Repo<'a>, result: Result<Outcome, GitError>) -> (r: (Run<'a>, Step<'a>))
        ensures
            r.0.config() == repo.config(),
            ends(result, r.0.stage(), r.1),
    {
        (Run { repo, stage: Stage::Finished }, Step::Finish(result))
    }

    /// Begins the operation proper.
    fn begin(repo: Repo<'a>, command: Command) -> (r: (Run<'a>, Step<'a>))
        requires
            !(command is Clone),
            !(command is Merge),
        ensures
            r.0.config() == repo.config(),
            begins(command, r.0.stage(), r.1),
            r.0.stage().phase() == 1,
            r.0.stage().answers_left() <= 5,
    {
        match command {
            Command::Branches => (
                Run { repo, stage: Stage::Listing },
                Step::Ask(Request::Branches),
            ),
            Command::CurrentBranch => (
                Run { repo, stage: Stage::CurrentHead },
                Step::Ask(Request::Head),
            ),
            Command::Status => (Run { repo, stage: Stage::StatusHead }, Step::Ask(Request::Head)),
            Command::Add { pathspecs } => {
                let request = repo.add(pathspecs);
                (Run { repo, stage: Stage::Staging }, Step::Ask(Request::Stage(request)))
            },
            Command::AddAll => {
                let request = repo.add_all();
                (Run { repo, stage: Stage::Staging }, Step::Ask(Request::Stage(request)))
            },
            Command::Commit { message } => (
                Run { repo, stage: Stage::CommitTree { message } },
                Step::Ask(Request::WriteTree),
            ),
            Command::Checkout { branch_name } => (
                Run { repo, stage: Stage::CheckoutListing { branch_name } },
                Step::Ask(Request::Branches),
            ),
            Command::Push => (
                Run { repo, stage: Stage::PushRemote },
                Step::Ask(Request::Remote(ORIGIN)),
            ),
            Command::Pull { branch_name } => {
                let name = branch_name.clone();
                (
                    Run { repo, stage: Stage::PullLocal { branch_name } },
                    Step::Ask(Request::LocalBranch(name)),
                )
            },
            Command::Clone { .. } | Command::Merge => unreached(),
        }
    }

    /// Goes on with the fetches that are left, or begins the operation
    /// proper.
    fn fetch_next(repo: Repo<'a>, pending: Vec<FetchRequest<'a>>, command: Command) -> (r: (
        Run<'a>,
        Step<'a>,
    ))
        requires
            !(command is Clone),
            !(command is Merge),
        ensures
            r.0.config() == repo.config(),
            r.0.stage().phase() == 1,
            r.0.stage().answers_left() <= pending@.len() + 5,
            if pending@.len() == 0 {
                begins(command, r.0.stage(), r.1)
            } else {
                &&& r.1 == Step::Ask(Request::Fetch(pending@[0]))
                &&& r.0.stage() matches Stage::Fetching { pending: rest, command: kept }
                &&& kept == command
                &&& rest@ == pending@.remove(0)
            },
    {
        let mut pending = pending;
        if pending.len() == 0 {
            Self::begin(repo, command)
        } else {
            let first = pending.remove(0);
            (Run { repo, stage: Stage::Fetching { pending, command } }, Step::Ask(Request::Fetch(first)))
        }
    }

    /// Takes the engine's answer to the request that the run made last, and
    /// says what comes next.
    pub fn next(self, answer: Answer) -> (r: (Run<'a>, Step<'a>))
        requires
            self.stage().accepts(answer),
        ensures
            r.0.config() == self.config(),
            follows(self.config(), self.stage(), answer, r.0.stage(), r.1),
            self.stage().is_before(r.0.stage()),
    {
        proof {
            use_type_invariant(&self);
        }
        let repo = self.repo;
        match (self.stage, answer) {
            (Stage::CurrentUpstream { local }, Answer::Failed(e)) => Self::end(
                repo,
                Ok(Outcome::CurrentBranch(repo.current_branch(local, Err(e)))),
            ),
            (_, Answer::Failed(e)) => Self::end(repo, Err(e)),
            (Stage::Opening { command }, _) => {
                if command.kind().fetches_first() {
                    (Run { repo, stage: Stage::Remotes { command } }, Step::Ask(Request::Remotes))
                } else {
                    Self::begin(repo, command)
                }
            },
            (Stage::Remotes { command }, Answer::Names(names)) => {
                let pending = repo.fetch_all(&names);
                proof {
                    let all = pending@;
                    if all.len() > 0 {
                        assert forall|k: int| 0 <= k < all.remove(0).len() implies is_fetch_from(
                            repo.config(),
                            #[trigger] all.remove(0)[k],
                            named_remotes(names@)[k + 1],
                        ) by {
                            assert(all.remove(0)[k] == all[k + 1]);
                        }
                    }
                }
                Self::fetch_next(repo, pending, command)
            },
            (Stage::Fetching { pending, command }, _) => Self::fetch_next(repo, pending, command),
            (Stage::Cloning, _) => Self::end(repo, Ok(Outcome::Cloned)),
            (Stage::Listing, Answer::Listing(listing)) => Self::end(
                repo,
                Ok(Outcome::Branches(repo.branches(&listing))),
            ),
            (Stage::CurrentHead, Answer::Head { shorthand, name: _ }) => {
                let name = match &shorthand {
                    Some(text) => repo.current_branch_name(Some(text.as_str())),
                    None => repo.current_branch_name(None),
                };
                (Run { repo, stage: Stage::CurrentLocal }, Step::Ask(Request::LocalBranch(name)))
            },
            (Stage::CurrentLocal, Answer::Branch(local)) => (
                Run { repo, stage: Stage::CurrentUpstream { local } },
                Step::Ask(Request::Upstream),
            ),
            (Stage::CurrentUpstream { local }, Answer::Branch(upstream)) => Self::end(
                repo,
                Ok(Outcome::CurrentBranch(repo.current_branch(local, Ok(upstream)))),
            ),
            (Stage::StatusHead, Answer::Head { shorthand, name: _ }) => {
                match repo.status_branch_name(shorthand) {
                    Ok(branch_name) => (
                        Run { repo, stage: Stage::StatusEntries { branch_name } },
                        Step::Ask(Request::Statuses(Repo::status_options())),
                    ),
                    Err(e) => Self::end(repo, Err(e)),
                }
            },
            (Stage::StatusEntries { branch_name }, Answer::Entries(entries)) => Self::end(
                repo,
                Ok(Outcome::Status(StatusSummary::from_entries(branch_name, &entries))),
            ),
            (Stage::Staging, Answer::Count(count)) => Self::end(repo, Ok(Outcome::Added(count))),
            (Stage::CommitTree { message }, _) => (
                Run { repo, stage: Stage::CommitParent { message } },
                Step::Ask(Request::HeadCommit),
            ),
            (Stage::CommitParent { message }, Answer::Commit(found)) => {
                match repo.find_last_commit(found) {
                    Ok(parent) => {
                        let request = repo.commit(message.as_str(), parent);
                        (Run { repo, stage: Stage::Committing }, Step::Ask(Request::Commit(request)))
                    },
                    Err(e) => Self::end(repo, Err(e)),
                }
            },
            (Stage::Committing, Answer::Id(id)) => Self::end(repo, Ok(Outcome::Committed(id))),
            (Stage::CheckoutListing { branch_name }, Answer::Listing(listing)) => {
                let branches = repo.branches(&listing);
                match repo.checkout(branch_name.as_str(), &branches) {
                    Ok(plan) => {
                        let source = plan.source;
                        (
                            Run { repo, stage: Stage::CheckoutTip { branch_name, plan } },
                            Step::Ask(Request::Tip(source)),
                        )
                    },
                    Err(e) => Self::end(repo, Err(e)),
                }
            },
            (Stage::CheckoutTip { branch_name, plan }, Answer::Commit(found)) => {
                match repo.checkout_commit(found) {
                    Ok(_) => {
                        let CheckoutPlan { source: _, create, head, options } = plan;
                        match create {
                            Some(branch) => (
                                Run {
                                    repo,
                                    stage: Stage::CheckoutCreating { branch_name, head, options },
                                },
                                Step::Ask(Request::CreateBranch(branch)),
                            ),
                            None => (
                                Run { repo, stage: Stage::CheckoutSetHead { branch_name, options } },
                                Step::Ask(Request::SetHead(head)),
                            ),
                        }
                    },
                    Err(e) => Self::end(repo, Err(e)),
                }
            },
            (Stage::CheckoutCreating { branch_name, head, options }, _) => (
                Run { repo, stage: Stage::CheckoutSetHead { branch_name, options } },
                Step::Ask(Request::SetHead(head)),
            ),
            (Stage::CheckoutSetHead { branch_name, options }, _) => (
                Run { repo, stage: Stage::CheckoutTree { branch_name } },
                Step::Ask(Request::CheckoutHead(options)),
            ),
            (Stage::CheckoutTree { branch_name }, _) => Self::end(
                repo,
                Ok(Outcome::CheckedOut { branch_name }),
            ),
            (Stage::PushRemote, _) => (
                Run { repo, stage: Stage::PushHead },
                Step::Ask(Request::Head),
            ),
            (Stage::PushHead, Answer::Head { shorthand: _, name }) => {
                let request = match &name {
                    Some(reference) => repo.push(Some(reference.as_str())),
                    None => repo.push(None),
                };
                match request {
                    Ok(request) => (
                        Run { repo, stage: Stage::Pushing },
                        Step::Ask(Request::Push(request)),
                    ),
                    Err(e) => Self::end(repo, Err(e)),
                }
            },
            (Stage::Pushing, _) => Self::end(repo, Ok(Outcome::Pushed)),
            (Stage::PullLocal { branch_name }, _) => (
                Run { repo, stage: Stage::PullUpstream { branch_name } },
                Step::Ask(Request::Upstream),
            ),
            (Stage::PullUpstream { branch_name }, _) => (
                Run { repo, stage: Stage::PullTips { branch_name } },
                Step::Ask(Request::Tips),
            ),
            (Stage::PullTips { branch_name }, Answer::Tips { local, upstream }) => (
                Run {
                    repo,
                    stage: Stage::PullAnalysis { branch_name, old_id: local, upstream_id: upstream },
                },
                Step::Ask(Request::Analyze),
            ),
            (
                Stage::PullAnalysis { branch_name, old_id, upstream_id },
                Answer::Analysis(analysis),
            ) => {
                match repo.pull(branch_name.as_str(), analysis, upstream_id) {
                    PullStep::Done(result) => Self::end(repo, Ok(Outcome::Pulled(result))),
                    PullStep::FastForward { target, log_message } => (
                        Run { repo, stage: Stage::PullMoving { old_id } },
                        Step::Ask(Request::SetTarget { target, log_message }),
                    ),
                }
            },
            (Stage::PullMoving { old_id }, Answer::Id(new_id)) => Self::end(
                repo,
                Ok(Outcome::Pulled(repo.fast_forwarded(old_id, new_id))),
            ),
            _ => unreached(),
        }
    }
}

} // verus!
