//! What a session operation can fail with.
use vstd::prelude::*;
use vstd::string::*;

use crate::INVALID_UTF8;

verus! {

/// Why an operation of the session failed.
///
/// The first five are the session's own findings. `Engine` carries what the
/// version-control engine reported, as the one line it prints.
#[derive(Debug, PartialEq, Eq)]
pub enum GitError {
    /// Neither a local branch of the name nor its remote counterpart exists.
    NoBranchWithThisName,
    /// The tip of the branch to switch to is not a commit.
    FailedToObtainCommit,
    /// `HEAD` does not lead to a commit, as on a branch without commits.
    LastCommitNotFound,
    /// `HEAD` has no name that can be used as a reference name.
    NoBranchName,
    /// The short name of `HEAD` is not text. The message says so with the
    /// sentinel.
    BranchNameNotText,
    /// A failure inside the engine, with its message.
    Engine(String),
}

impl Clone for GitError {
    fn clone(&self) -> (r: GitError)
        ensures
            r == *self,
    {
        match self {
            GitError::NoBranchWithThisName => GitError::NoBranchWithThisName,
            GitError::FailedToObtainCommit => GitError::FailedToObtainCommit,
            GitError::LastCommitNotFound => GitError::LastCommitNotFound,
            GitError::NoBranchName => GitError::NoBranchName,
            GitError::BranchNameNotText => GitError::BranchNameNotText,
            GitError::Engine(text) => GitError::Engine(text.clone()),
        }
    }
}

impl GitError {
    /// The one line that a front end shows for the error.
    pub open spec fn message(self) -> Seq<char> {
        match self {
            GitError::NoBranchWithThisName => "no branch with this name"@,
            GitError::FailedToObtainCommit => "Failed to obtain commit"@,
            GitError::LastCommitNotFound => "Couldn't find last commit"@,
            GitError::NoBranchName => "no branch name"@,
            GitError::BranchNameNotText => "Current branch name is "@ + INVALID_UTF8@,
            GitError::Engine(text) => text@,
        }
    }

    /// Wraps a message of the engine.
    pub fn from_str(message: &str) -> (r: GitError)
        ensures
            r.message() == message@,
            r is Engine,
    {
        GitError::Engine(String::from_str(message))
    }

    /// Renders the error as the line to show.
    pub fn to_string(&self) -> (r: String)
        ensures
            r@ == self.message(),
    {
        match self {
            GitError::NoBranchWithThisName => String::from_str("no branch with this name"),
            GitError::FailedToObtainCommit => String::from_str("Failed to obtain commit"),
            GitError::LastCommitNotFound => String::from_str("Couldn't find last commit"),
            GitError::NoBranchName => String::from_str("no branch name"),
            GitError::BranchNameNotText => {
                let mut text = String::from_str("Current branch name is ");
                text.append(INVALID_UTF8);
                text
            },
            GitError::Engine(text) => text.clone(),
        }
    }
}

/// The session's own findings read as one line each: none of their messages
/// holds a line break.
pub proof fn own_messages_are_one_line(e: GitError)
    requires
        !(e is Engine),
    ensures
        forall|i: int| 0 <= i < e.message().len() ==> e.message()[i] != '\n',
{
    reveal_strlit("no branch with this name");
    reveal_strlit("Failed to obtain commit");
    reveal_strlit("Couldn't find last commit");
    reveal_strlit("no branch name");
    reveal_strlit("Current branch name is ");
    reveal_strlit("INVALID UTF-8");
}

} // verus!
