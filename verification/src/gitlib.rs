//! A plain face of the session for a host that only asks whether an operation
//! worked.
use vstd::prelude::*;
use vstd::string::*;

use crate::addin::{branch_lines, branches_text};
use crate::branch::{Branch, BranchType};
use crate::config::{Credentials, FetchOptions};
use crate::error::GitError;
use crate::text::joined;

verus! {

/// What stands for success.
pub const DONE: &'static str = "Ok";

/// A switch to a branch by moving the current branch and the working tree to
/// the tip of the listed branch at `source`.
#[derive(Clone, Copy, Debug, PartialEq, Eq, Structural)]
pub struct ResetPlan {
    pub source: usize,
    /// Files of the working tree are overwritten where they differ.
    pub force: bool,
}

/// A listed branch carries this name, whatever its kind.
pub open spec fn is_called(entry: (Branch, BranchType), name: Seq<char>) -> bool {
    entry.0.is_named(name)
}

/// The session's settings and its answers, each of which is `Ok`, or the
/// message of the failure.
pub struct GitLib {
    pub login: String,
    pub password: String,
    pub email: String,
    /// The working directory.
    pub catalog: String,
}

impl Default for GitLib {
    fn default() -> (r: GitLib)
        ensures
            r.login@.len() == 0,
            r.password@.len() == 0,
            r.email@.len() == 0,
            r.catalog@.len() == 0,
    {
        GitLib {
            login: String::new(),
            password: String::new(),
            email: String::new(),
            catalog: String::new(),
        }
    }
}

impl GitLib {
    /// The answer for an outcome: `Ok`, or the message of the failure.
    pub open spec fn answer<T>(outcome: Result<T, GitError>) -> Seq<char> {
        match outcome {
            Ok(_) => DONE@,
            Err(e) => e.message(),
        }
    }

    /// Answers a clone.
    pub fn clone_repo_str(&self, outcome: Result<(), GitError>) -> (r: String)
        ensures
            r@ == Self::answer(outcome),
    {
        match outcome {
            Ok(_) => String::from_str(DONE),
            Err(e) => e.to_string(),
        }
    }

    /// Answers the listing of the branches: one line for each branch, with
    /// its kind and the name to show.
    pub fn get_branches_str(&self, outcome: Result<Vec<(Branch, BranchType)>, GitError>) -> (r:
        String)
        ensures
            r@ == match outcome {
                Ok(branches) => joined(branch_lines(branches@), "\n"@),
                Err(e) => e.message(),
            },
    {
        match outcome {
            Ok(branches) => branches_text(&branches),
            Err(e) => e.to_string(),
        }
    }

    /// Answers a checkout. Its word for success opens with a small letter.
    pub fn checkout_str(&self, outcome: Result<(), GitError>) -> (r: String)
        ensures
            r@ == match outcome {
                Ok(_) => "ok"@,
                Err(e) => e.message(),
            },
    {
        match outcome {
            Ok(_) => String::from_str("ok"),
            Err(e) => e.to_string(),
        }
    }

    /// Answers the staging of every path.
    pub fn add_all_str(&self, outcome: Result<(), GitError>) -> (r: String)
        ensures
            r@ == Self::answer(outcome),
    {
        match outcome {
            Ok(_) => String::from_str(DONE),
            Err(e) => e.to_string(),
        }
    }

    /// Answers a commit. The id of the new commit is not shown.
    pub fn commit_str(&self, outcome: Result<String, GitError>) -> (r: String)
        ensures
            r@ == Self::answer(outcome),
    {
        match outcome {
            Ok(_) => String::from_str(DONE),
            Err(e) => e.to_string(),
        }
    }

    /// The working directory.
    pub fn get_catalog(&self) -> (r: &str)
        ensures
            r@ == self.catalog@,
    {
        self.catalog.as_str()
    }

    /// Sets the working directory.
    pub fn set_catalog(&mut self, catalog: &str)
        ensures
            final(self).catalog@ == catalog@,
            final(self).login == old(self).login,
            final(self).password == old(self).password,
            final(self).email == old(self).email,
    {
        self.catalog = String::from_str(catalog);
    }

    /// The credentials to answer a remote with: always the login and the
    /// password, as they are set.
    pub fn register_credentials(&self) -> (r: Credentials<'_>)
        ensures
            r@ == (self.login@, self.password@),
    {
        Credentials { username: self.login.as_str(), password: self.password.as_str() }
    }

    /// How this face fetches: with its credentials, and without pruning.
    pub fn fetch_options(&self) -> (r: FetchOptions<'_>)
        ensures
            r.credentials matches Some(c) && c@ == (self.login@, self.password@),
            !r.prune,
    {
        FetchOptions { credentials: Some(self.register_credentials()), prune: false }
    }

    /// The switch to the first listed branch that carries the name, local or
    /// remote. It fails exactly where no listed branch carries it.
    pub fn checkout(&self, branch_name: &str, branches: &Vec<(Branch, BranchType)>) -> (r: Result<
        ResetPlan,
        GitError,
    >)
        ensures
            match r {
                Ok(plan) => {
                    &&& plan.force
                    &&& plan.source < branches@.len()
                    &&& is_called(branches@[plan.source as int], branch_name@)
                    &&& forall|j: int|
                        0 <= j < plan.source ==> !is_called(#[trigger] branches@[j], branch_name@)
                },
                Err(e) => {
                    &&& e == GitError::NoBranchWithThisName
                    &&& forall|j: int|
                        0 <= j < branches@.len() ==> !is_called(
                            #[trigger] branches@[j],
                            branch_name@,
                        )
                },
            },
    {
        let name = String::from_str(branch_name);
        let mut i: usize = 0;
        while i < branches.len()
            invariant
                i <= branches.len(),
                name@ == branch_name@,
                forall|j: int| 0 <= j < i ==> !is_called(#[trigger] branches@[j], branch_name@),
            decreases branches.len() - i,
        {
            if branches[i].0.has_name(&name) {
                return Ok(ResetPlan { source: i, force: true });
            }
            i += 1;
        }
        Err(GitError::NoBranchWithThisName)
    }
}

} // verus!
