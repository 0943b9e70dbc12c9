//! The text face of the session, for a host that speaks in strings: every
//! outcome of an operation, success or failure, becomes one text.
use vstd::prelude::*;
use vstd::string::*;

use crate::branch::{branch_name, Branch, BranchType, TrackedBranch};
use crate::config::{AuthType, Config};
use crate::error::GitError;
use crate::git::{PullResult, Repo};
use crate::git_status::StatusSummary;
use crate::run::Outcome;
use crate::text::{decimal, decimal_string, join, joined, texts};

verus! {

/// The line of a branch in a listing: its kind, a blank and the name to show.
pub open spec fn branch_line(entry: (Branch, BranchType)) -> Seq<char> {
    entry.1.label() + " "@ + entry.0.shown_name()
}

/// The lines of the branches of a listing, in order.
pub open spec fn branch_lines(branches: Seq<(Branch, BranchType)>) -> Seq<Seq<char>> {
    Seq::new(branches.len(), |i: int| branch_line(branches[i]))
}

/// The text that answers a finished operation.
pub open spec fn outcome_text(outcome: Outcome) -> Seq<char> {
    match outcome {
        Outcome::Cloned => "Repository cloned"@,
        Outcome::Branches(branches) => joined(branch_lines(branches@), "\n"@),
        Outcome::CurrentBranch(branch) => branch.text(),
        Outcome::Status(summary) => summary@.text(),
        Outcome::Added(count) => decimal(count as nat) + " files to be committed"@,
        Outcome::Committed(id) => id@,
        Outcome::CheckedOut { branch_name } => "Switched to branch "@ + branch_name@,
        Outcome::Pushed => "Successfully pushed the branch"@,
        Outcome::Pulled(result) => result.text(),
        Outcome::Merged => "Successfully merged the branch"@,
    }
}

/// Renders a listing of branches: one line for each branch, in order.
pub fn branches_text(branches: &Vec<(Branch, BranchType)>) -> (r: String)
    ensures
        r@ == joined(branch_lines(branches@), "\n"@),
{
    let mut rendered: Vec<String> = Vec::new();
    let mut i: usize = 0;
    while i < branches.len()
        invariant
            i <= branches.len(),
            rendered.len() == i,
            forall|k: int| 0 <= k < i ==> rendered[k]@ == branch_line(#[trigger] branches[k]),
        decreases branches.len() - i,
    {
        let mut line = String::from_str(branches[i].1.name());
        line.append(" ");
        line.append(branch_name(&branches[i].0).as_str());
        rendered.push(line);
        i += 1;
    }
    assert(texts(rendered@) =~= branch_lines(branches@));
    join(&rendered, "\n")
}

/// The one step at which a failure becomes text.
fn flattened(outcome: Result<String, GitError>) -> (r: String)
    ensures
        r@ == match outcome {
            Ok(text) => text@,
            Err(e) => e.message(),
        },
{
    match outcome {
        Ok(text) => text,
        Err(e) => e.to_string(),
    }
}

/// The session as a host sees it: a configuration to fill in, and for each
/// operation the text that answers it.
pub struct Git {
    pub config: Config,
}

impl Default for Git {
    fn default() -> (r: Git)
        ensures
            r.config.username@.len() == 0,
            r.config.auth is Anonymous,
            r.config.email@.len() == 0,
            r.config.path@.len() == 0,
    {
        Git { config: Config::default() }
    }
}

impl Git {
    /// The rules of a session on the configuration as it is now.
    pub fn open_repo(&self) -> (r: Repo<'_>)
        ensures
            r.config() == self.config,
    {
        Repo::open(&self.config)
    }

    /// The working directory.
    pub fn get_catalog(&self) -> (r: &str)
        ensures
            r@ == self.config.path@,
    {
        self.config.path.as_str()
    }

    /// Sets the working directory.
    pub fn set_catalog(&mut self, catalog: &str)
        ensures
            final(self).config.path@ == catalog@,
            final(self).config.username == old(self).config.username,
            final(self).config.auth == old(self).config.auth,
            final(self).config.email == old(self).config.email,
    {
        self.config.path = String::from_str(catalog);
    }

    /// Answers an operation, whichever it was: with the text for what it has
    /// to show, or with the message of the failure.
    pub fn answer(&self, result: Result<Outcome, GitError>) -> (r: String)
        ensures
            r@ == match result {
                Ok(outcome) => outcome_text(outcome),
                Err(e) => e.message(),
            },
    {
        match result {
            Ok(Outcome::Cloned) => self.clone_repo(Ok(())),
            Ok(Outcome::Branches(branches)) => self.branches(Ok(branches)),
            Ok(Outcome::CurrentBranch(branch)) => self.current_branch(Ok(branch)),
            Ok(Outcome::Status(summary)) => self.status(Ok(summary)),
            Ok(Outcome::Added(count)) => self.add_all(Ok(count)),
            Ok(Outcome::Committed(id)) => self.commit(Ok(id)),
            Ok(Outcome::CheckedOut { branch_name }) => self.checkout(branch_name.as_str(), Ok(())),
            Ok(Outcome::Pushed) => self.push(Ok(())),
            Ok(Outcome::Pulled(result)) => self.pull(Ok(result)),
            Ok(Outcome::Merged) => self.merge(),
            Err(e) => e.to_string(),
        }
    }

    /// Answers a clone.
    pub fn clone_repo(&self, outcome: Result<(), GitError>) -> (r: String)
        ensures
            r@ == match outcome {
                Ok(_) => "Repository cloned"@,
                Err(e) => e.message(),
            },
    {
        match outcome {
            Ok(_) => String::from_str("Repository cloned"),
            Err(e) => e.to_string(),
        }
    }

    /// Answers the listing of the branches: one line for each branch.
    pub fn branches(&self, outcome: Result<Vec<(Branch, BranchType)>, GitError>) -> (r: String)
        ensures
            r@ == match outcome {
                Ok(branches) => joined(branch_lines(branches@), "\n"@),
                Err(e) => e.message(),
            },
    {
        flattened(self.branches_(outcome))
    }

    /// Answers the question for the current branch: the local branch and its
    /// upstream.
    pub fn current_branch(&self, outcome: Result<TrackedBranch, GitError>) -> (r: String)
        ensures
            r@ == match outcome {
                Ok(branch) => branch.text(),
                Err(e) => e.message(),
            },
    {
        flattened(self.current_branch_(outcome))
    }

    /// Answers a status query with the rendered summary.
    pub fn status(&self, outcome: Result<StatusSummary, GitError>) -> (r: String)
        ensures
            r@ == match outcome {
                Ok(summary) => summary@.text(),
                Err(e) => e.message(),
            },
    {
        flattened(self.status_(outcome))
    }

    /// Answers the staging of every path with the number of paths that the
    /// index holds.
    pub fn add_all(&self, outcome: Result<usize, GitError>) -> (r: String)
        ensures
            r@ == match outcome {
                Ok(count) => decimal(count as nat) + " files to be committed"@,
                Err(e) => e.message(),
            },
    {
        flattened(self.add_all_(outcome))
    }

    /// Answers a commit with the id of the new commit.
    pub fn commit(&self, outcome: Result<String, GitError>) -> (r: String)
        ensures
            r@ == match outcome {
                Ok(id) => id@,
                Err(e) => e.message(),
            },
    {
        flattened(outcome)
    }

    /// Answers a checkout.
    pub fn checkout(&self, branch_name: &str, outcome: Result<(), GitError>) -> (r: String)
        ensures
            r@ == match outcome {
                Ok(_) => "Switched to branch "@ + branch_name@,
                Err(e) => e.message(),
            },
    {
        match outcome {
            Ok(_) => {
                let mut res = String::from_str("Switched to branch ");
                res.append(branch_name);
                res
            },
            Err(e) => e.to_string(),
        }
    }

    /// Answers a push.
    pub fn push(&self, outcome: Result<(), GitError>) -> (r: String)
        ensures
            r@ == match outcome {
                Ok(_) => "Successfully pushed the branch"@,
                Err(e) => e.message(),
            },
    {
        match outcome {
            Ok(_) => String::from_str("Successfully pushed the branch"),
            Err(e) => e.to_string(),
        }
    }

    /// Answers a pull with the result as text.
    pub fn pull(&self, outcome: Result<PullResult, GitError>) -> (r: String)
        ensures
            r@ == match outcome {
                Ok(result) => result.text(),
                Err(e) => e.message(),
            },
    {
        match outcome {
            Ok(result) => result.to_string(),
            Err(e) => e.to_string(),
        }
    }

    /// Answers a merge. Merging does nothing yet, so it has always worked.
    pub fn merge(&self) -> (r: String)
        ensures
            r@ == "Successfully merged the branch"@,
    {
        match self.merge_() {
            Ok(_) => String::from_str("Successfully merged the branch"),
            Err(e) => e.to_string(),
        }
    }

    /// Answers a clone; the same answer as [`Git::clone_repo`].
    pub fn clone_repo_str(&self, outcome: Result<(), GitError>) -> (r: String)
        ensures
            r@ == match outcome {
                Ok(_) => "Repository cloned"@,
                Err(e) => e.message(),
            },
    {
        self.clone_repo(outcome)
    }

    /// Answers the listing of the branches; the same answer as
    /// [`Git::branches`].
    pub fn get_branches_str(&self, outcome: Result<Vec<(Branch, BranchType)>, GitError>) -> (r:
        String)
        ensures
            r@ == match outcome {
                Ok(branches) => joined(branch_lines(branches@), "\n"@),
                Err(e) => e.message(),
            },
    {
        self.branches(outcome)
    }

    /// Answers a checkout in one line that opens with a small letter.
    pub fn checkout_str(&self, branch_name: &str, outcome: Result<(), GitError>) -> (r: String)
        ensures
            r@ == match outcome {
                Ok(_) => "switched to branch "@ + branch_name@,
                Err(e) => e.message(),
            },
    {
        match outcome {
            Ok(_) => {
                let mut res = String::from_str("switched to branch ");
                res.append(branch_name);
                res
            },
            Err(e) => e.to_string(),
        }
    }

    /// Answers the staging of every path; the same answer as
    /// [`Git::add_all`].
    pub fn add_all_str(&self, outcome: Result<usize, GitError>) -> (r: String)
        ensures
            r@ == match outcome {
                Ok(count) => decimal(count as nat) + " files to be committed"@,
                Err(e) => e.message(),
            },
    {
        self.add_all(outcome)
    }

    /// Answers a commit with the word `commit` and the id of the new commit.
    pub fn commit_str(&self, outcome: Result<String, GitError>) -> (r: String)
        ensures
            r@ == match outcome {
                Ok(id) => "commit "@ + id@,
                Err(e) => e.message(),
            },
    {
        match outcome {
            Ok(id) => {
                let mut res = String::from_str("commit ");
                res.append(id.as_str());
                res
            },
            Err(e) => e.to_string(),
        }
    }

    /// Answers a push in short.
    pub fn push_str(&self, outcome: Result<(), GitError>) -> (r: String)
        ensures
            r@ == match outcome {
                Ok(_) => "Ok"@,
                Err(e) => e.message(),
            },
    {
        match outcome {
            Ok(_) => String::from_str("Ok"),
            Err(e) => e.to_string(),
        }
    }

    /// Answers a status query; the same answer as [`Git::status`].
    pub fn status_str(&self, outcome: Result<StatusSummary, GitError>) -> (r: String)
        ensures
            r@ == match outcome {
                Ok(summary) => summary@.text(),
                Err(e) => e.message(),
            },
    {
        self.status(outcome)
    }

    /// Answers the question for the current branch from the two names: the
    /// local name, a colon and the upstream's name.
    pub fn get_current_branch_str(&self, outcome: Result<(String, String), GitError>) -> (r: String)
        ensures
            r@ == match outcome {
                Ok(names) => names.0@ + ":"@ + names.1@,
                Err(e) => e.message(),
            },
    {
        match outcome {
            Ok(names) => {
                let mut res = names.0;
                res.append(":");
                res.append(names.1.as_str());
                res
            },
            Err(e) => e.to_string(),
        }
    }

    /// Answers a merge with the name of the current branch, which is all that
    /// a merge finds out so far.
    pub fn merge_str(&self, outcome: Result<String, GitError>) -> (r: String)
        ensures
            r@ == match outcome {
                Ok(current_branch) => current_branch@,
                Err(e) => e.message(),
            },
    {
        flattened(outcome)
    }

    /// The listing of the branches as text, or the failure.
    pub fn branches_(&self, outcome: Result<Vec<(Branch, BranchType)>, GitError>) -> (r: Result<
        String,
        GitError,
    >)
        ensures
            match outcome {
                Ok(branches) => r matches Ok(text) && text@ == joined(
                    branch_lines(branches@),
                    "\n"@,
                ),
                Err(e) => r == Err::<String, GitError>(e),
            },
    {
        let branches = outcome?;
        Ok(branches_text(&branches))
    }

    /// The current branch as text, or the failure.
    pub fn current_branch_(&self, outcome: Result<TrackedBranch, GitError>) -> (r: Result<
        String,
        GitError,
    >)
        ensures
            match outcome {
                Ok(branch) => r matches Ok(text) && text@ == branch.text(),
                Err(e) => r == Err::<String, GitError>(e),
            },
    {
        let current_branch = outcome?;
        Ok(current_branch.to_string())
    }

    /// The status summary as text, or the failure.
    pub fn status_(&self, outcome: Result<StatusSummary, GitError>) -> (r: Result<String, GitError>)
        ensures
            match outcome {
                Ok(summary) => r matches Ok(text) && text@ == summary@.text(),
                Err(e) => r == Err::<String, GitError>(e),
            },
    {
        let summary = outcome?;
        Ok(summary.to_string())
    }

    /// The number of paths in the index as text, or the failure.
    pub fn add_all_(&self, outcome: Result<usize, GitError>) -> (r: Result<String, GitError>)
        ensures
            match outcome {
                Ok(count) => r matches Ok(text) && text@ == decimal(count as nat)
                    + " files to be committed"@,
                Err(e) => r == Err::<String, GitError>(e),
            },
    {
        let count = outcome?;
        let mut res = decimal_string(count);
        res.append(" files to be committed");
        Ok(res)
    }

    /// Merging does nothing yet and cannot fail.
    pub fn merge_(&self) -> (r: Result<(), GitError>)
        ensures
            r is Ok,
    {
        Ok(())
    }
}

/// The component that a host loads: the session's text face behind the four
/// properties that the host reads and writes.
pub struct GitAddin {
    git: Git,
}

impl GitAddin {
    /// The configuration as the host has set it.
    pub closed spec fn config(&self) -> Config {
        self.git.config
    }

    /// A component whose properties are all empty and that stays anonymous.
    pub fn new() -> (r: GitAddin)
        ensures
            r.config().username@.len() == 0,
            r.config().auth is Anonymous,
            r.config().email@.len() == 0,
            r.config().path@.len() == 0,
    {
        GitAddin { git: Git::default() }
    }

    /// The text face that answers the host's calls.
    pub fn git(&self) -> (r: &Git)
        ensures
            r.config == self.config(),
    {
        &self.git
    }

    /// The property `Login`.
    pub fn get_login(&self) -> (r: String)
        ensures
            r@ == self.config().username@,
    {
        self.git.config.username.clone()
    }

    /// Sets the property `Login`.
    pub fn set_login(&mut self, login: String)
        ensures
            final(self).config().username == login,
            final(self).config().auth == old(self).config().auth,
            final(self).config().email == old(self).config().email,
            final(self).config().path == old(self).config().path,
    {
        self.git.config.username = login;
    }

    /// The property `Password`: the password, or the empty text while the
    /// component is anonymous.
    pub fn get_password(&self) -> (r: String)
        ensures
            r@ == match self.config().auth {
                AuthType::Password(password) => password@,
                AuthType::Anonymous => Seq::<char>::empty(),
            },
    {
        match &self.git.config.auth {
            AuthType::Password(password) => password.clone(),
            AuthType::Anonymous => String::new(),
        }
    }

    /// Sets the property `Password`. From then on the component answers a
    /// remote with the login and this password.
    pub fn set_password(&mut self, password: String)
        ensures
            final(self).config().auth == AuthType::Password(password),
            final(self).config().username == old(self).config().username,
            final(self).config().email == old(self).config().email,
            final(self).config().path == old(self).config().path,
    {
        self.git.config.auth = AuthType::Password(password);
    }

    /// The property `Email`.
    pub fn get_email(&self) -> (r: String)
        ensures
            r@ == self.config().email@,
    {
        self.git.config.email.clone()
    }

    /// Sets the property `Email`.
    pub fn set_email(&mut self, email: String)
        ensures
            final(self).config().email == email,
            final(self).config().username == old(self).config().username,
            final(self).config().auth == old(self).config().auth,
            final(self).config().path == old(self).config().path,
    {
        self.git.config.email = email;
    }

    /// The property `Catalog`: the working directory.
    pub fn get_catalog(&self) -> (r: String)
        ensures
            r@ == self.config().path@,
    {
        self.git.config.path.clone()
    }

    /// Sets the property `Catalog`.
    pub fn set_catalog(&mut self, catalog: String)
        ensures
            final(self).config().path == catalog,
            final(self).config().username == old(self).config().username,
            final(self).config().auth == old(self).config().auth,
            final(self).config().email == old(self).config().email,
    {
        self.git.config.path = catalog;
    }
}

} // verus!
