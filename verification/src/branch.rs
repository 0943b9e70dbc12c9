//! Branches as the engine lists them, and how their names are shown.
use vstd::prelude::*;
use vstd::string::*;

use crate::error::GitError;
use crate::INVALID_UTF8;

verus! {

/// Where a branch lives.
#[derive(Clone, Copy, Debug, PartialEq, Eq, Structural)]
pub enum BranchType {
    Local,
    Remote,
}

impl BranchType {
    /// The word for the kind in a branch listing.
    pub open spec fn label(self) -> Seq<char> {
        match self {
            BranchType::Local => "Local"@,
            BranchType::Remote => "Remote"@,
        }
    }

    /// The word for the kind in a branch listing.
    pub fn name(self) -> (r: &'static str)
        ensures
            r@ == self.label(),
    {
        match self {
            BranchType::Local => "Local",
            BranchType::Remote => "Remote",
        }
    }
}

/// A branch, known by what the engine answered when asked for its name: the
/// name, `None` where the name is not text, or the failure of the lookup.
#[derive(Debug, PartialEq, Eq)]
pub struct Branch {
    pub name: Result<Option<String>, GitError>,
}

impl Clone for Branch {
    fn clone(&self) -> (r: Branch)
        ensures
            r == *self,
    {
        match &self.name {
            Ok(Some(text)) => Branch { name: Ok(Some(text.clone())) },
            Ok(None) => Branch { name: Ok(None) },
            Err(e) => Branch { name: Err(e.clone()) },
        }
    }
}

impl Branch {
    /// The branch carries exactly this name.
    pub open spec fn is_named(self, name: Seq<char>) -> bool {
        self.name matches Ok(Some(text)) && text@ == name
    }

    /// The name to show for the branch: the real name, the sentinel where the
    /// name is not text, the failure's message where the lookup failed.
    pub open spec fn shown_name(self) -> Seq<char> {
        match self.name {
            Ok(Some(text)) => text@,
            Ok(None) => INVALID_UTF8@,
            Err(e) => e.message(),
        }
    }

    /// What holds of every branch that an engine hands out: a name is not the
    /// empty text, and neither is the message of a failed lookup.
    pub open spec fn well_formed(self) -> bool {
        match self.name {
            Ok(Some(text)) => text@.len() > 0,
            Ok(None) => true,
            Err(e) => e.message().len() > 0,
        }
    }

    /// A branch of the given name.
    pub fn named(name: &str) -> (r: Branch)
        ensures
            r.is_named(name@),
    {
        Branch { name: Ok(Some(String::from_str(name))) }
    }

    /// Whether the branch carries exactly this name.
    pub fn has_name(&self, name: &String) -> (r: bool)
        ensures
            r == self.is_named(name@),
    {
        match &self.name {
            Ok(Some(text)) => *text == *name,
            _ => false,
        }
    }
}

/// The name to show for a branch. This never fails: where there is no name to
/// show, the sentinel or the failure's message stands in its place.
pub fn branch_name(branch: &Branch) -> (r: String)
    ensures
        r@ == branch.shown_name(),
        branch.well_formed() ==> r@.len() > 0,
{
    proof {
        if branch.well_formed() {
            shown_name_is_total(*branch);
        }
    }
    match &branch.name {
        Ok(Some(name)) => name.clone(),
        Ok(None) => String::from_str(INVALID_UTF8),
        Err(e) => e.to_string(),
    }
}

/// The shown name of a branch is its real name, the sentinel or the message of
/// the failed lookup, and it is never the empty text.
pub proof fn shown_name_is_total(branch: Branch)
    requires
        branch.well_formed(),
    ensures
        branch.shown_name().len() > 0,
        branch.name matches Ok(Some(text)) ==> branch.shown_name() == text@,
        branch.name matches Ok(None) ==> branch.shown_name() == INVALID_UTF8@,
        branch.name matches Err(e) ==> branch.shown_name() == e.message(),
{
    reveal_strlit("INVALID UTF-8");
}

/// The kind's word, filled with blanks to the width of the longer word.
pub open spec fn padded_label(kind: BranchType) -> Seq<char> {
    kind.label() + Seq::new((6 - kind.label().len()) as nat, |i: int| ' ')
}

/// The row of a branch in a table: the kind in a column of its own, a dash
/// and the name.
pub open spec fn table_row(kind: BranchType, name: Seq<char>) -> Seq<char> {
    padded_label(kind) + " -- "@ + name
}

/// Renders the row of a branch in a table of branches.
pub fn branch_row(branch: &Branch, kind: BranchType) -> (r: String)
    ensures
        r@ == table_row(kind, branch.shown_name()),
{
    proof {
        reveal_strlit("Local");
        reveal_strlit("Remote");
        reveal_strlit("Local ");
        reveal_strlit("Remote");
        assert("Local "@ =~= padded_label(BranchType::Local));
        assert("Remote"@ =~= padded_label(BranchType::Remote));
    }
    let mut row = match kind {
        BranchType::Local => String::from_str("Local "),
        BranchType::Remote => String::from_str("Remote"),
    };
    row.append(" -- ");
    row.append(branch_name(branch).as_str());
    row
}

/// What stands for the upstream of a branch that tracks none.
pub const NO_UPSTREAM: &'static str = "[No upstream branch tracked]";

/// The name under which the current branch is looked up: the short name of
/// `HEAD`, or `HEAD` itself where it has none.
pub open spec fn head_name(shorthand: Option<Seq<char>>) -> Seq<char> {
    match shorthand {
        Some(name) => name,
        None => "HEAD"@,
    }
}

/// A local branch and the branch it tracks, if it tracks one.
#[derive(Debug, PartialEq, Eq)]
pub struct TrackedBranch {
    pub local: Branch,
    pub upstream: Option<Branch>,
}

impl Clone for TrackedBranch {
    fn clone(&self) -> (r: TrackedBranch)
        ensures
            r == *self,
    {
        let upstream = match &self.upstream {
            Some(branch) => Some(branch.clone()),
            None => None,
        };
        TrackedBranch { local: self.local.clone(), upstream }
    }
}

impl TrackedBranch {
    /// How the pair is shown: the local name, a colon and the upstream's name
    /// or, without an upstream, the placeholder.
    pub open spec fn text(self) -> Seq<char> {
        self.local.shown_name() + ":"@ + match self.upstream {
            Some(upstream) => upstream.shown_name(),
            None => NO_UPSTREAM@,
        }
    }

    /// Pairs a local branch with the answer to the question for its upstream.
    /// A failed lookup means that the branch tracks nothing; it is no error.
    pub fn new(local: Branch, upstream: Result<Branch, GitError>) -> (r: TrackedBranch)
        ensures
            r.local == local,
            r.upstream == match upstream {
                Ok(branch) => Some(branch),
                Err(_) => None::<Branch>,
            },
    {
        let upstream = match upstream {
            Ok(branch) => Some(branch),
            Err(_) => None,
        };
        TrackedBranch { local, upstream }
    }

    /// The name to show for the local branch.
    pub fn local_name(&self) -> (r: String)
        ensures
            r@ == self.local.shown_name(),
    {
        branch_name(&self.local)
    }

    /// The name to show for the upstream, if there is one.
    pub fn upstream_name(&self) -> (r: Option<String>)
        ensures
            match self.upstream {
                Some(upstream) => r matches Some(name) && name@ == upstream.shown_name(),
                None => r is None,
            },
    {
        match &self.upstream {
            Some(upstream) => Some(branch_name(upstream)),
            None => None,
        }
    }

    /// Renders the pair.
    pub fn to_string(&self) -> (r: String)
        ensures
            r@ == self.text(),
    {
        let mut res = self.local_name();
        res.append(":");
        match self.upstream_name() {
            Some(name) => res.append(name.as_str()),
            None => res.append(NO_UPSTREAM),
        }
        res
    }
}

} // verus!
