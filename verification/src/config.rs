//! The configuration that a session borrows, and what it offers a remote.
use vstd::prelude::*;

verus! {

/// How the session answers when a remote asks who is calling.
#[derive(Clone, PartialEq, Eq)]
pub enum AuthType {
    /// With the configured user name and this password.
    Password(String),
    /// Not at all: the call stays anonymous.
    Anonymous,
}

impl Default for AuthType {
    fn default() -> (r: AuthType)
        ensures
            r is Anonymous,
    {
        AuthType::Anonymous
    }
}

/// What a caller sets before opening a session. The session borrows it, so a
/// change made between two operations holds for the second.
#[derive(Clone, PartialEq, Eq)]
pub struct Config {
    pub username: String,
    pub auth: AuthType,
    pub email: String,
    /// The working directory.
    pub path: String,
}

impl Default for Config {
    fn default() -> (r: Config)
        ensures
            r.username@.len() == 0,
            r.auth is Anonymous,
            r.email@.len() == 0,
            r.path@.len() == 0,
    {
        Config {
            username: String::new(),
            auth: AuthType::Anonymous,
            email: String::new(),
            path: String::new(),
        }
    }
}

impl Config {
    /// The user name and password that the configuration offers a remote, if
    /// it offers any.
    pub open spec fn offered(self) -> Option<(Seq<char>, Seq<char>)> {
        match self.auth {
            AuthType::Password(password) => Some((self.username@, password@)),
            AuthType::Anonymous => None,
        }
    }
}

/// A user name and a password, borrowed from the configuration for the one
/// transfer that offers them.
#[derive(Clone, Copy, PartialEq, Eq)]
pub struct Credentials<'a> {
    pub username: &'a str,
    pub password: &'a str,
}

impl<'a> View for Credentials<'a> {
    type V = (Seq<char>, Seq<char>);

    open spec fn view(&self) -> (Seq<char>, Seq<char>) {
        (self.username@, self.password@)
    }
}

/// The credentials of an optional borrow as plain values.
pub open spec fn credentials_view(credentials: Option<Credentials<'_>>) -> Option<
    (Seq<char>, Seq<char>),
> {
    match credentials {
        Some(c) => Some(c@),
        None => None,
    }
}

/// How a fetch is to be made.
#[derive(Clone, Copy, PartialEq, Eq)]
pub struct FetchOptions<'a> {
    /// What to answer when the remote asks for credentials; `None` declines.
    pub credentials: Option<Credentials<'a>>,
    /// Whether remote-tracking references that the remote no longer has are
    /// removed.
    pub prune: bool,
}

/// How a push is to be made.
#[derive(Clone, Copy, PartialEq, Eq)]
pub struct PushOptions<'a> {
    /// What to answer when the remote asks for credentials; `None` declines.
    pub credentials: Option<Credentials<'a>>,
}

} // verus!
