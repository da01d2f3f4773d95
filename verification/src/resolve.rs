//! Fallback resolution: which branch to show, which remote to read the URL
//! from, and which browser to launch.

use vstd::prelude::*;
use vstd::string::StringExecFns;

verus! {

/// Options collected from the command line.
#[derive(Debug, Clone)]
pub struct Opt {
    /// Branch to show; when absent the checked-out branch decides.
    pub branch: Option<String>,
    /// Browser to launch; when absent the `BROWSER` variable or the
    /// system default decides.
    pub browser: Option<String>,
    /// Remote whose URL is opened; when absent the remote named
    /// `origin` is used.
    pub remote: Option<String>,
    /// Whether diagnostic lines are printed.
    pub verbose: bool,
}

/// What inspecting the repository's HEAD reference yielded.
#[derive(Debug, Clone)]
pub enum HeadState {
    /// HEAD resolves to a reference with a printable short name.
    Named(String),
    /// HEAD resolves, but its reference has no printable short name.
    Unnamed,
    /// The branch is unborn, or HEAD is missing.
    Unborn,
    /// HEAD lookup failed for any other reason.
    Failed,
}

/// What looking up the chosen remote yielded.
#[derive(Debug, Clone)]
pub enum RemoteState {
    /// No remote of the chosen name is configured.
    Missing,
    /// The remote exists but has no URL.
    NoUrl,
    /// The remote exists and carries this URL.
    Url(String),
}

/// A resolution failure; each variant is fatal to the caller.
#[derive(Debug, Clone, Copy, PartialEq, Eq, Structural)]
pub enum ResolveError {
    /// HEAD lookup failed for a reason other than an unborn or missing HEAD.
    UnresolvableHead,
    /// The chosen remote is not configured.
    UnknownRemote,
    /// The chosen remote has no URL.
    RemoteWithoutUrl,
}

impl ResolveError {
    /// The message printed when the error terminates the run.
    pub fn message(&self) -> (r: &'static str)
        ensures
            *self is UnresolvableHead ==> r@ == "failed to get head ref"@,
            *self is UnknownRemote ==> r@ == "failed to get remote"@,
            *self is RemoteWithoutUrl ==> r@ == "no remote available"@,
    {
        match self {
            ResolveError::UnresolvableHead => "failed to get head ref",
            ResolveError::UnknownRemote => "failed to get remote",
            ResolveError::RemoteWithoutUrl => "no remote available",
        }
    }
}

/// Which way the chosen URL is opened.
#[derive(Debug, Clone, PartialEq, Eq)]
pub enum BrowserChoice {
    /// Run this command with the URL as its sole argument.
    Command(String),
    /// Hand the URL to the operating system's default opener.
    SystemDefault,
}

/// The branch to show: an explicit branch wins unconditionally; otherwise
/// HEAD's short name; otherwise the literal `master` when HEAD is unborn,
/// missing, or unnamed. Any other HEAD failure is an error.
pub fn resolve_branch(explicit: Option<String>, head: HeadState) -> (r: Result<
    String,
    ResolveError,
>)
    ensures
        explicit matches Some(b) ==> r == Ok::<String, ResolveError>(b),
        explicit is None ==> (head matches HeadState::Named(n) ==> r == Ok::<String, ResolveError>(
            n,
        )),
        explicit is None && (head is Unnamed || head is Unborn) ==> (r matches Ok(b) && b@
            == "master"@),
        explicit is None && head is Failed ==> r == Err::<String, ResolveError>(
            ResolveError::UnresolvableHead,
        ),
{
    match explicit {
        Some(branch) => Ok(branch),
        None => match head {
            HeadState::Named(name) => Ok(name),
            HeadState::Unnamed => Ok(String::from_str("master")),
            HeadState::Unborn => Ok(String::from_str("master")),
            HeadState::Failed => Err(ResolveError::UnresolvableHead),
        },
    }
}

/// The remote to look up: the explicit name when given, else the literal
/// `origin`.
pub fn resolve_remote_name(explicit: Option<String>) -> (r: String)
    ensures
        explicit matches Some(n) ==> r == n,
        explicit is None ==> r@ == "origin"@,
{
    match explicit {
        Some(name) => name,
        None => String::from_str("origin"),
    }
}

/// The remote's URL, or the error owed when the remote is missing or has
/// no URL.
pub fn resolve_remote_url(remote: RemoteState) -> (r: Result<String, ResolveError>)
    ensures
        remote matches RemoteState::Url(u) ==> r == Ok::<String, ResolveError>(u),
        remote is Missing ==> r == Err::<String, ResolveError>(ResolveError::UnknownRemote),
        remote is NoUrl ==> r == Err::<String, ResolveError>(ResolveError::RemoteWithoutUrl),
{
    match remote {
        RemoteState::Url(url) => Ok(url),
        RemoteState::Missing => Err(ResolveError::UnknownRemote),
        RemoteState::NoUrl => Err(ResolveError::RemoteWithoutUrl),
    }
}

/// The browser to use: an explicit browser wins over the `BROWSER`
/// environment value, which wins over the system default.
pub fn resolve_browser(explicit: Option<String>, env_browser: Option<String>) -> (r: BrowserChoice)
    ensures
        explicit matches Some(b) ==> r == BrowserChoice::Command(b),
        explicit is None ==> (env_browser matches Some(b) ==> r == BrowserChoice::Command(b)),
        explicit is None && env_browser is None ==> r == BrowserChoice::SystemDefault,
{
    match explicit {
        Some(browser) => BrowserChoice::Command(browser),
        None => match env_browser {
            Some(browser) => BrowserChoice::Command(browser),
            None => BrowserChoice::SystemDefault,
        },
    }
}

} // verus!
