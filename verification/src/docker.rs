//! How the container runtime is addressed.

use crate::output::Output;
use crate::steps::{Invocation, InvocationView};
use crate::text::{decimal, decimal_string, texts, with_char_replaced};
use crate::util::to_posix_path;
use vstd::prelude::*;

verus! {

/// The user that containers run as, so that what they write belongs to the
/// caller.
#[derive(Clone, Copy, Debug, PartialEq, Eq, Structural)]
pub struct User {
    pub uid: u32,
    pub gid: u32,
}

/// `uid:gid`.
pub open spec fn user_spec(user: User) -> Seq<char> {
    decimal(user.uid as nat) + seq![':'] + decimal(user.gid as nat)
}

/// `uid:gid`.
fn user_text(user: User) -> (out: String)
    ensures
        out@ == user_spec(user),
{
    let mut out = decimal_string(user.uid as u64);
    out.push(':');
    out.append(decimal_string(user.gid as u64).as_str());
    assert(out@ =~= user_spec(user));
    out
}

/// The arguments that select the user; none where the platform has no user
/// to name.
pub open spec fn user_args_of(user: Option<User>) -> Seq<Seq<char>> {
    match user {
        Some(user) => seq!["--user"@, user_spec(user)],
        None => Seq::empty(),
    }
}

/// The same arguments as they stand in a command line.
pub open spec fn user_flag_of(user: Option<User>) -> Seq<char> {
    match user {
        Some(user) => "--user "@ + user_spec(user),
        None => Seq::empty(),
    }
}

/// The arguments that make a container run as `user`.
pub fn user_args(user: Option<User>) -> (args: Vec<String>)
    ensures
        texts(args@) == user_args_of(user),
{
    let mut args: Vec<String> = Vec::new();
    match user {
        Some(user) => {
            args.push(String::from_str("--user"));
            args.push(user_text(user));
        },
        None => {},
    }
    assert(texts(args@) =~= user_args_of(user));
    args
}

/// The same arguments as one string, for the head of a log.
pub fn user_flag(user: Option<User>) -> (flag: String)
    ensures
        flag@ == user_flag_of(user),
{
    match user {
        Some(user) => {
            let mut flag = String::from_str("--user ");
            flag.append(user_text(user).as_str());
            flag
        },
        None => String::new(),
    }
}

/// A path of the repository as a container sees it: under `/work`, with
/// slashes.
pub open spec fn in_container(path: Seq<char>) -> Seq<char> {
    "/work/"@ + with_char_replaced(path, '\\', '/')
}

/// A path of the repository as a container sees it.
pub fn container_path(path: &str) -> (out: String)
    ensures
        out@ == in_container(path@),
{
    let mut out = String::from_str("/work/");
    out.append(to_posix_path(path).as_str());
    out
}

/// Why the container runtime cannot be used.
#[derive(Clone, Copy, Debug, PartialEq, Eq, Structural)]
pub enum DockerError {
    /// The program ran and failed.
    NotResponding,
    /// The program could not be started.
    NotFound,
}

/// What the error says.
pub open spec fn docker_error_message(e: DockerError) -> Seq<char> {
    match e {
        DockerError::NotResponding =>
            "Docker is installed but not responding. Is the daemon running?"@,
        DockerError::NotFound => "Docker not found in PATH."@,
    }
}

impl DockerError {
    /// What the error says.
    pub fn message(&self) -> (out: &'static str)
        ensures
            out@ == docker_error_message(*self),
    {
        match self {
            DockerError::NotResponding =>
                "Docker is installed but not responding. Is the daemon running?",
            DockerError::NotFound => "Docker not found in PATH.",
        }
    }
}

/// The command that probes the container runtime: `docker version`.
pub fn availability_probe() -> (probe: Invocation)
    ensures
        probe@ == (InvocationView { program: "docker"@, args: seq!["version"@] }),
{
    let mut args: Vec<String> = Vec::new();
    args.push(String::from_str("version"));
    assert(texts(args@) =~= seq!["version"@]);
    Invocation { program: String::from_str("docker"), args }
}

/// Judges the probe of the container runtime. `probe` says whether the
/// command succeeded, or is `None` where it could not be started.
pub fn ensure_available(probe: Option<bool>) -> (result: Result<(), DockerError>)
    ensures
        result == (match probe {
            Some(true) => Ok::<(), DockerError>(()),
            Some(false) => Err(DockerError::NotResponding),
            None => Err(DockerError::NotFound),
        }),
{
    match probe {
        Some(true) => Ok(()),
        Some(false) => Err(DockerError::NotResponding),
        None => Err(DockerError::NotFound),
    }
}

/// Where the output of a task goes.
#[derive(Clone, Copy, Debug, PartialEq, Eq, Structural)]
pub enum Capture {
    /// Both streams of the process are appended to the log by the process
    /// itself; the console sees nothing.
    Redirect,
    /// Both streams are read in chunks, and each chunk goes to the log and to
    /// the console.
    Mirror,
}

/// How many bytes of output are taken at a time where the console mirrors
/// the log.
pub const CHUNK_SIZE: usize = 8192;

/// Where the output of a task goes: to log and console where the console is
/// verbose, else to the log alone.
pub fn capture_mode(output: &Output) -> (capture: Capture)
    ensures
        capture == (if output.verbose {
            Capture::Mirror
        } else {
            Capture::Redirect
        }),
{
    if output.verbose {
        Capture::Mirror
    } else {
        Capture::Redirect
    }
}

} // verus!
