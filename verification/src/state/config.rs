//! Where the program keeps its state: under `.mudroom` in the home directory.
use std::path::PathBuf;
use vstd::prelude::*;

verus! {

/// A file system path: `std::path::PathBuf`. Opaque here; paths are made by
/// joining.
#[verifier::external_type_specification]
#[verifier::external_body]
pub struct ExPathBuf(PathBuf);

/// The path that `std::path::Path::join` makes of `base` and `part`.
pub uninterp spec fn path_join(base: PathBuf, part: Seq<char>) -> PathBuf;

/// `std::path::Path::join`: `base` with `part` adjoined.
///
/// Trusted: the contract only gives the outcome a name. It claims that the
/// outcome depends on the two arguments alone.
#[verifier::external_body]
pub(crate) fn join(base: &PathBuf, part: &str) -> (joined: PathBuf)
    ensures
        joined == path_join(*base, part@),
{
    base.join(part)
}

/// `dirs::home_dir`: the home directory of the current user, if it can be
/// told.
///
/// Trusted: nothing is claimed of the outcome, which depends on the
/// environment.
#[verifier::external_body]
pub(crate) fn home_dir() -> (home: Option<PathBuf>) {
    dirs::home_dir()
}

/// Why a state path could not be told.
#[derive(Debug, Clone, Copy, PartialEq, Eq, Structural)]
pub enum StateError {
    /// The home directory is unknown.
    NoHomeDir,
}

impl StateError {
    /// The message that describes this error.
    pub fn message(&self) -> (text: &'static str)
        ensures
            text@ == "Could not determine home directory"@,
    {
        "Could not determine home directory"
    }
}

/// The state directory under `home`.
pub open spec fn mudroom_path(home: PathBuf) -> PathBuf {
    path_join(home, ".mudroom"@)
}

/// The directory of the stored identities under `home`.
pub open spec fn session_path(home: PathBuf) -> PathBuf {
    path_join(mudroom_path(home), "session"@)
}

/// The directory that a server with the id or key `server_id` has under `home`.
pub open spec fn server_session_path(home: PathBuf, server_id: Seq<char>) -> PathBuf {
    path_join(path_join(session_path(home), "server"@), server_id)
}

/// The directory that a client has under `home` for the server `server_id`.
pub open spec fn client_session_path(home: PathBuf, server_id: Seq<char>) -> PathBuf {
    path_join(path_join(session_path(home), "client"@), server_id)
}

/// The record in which a server stores its identity under `home`.
pub open spec fn server_session_file_path(home: PathBuf, key: Seq<char>) -> PathBuf {
    path_join(server_session_path(home, key), "session.json"@)
}

/// The record in which a client stores under `home` the identity that the
/// server `server_id` issued to it.
pub open spec fn client_session_file_path(home: PathBuf, server_id: Seq<char>) -> PathBuf {
    path_join(client_session_path(home, server_id), "session.json"@)
}

/// The state directory under `home`.
pub fn mudroom_dir_in(home: &PathBuf) -> (path: PathBuf)
    ensures
        path == mudroom_path(*home),
{
    join(home, ".mudroom")
}

/// The directory of the stored identities under `home`.
pub fn session_dir_in(home: &PathBuf) -> (path: PathBuf)
    ensures
        path == session_path(*home),
{
    let base = mudroom_dir_in(home);
    join(&base, "session")
}

/// The directory that the server `server_id` has under `home`.
pub fn server_session_dir_in(home: &PathBuf, server_id: &str) -> (path: PathBuf)
    ensures
        path == server_session_path(*home, server_id@),
{
    let base = session_dir_in(home);
    let servers = join(&base, "server");
    join(&servers, server_id)
}

/// The directory that a client has under `home` for the server `server_id`.
pub fn client_session_dir_in(home: &PathBuf, server_id: &str) -> (path: PathBuf)
    ensures
        path == client_session_path(*home, server_id@),
{
    let base = session_dir_in(home);
    let clients = join(&base, "client");
    join(&clients, server_id)
}

/// The record in which a server stores its identity under `home`.
pub fn server_session_file_in(home: &PathBuf, key: &str) -> (path: PathBuf)
    ensures
        path == server_session_file_path(*home, key@),
{
    let dir = server_session_dir_in(home, key);
    join(&dir, "session.json")
}

/// The record in which a client stores under `home` the identity that the
/// server `server_id` issued to it.
pub fn client_session_file_in(home: &PathBuf, server_id: &str) -> (path: PathBuf)
    ensures
        path == client_session_file_path(*home, server_id@),
{
    let dir = client_session_dir_in(home, server_id);
    join(&dir, "session.json")
}

/// The state directory of the current user; an error where the home
/// directory is unknown.
pub fn mudroom_dir() -> (found: Result<PathBuf, StateError>)
    ensures
        found matches Ok(path) ==> exists|home: PathBuf| path == mudroom_path(home),
{
    match home_dir() {
        Some(home) => Ok(mudroom_dir_in(&home)),
        None => Err(StateError::NoHomeDir),
    }
}

/// The directory of the current user's stored identities; an error where the
/// home directory is unknown.
pub fn session_dir() -> (found: Result<PathBuf, StateError>)
    ensures
        found matches Ok(path) ==> exists|home: PathBuf| path == session_path(home),
{
    match home_dir() {
        Some(home) => Ok(session_dir_in(&home)),
        None => Err(StateError::NoHomeDir),
    }
}

/// The directory that the server `server_id` has in the current user's
/// state; an error where the home directory is unknown.
pub fn server_session_dir(server_id: &str) -> (found: Result<PathBuf, StateError>)
    ensures
        found matches Ok(path) ==> exists|home: PathBuf|
            path == server_session_path(home, server_id@),
{
    match home_dir() {
        Some(home) => Ok(server_session_dir_in(&home, server_id)),
        None => Err(StateError::NoHomeDir),
    }
}

/// The directory that the current user's client has for the server
/// `server_id`; an error where the home directory is unknown.
pub fn client_session_dir(server_id: &str) -> (found: Result<PathBuf, StateError>)
    ensures
        found matches Ok(path) ==> exists|home: PathBuf|
            path == client_session_path(home, server_id@),
{
    match home_dir() {
        Some(home) => Ok(client_session_dir_in(&home, server_id)),
        None => Err(StateError::NoHomeDir),
    }
}

/// The record in which the current user's server stores its identity under
/// `key`; an error where the home directory is unknown.
pub fn server_session_file(key: &str) -> (found: Result<PathBuf, StateError>)
    ensures
        found matches Ok(path) ==> exists|home: PathBuf|
            path == server_session_file_path(home, key@),
{
    match home_dir() {
        Some(home) => Ok(server_session_file_in(&home, key)),
        None => Err(StateError::NoHomeDir),
    }
}

/// The record in which the current user's client stores the identity that
/// the server `server_id` issued to it; an error where the home directory is
/// unknown.
pub fn client_session_file(server_id: &str) -> (found: Result<PathBuf, StateError>)
    ensures
        found matches Ok(path) ==> exists|home: PathBuf|
            path == client_session_file_path(home, server_id@),
{
    match home_dir() {
        Some(home) => Ok(client_session_file_in(&home, server_id)),
        None => Err(StateError::NoHomeDir),
    }
}

} // verus!
