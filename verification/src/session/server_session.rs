use vstd::prelude::*;
use crate::ids::{is_hyphenated_uuid, random_id};
use crate::session::error::SessionError;
use crate::session::record::{name_view, read_record, record_json, record_of_json, write_record};

verus! {

/// The identity of a server: created once, stored under a key derived from
/// its name, and loaded again on every start.
#[derive(Debug)]
pub struct ServerSession {
    pub id: String,
    pub name: Option<String>,
}

/// The key under which the identity of a server called `name` is stored: its
/// name, or `unnamed` for a server without one.
pub open spec fn server_key_spec(name: Option<Seq<char>>) -> Seq<char> {
    match name {
        Some(name) => name,
        None => "unnamed"@,
    }
}

/// The key under which the identity of a server called `name` is stored.
pub fn server_key(name: &Option<String>) -> (key: String)
    ensures
        key@ == server_key_spec(name_view(*name)),
{
    match name {
        Some(name) => name.clone(),
        None => "unnamed".to_owned(),
    }
}

impl ServerSession {
    /// The key under which this identity is stored.
    pub fn key(&self) -> (key: String)
        ensures
            key@ == server_key_spec(name_view(self.name)),
    {
        server_key(&self.name)
    }

    /// Writes the identity as it is stored.
    pub fn to_json(&self) -> (text: String)
        ensures
            text@ == record_json(self.id@, name_view(self.name)),
    {
        write_record(&self.id, &self.name)
    }

    /// Reads a stored identity. Text that holds none is a JSON error.
    pub fn from_json(text: &str) -> (loaded: Result<ServerSession, SessionError>)
        ensures
            match loaded {
                Ok(session) => record_of_json(text@) == Some(
                    (session.id@, name_view(session.name)),
                ),
                Err(error) => error == SessionError::Json && record_of_json(text@) is None,
            },
    {
        match read_record(text) {
            Some((id, name)) => Ok(ServerSession { id, name }),
            None => Err(SessionError::Json),
        }
    }

    /// The identity of the server called `name`, given what is stored under
    /// its key and an id to use where nothing is. A stored identity is
    /// returned as it is; without one, a new identity is made of `fresh_id`
    /// and `name`. The flag tells whether the identity is new and has yet to
    /// be stored.
    pub fn load_or_create_with(name: Option<String>, stored: Option<&str>, fresh_id: String) -> (loaded:
        Result<(ServerSession, bool), SessionError>)
        ensures
            match stored {
                Some(text) => match loaded {
                    Ok((session, created)) => !created && record_of_json(text@) == Some(
                        (session.id@, name_view(session.name)),
                    ),
                    Err(error) => error == SessionError::Json && record_of_json(text@) is None,
                },
                None => match loaded {
                    Ok((session, created)) => created && session.id@ == fresh_id@ && session.name
                        == name,
                    Err(_) => false,
                },
            },
    {
        match stored {
            Some(text) => match ServerSession::from_json(text) {
                Ok(session) => Ok((session, false)),
                Err(error) => Err(error),
            },
            None => Ok((ServerSession { id: fresh_id, name }, true)),
        }
    }

    /// The identity of the server called `name`, given what is stored under
    /// its key: the stored identity, unchanged, where there is one, and else
    /// a new identity under a new random id. The flag tells whether the
    /// identity is new and has yet to be stored.
    pub fn load_or_create(name: Option<String>, stored: Option<&str>) -> (loaded: Result<
        (ServerSession, bool),
        SessionError,
    >)
        ensures
            match stored {
                Some(text) => match loaded {
                    Ok((session, created)) => !created && record_of_json(text@) == Some(
                        (session.id@, name_view(session.name)),
                    ),
                    Err(error) => error == SessionError::Json && record_of_json(text@) is None,
                },
                None => match loaded {
                    Ok((session, created)) => created && is_hyphenated_uuid(session.id@)
                        && session.name == name,
                    Err(_) => false,
                },
            },
    {
        match stored {
            Some(_) => ServerSession::load_or_create_with(name, stored, String::new()),
            None => ServerSession::load_or_create_with(name, stored, random_id()),
        }
    }
}

} // verus!
