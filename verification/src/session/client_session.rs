use vstd::prelude::*;
use crate::session::error::SessionError;
use crate::session::record::{name_view, read_record, record_json, record_of_json, write_record};

verus! {

/// The identity that a server issued to this client, stored per server id and
/// presented again on every later connect to that server.
#[derive(Debug)]
pub struct ClientSession {
    pub id: String,
    pub name: Option<String>,
}

impl ClientSession {
    /// Writes the identity as it is stored.
    pub fn to_json(&self) -> (text: String)
        ensures
            text@ == record_json(self.id@, name_view(self.name)),
    {
        write_record(&self.id, &self.name)
    }

    /// Reads a stored identity. Text that holds none is a JSON error.
    pub fn from_json(text: &str) -> (loaded: Result<ClientSession, SessionError>)
        ensures
            match loaded {
                Ok(session) => record_of_json(text@) == Some(
                    (session.id@, name_view(session.name)),
                ),
                Err(error) => error == SessionError::Json && record_of_json(text@) is None,
            },
    {
        match read_record(text) {
            Some((id, name)) => Ok(ClientSession { id, name }),
            None => Err(SessionError::Json),
        }
    }

    /// The identity that this client has for a server, given what is stored
    /// under that server's id: none where nothing is stored.
    pub fn load(stored: Option<&str>) -> (loaded: Result<Option<ClientSession>, SessionError>)
        ensures
            match stored {
                Some(text) => match loaded {
                    Ok(Some(session)) => record_of_json(text@) == Some(
                        (session.id@, name_view(session.name)),
                    ),
                    Ok(None) => false,
                    Err(error) => error == SessionError::Json && record_of_json(text@) is None,
                },
                None => loaded == Ok::<Option<ClientSession>, SessionError>(None),
            },
    {
        match stored {
            Some(text) => match ClientSession::from_json(text) {
                Ok(session) => Ok(Some(session)),
                Err(error) => Err(error),
            },
            None => Ok(None),
        }
    }

    /// The identity under which a client goes on after the server's reply to
    /// "start session": the id that the server resolved, and no name.
    pub fn issued(client_id: String) -> (session: ClientSession)
        ensures
            session.id == client_id,
            session.name is None,
    {
        ClientSession { id: client_id, name: None }
    }
}

/// The id that a client presents when it starts a session: the one it has
/// stored for this server, and none on its first connect or where the stored
/// identity could not be read.
pub fn resume_id(loaded: Result<Option<ClientSession>, SessionError>) -> (client_id: Option<String>)
    ensures
        client_id == match loaded {
            Ok(Some(session)) => Some(session.id),
            _ => None,
        },
{
    match loaded {
        Ok(Some(session)) => Some(session.id),
        _ => None,
    }
}

} // verus!
