use vstd::prelude::*;
use crate::network::server::fabric::Fabric;
use crate::network::server::registry::Registry;
use crate::session::ServerSession;

verus! {

pub use crate::network::server::registry::ConnectedClient;

/// What every activity of the gateway shares: the server's identity, the
/// registry of connected clients and the broadcast fabric.
pub struct AppState {
    pub server_session: ServerSession,
    pub connections: Registry,
    pub fabric: Fabric,
}

/// What watches over one event stream: the stream's place in the fabric and
/// the client, if any, on whose behalf it was opened. It is handed in again
/// when the stream ends, so that the cleanup runs once.
pub struct SseCleanupGuard {
    pub subscriber: u64,
    pub client_id: Option<String>,
}

/// Body of the "start session" request.
#[derive(Debug)]
pub struct SessionStartBody {
    pub client_id: Option<String>,
}

/// Body of the "ping" request.
#[derive(Debug)]
pub struct PingBody {
    pub client_id: String,
}

/// Body of the "end session" request.
#[derive(Debug)]
pub struct SessionEndBody {
    pub session_id: String,
}

/// Query of the "subscribe to events" request.
#[derive(Debug)]
pub struct SseQuery {
    pub client_id: Option<String>,
}

impl AppState {
    /// The state of a gateway that has just started: nobody is connected and
    /// nobody listens.
    pub fn new(server_session: ServerSession) -> (state: Self)
        ensures
            state.server_session == server_session,
            state.connections@ == Map::<Seq<char>, u64>::empty(),
            state.fabric@.pending == Map::<u64, Seq<crate::network::event::EventView>>::empty(),
            state.fabric@.capacity == crate::network::server::fabric::DEFAULT_BACKLOG,
            state.fabric@.issued == 0,
    {
        AppState { server_session, connections: Registry::new(), fabric: Fabric::new() }
    }
}

} // verus!
