use vstd::prelude::*;
use crate::ids::{is_hyphenated_uuid, random_id};
use crate::network::event::{EventView, NetworkEvent, ServerInfoResponse, SessionStartResponse};
use crate::network::server::fabric::{delivered, FabricView};
use crate::network::server::registry::{after_end, after_ping, after_start};
use crate::network::server::state::{AppState, PingBody, SessionEndBody, SessionStartBody, SseCleanupGuard, SseQuery};

verus! {

/// The fabric once `event` has been published: every subscriber has it at the
/// end of its backlog, and nothing else has changed.
pub open spec fn announced(before: FabricView, event: EventView) -> FabricView {
    FabricView { pending: delivered(before.pending, event, before.capacity), ..before }
}

/// "Get server info": the id of this server.
pub fn server_info_handler(state: &AppState) -> (reply: ServerInfoResponse)
    ensures
        reply.server_id@ == state.server_session.id@,
{
    ServerInfoResponse { server_id: state.server_session.id.clone() }
}

/// Starts the session of `client_id` at `now`: registers the client,
/// replacing any earlier row of the same id, and announces the start.
pub fn start_session(state: &mut AppState, client_id: String, now: u64) -> (reply:
    SessionStartResponse)
    ensures
        reply.client_id@ == client_id@,
        reply.server_id@ == old(state).server_session.id@,
        final(state).server_session == old(state).server_session,
        final(state).connections@ == after_start(old(state).connections@, client_id@, now),
        final(state).fabric@ == announced(
            old(state).fabric@,
            EventView::StartSession { session_id: client_id@ },
        ),
{
    let server_id = state.server_session.id.clone();
    state.connections.insert(client_id.clone(), now);
    let _ = state.fabric.publish(NetworkEvent::StartSession { session_id: client_id.clone() });
    SessionStartResponse { client_id, server_id }
}

/// "Start session": the client keeps the id that it presents; one that
/// presents none is issued a new random id. Either way the client is
/// registered as heard from at `now`, the start is announced, and the reply
/// carries the client's id and the server's.
pub fn session_start_handler(state: &mut AppState, body: SessionStartBody, now: u64) -> (reply:
    SessionStartResponse)
    ensures
        match body.client_id {
            Some(known) => reply.client_id@ == known@,
            None => is_hyphenated_uuid(reply.client_id@),
        },
        reply.server_id@ == old(state).server_session.id@,
        final(state).server_session == old(state).server_session,
        final(state).connections@ == after_start(old(state).connections@, reply.client_id@, now),
        final(state).fabric@ == announced(
            old(state).fabric@,
            EventView::StartSession { session_id: reply.client_id@ },
        ),
{
    let client_id = match body.client_id {
        Some(known) => known,
        None => random_id(),
    };
    start_session(state, client_id, now)
}

/// "Ping": a registered client is marked as heard from at `now`; for an
/// unknown client nothing is registered. Either way `Pong` goes out to every
/// subscriber, and the request is acknowledged.
pub fn ping_handler(state: &mut AppState, body: PingBody, now: u64) -> (ack: &'static str)
    ensures
        ack@ == "ok"@,
        final(state).server_session == old(state).server_session,
        final(state).connections@ == after_ping(old(state).connections@, body.client_id@, now),
        final(state).fabric@ == announced(old(state).fabric@, EventView::Pong),
{
    let _ = state.connections.refresh(body.client_id.as_str(), now);
    let _ = state.fabric.publish(NetworkEvent::Pong);
    "ok"
}

/// "End session": the client's row, if it has one, is removed, and the end
/// is announced either way.
pub fn session_end_handler(state: &mut AppState, body: SessionEndBody) -> (ack: &'static str)
    ensures
        ack@ == "ok"@,
        final(state).server_session == old(state).server_session,
        final(state).connections@ == after_end(old(state).connections@, body.session_id@),
        final(state).fabric@ == announced(
            old(state).fabric@,
            EventView::EndSession { session_id: body.session_id@ },
        ),
{
    let _ = state.connections.remove(body.session_id.as_str());
    let _ = state.fabric.publish(NetworkEvent::EndSession { session_id: body.session_id });
    "ok"
}

/// "Subscribe to events": opens a stream that starts empty and receives
/// every event published from now on. Returns `None`, and changes nothing,
/// once the fabric has handed out every subscriber id.
pub fn sse_handler(state: &mut AppState, query: SseQuery) -> (stream: Option<SseCleanupGuard>)
    ensures
        final(state).server_session == old(state).server_session,
        final(state).connections@ == old(state).connections@,
        match stream {
            Some(guard) => {
                &&& guard.client_id == query.client_id
                &&& guard.subscriber == old(state).fabric@.issued
                &&& !old(state).fabric@.pending.contains_key(guard.subscriber)
                &&& final(state).fabric@ == (FabricView {
                    issued: old(state).fabric@.issued + 1,
                    pending: old(state).fabric@.pending.insert(guard.subscriber, Seq::empty()),
                    ..old(state).fabric@
                })
            },
            None => old(state).fabric@.issued == u64::MAX && final(state).fabric@ == old(
                state,
            ).fabric@,
        },
{
    match state.fabric.subscribe() {
        Some(subscriber) => Some(SseCleanupGuard { subscriber, client_id: query.client_id }),
        None => None,
    }
}

/// The next event of a stream, oldest first; `None` while nothing waits.
pub fn next_event(state: &mut AppState, guard: &SseCleanupGuard) -> (next: Option<NetworkEvent>)
    ensures
        final(state).server_session == old(state).server_session,
        final(state).connections@ == old(state).connections@,
        match next {
            Some(event) => {
                &&& old(state).fabric@.pending.contains_key(guard.subscriber)
                &&& old(state).fabric@.pending[guard.subscriber].len() > 0
                &&& event@ == old(state).fabric@.pending[guard.subscriber][0]
                &&& final(state).fabric@ == (FabricView {
                    pending: old(state).fabric@.pending.insert(
                        guard.subscriber,
                        old(state).fabric@.pending[guard.subscriber].drop_first(),
                    ),
                    ..old(state).fabric@
                })
            },
            None => {
                &&& !(old(state).fabric@.pending.contains_key(guard.subscriber) && old(
                    state,
                ).fabric@.pending[guard.subscriber].len() > 0)
                &&& final(state).fabric@ == old(state).fabric@
            },
        },
{
    state.fabric.poll(guard.subscriber)
}

/// The fabric once the stream of `guard` is gone: its place is released, and
/// where a client was associated with it, that client's end is announced to
/// those who remain.
pub open spec fn after_stream_closed(before: FabricView, subscriber: u64, client: Option<Seq<char>>) -> FabricView {
    let released = FabricView { pending: before.pending.remove(subscriber), ..before };
    match client {
        Some(id) => announced(released, EventView::EndSession { session_id: id }),
        None => released,
    }
}

/// Cleans up after a stream that has ended, for whatever reason: releases
/// its place in the fabric and, where a client was associated with the stream
/// when it was opened, ends that client's session as "end session" does.
/// Without an associated client the registry is left alone.
pub fn stream_closed(state: &mut AppState, guard: SseCleanupGuard)
    ensures
        final(state).server_session == old(state).server_session,
        final(state).connections@ == match guard.client_id {
            Some(id) => after_end(old(state).connections@, id@),
            None => old(state).connections@,
        },
        final(state).fabric@ == after_stream_closed(
            old(state).fabric@,
            guard.subscriber,
            match guard.client_id {
                Some(id) => Some(id@),
                None => None,
            },
        ),
{
    let _ = state.fabric.unsubscribe(guard.subscriber);
    match guard.client_id {
        Some(id) => {
            let _ = state.connections.remove(id.as_str());
            let _ = state.fabric.publish(NetworkEvent::EndSession { session_id: id });
        },
        None => {},
    }
}

} // verus!
