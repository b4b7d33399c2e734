use mudroom::network::event::NetworkEvent;
use mudroom::network::server::handlers::{
    next_event, ping_handler, server_info_handler, session_end_handler, session_start_handler,
    sse_handler, start_session, stream_closed,
};
use mudroom::network::server::ping_reaper::{reap_stale, REAP_INTERVAL, REAP_TIMEOUT};
use mudroom::network::server::state::{
    AppState, PingBody, SessionEndBody, SessionStartBody, SseCleanupGuard, SseQuery,
};
use mudroom::session::ServerSession;

fn gateway() -> AppState {
    AppState::new(ServerSession { id: "server-1".to_string(), name: Some("north-keep".to_string()) })
}

fn listen(state: &mut AppState) -> SseCleanupGuard {
    sse_handler(state, SseQuery { client_id: None }).unwrap()
}

fn drain(state: &mut AppState, guard: &SseCleanupGuard) -> Vec<NetworkEvent> {
    let mut seen = Vec::new();
    while let Some(event) = next_event(state, guard) {
        seen.push(event);
    }
    seen
}

fn start(id: &str) -> NetworkEvent {
    NetworkEvent::StartSession { session_id: id.to_string() }
}

fn end(id: &str) -> NetworkEvent {
    NetworkEvent::EndSession { session_id: id.to_string() }
}

#[test]
fn server_info_carries_the_server_id() {
    let state = gateway();
    assert_eq!(server_info_handler(&state).server_id, "server-1");
}

#[test]
fn reaper_defaults_are_thirty_and_ten() {
    assert_eq!(REAP_TIMEOUT, 30);
    assert_eq!(REAP_INTERVAL, 10);
    assert_eq!(REAP_TIMEOUT, 3 * REAP_INTERVAL);
}

#[test]
fn start_with_a_known_id_returns_exactly_that_id() {
    let mut state = gateway();
    let listener = listen(&mut state);
    let reply = session_start_handler(
        &mut state,
        SessionStartBody { client_id: Some("known-id".to_string()) },
        7,
    );
    assert_eq!(reply.client_id, "known-id");
    assert_eq!(reply.server_id, "server-1");
    assert_eq!(state.connections.last_seen("known-id"), Some(7));
    assert_eq!(drain(&mut state, &listener), vec![start("known-id")]);
}

#[test]
fn start_without_an_id_issues_a_new_one() {
    let mut state = gateway();
    let listener = listen(&mut state);
    let first = session_start_handler(&mut state, SessionStartBody { client_id: None }, 1);
    let second = session_start_handler(&mut state, SessionStartBody { client_id: None }, 2);
    assert_eq!(first.client_id.len(), 36);
    assert_eq!(first.client_id.matches('-').count(), 4);
    assert_ne!(first.client_id, second.client_id);
    assert_eq!(first.server_id, "server-1");
    assert!(state.connections.contains(&first.client_id));
    assert!(state.connections.contains(&second.client_id));
    assert_eq!(state.connections.len(), 2);
    assert_eq!(
        drain(&mut state, &listener),
        vec![start(&first.client_id), start(&second.client_id)]
    );
}

#[test]
fn starting_twice_keeps_one_row() {
    let mut state = gateway();
    start_session(&mut state, "a".to_string(), 1);
    let reply = start_session(&mut state, "a".to_string(), 5);
    assert_eq!(reply.client_id, "a");
    assert_eq!(state.connections.len(), 1);
    assert_eq!(state.connections.last_seen("a"), Some(5));
}

#[test]
fn start_ping_end_registers_and_unregisters() {
    let mut state = gateway();
    let listener = listen(&mut state);
    start_session(&mut state, "a".to_string(), 1);
    assert!(state.connections.contains("a"));
    assert_eq!(ping_handler(&mut state, PingBody { client_id: "a".to_string() }, 4), "ok");
    assert!(state.connections.contains("a"));
    assert_eq!(state.connections.last_seen("a"), Some(4));
    assert_eq!(
        session_end_handler(&mut state, SessionEndBody { session_id: "a".to_string() }),
        "ok"
    );
    assert!(!state.connections.contains("a"));
    assert_eq!(drain(&mut state, &listener), vec![start("a"), NetworkEvent::Pong, end("a")]);
}

#[test]
fn ping_for_an_unknown_client_is_accepted_and_still_pongs() {
    let mut state = gateway();
    let first = listen(&mut state);
    let second = listen(&mut state);
    assert_eq!(ping_handler(&mut state, PingBody { client_id: "ghost".to_string() }, 4), "ok");
    assert_eq!(ping_handler(&mut state, PingBody { client_id: "ghost".to_string() }, 5), "ok");
    assert!(!state.connections.contains("ghost"));
    assert_eq!(state.connections.len(), 0);
    assert_eq!(drain(&mut state, &first), vec![NetworkEvent::Pong, NetworkEvent::Pong]);
    assert_eq!(drain(&mut state, &second), vec![NetworkEvent::Pong, NetworkEvent::Pong]);
}

#[test]
fn end_of_an_unknown_session_is_still_announced() {
    let mut state = gateway();
    let listener = listen(&mut state);
    assert_eq!(
        session_end_handler(&mut state, SessionEndBody { session_id: "ghost".to_string() }),
        "ok"
    );
    assert_eq!(drain(&mut state, &listener), vec![end("ghost")]);
}

#[test]
fn reaper_evicts_after_more_than_thirty_units_of_silence() {
    let mut state = gateway();
    let first = listen(&mut state);
    let second = listen(&mut state);
    start_session(&mut state, "silent".to_string(), 0);
    start_session(&mut state, "lively".to_string(), 0);
    ping_handler(&mut state, PingBody { client_id: "lively".to_string() }, 20);
    assert!(reap_stale(&mut state, 30).is_empty());
    assert!(state.connections.contains("silent"));
    assert_eq!(reap_stale(&mut state, 31), vec!["silent".to_string()]);
    assert!(!state.connections.contains("silent"));
    assert!(state.connections.contains("lively"));
    assert!(reap_stale(&mut state, 31).is_empty());
    let expected = vec![start("silent"), start("lively"), NetworkEvent::Pong, end("silent")];
    assert_eq!(drain(&mut state, &first), expected);
    assert_eq!(drain(&mut state, &second), expected);
}

#[test]
fn reaper_announces_each_evicted_client_once() {
    let mut state = gateway();
    start_session(&mut state, "a".to_string(), 0);
    start_session(&mut state, "b".to_string(), 1);
    start_session(&mut state, "c".to_string(), 50);
    let listener = listen(&mut state);
    let mut evicted = reap_stale(&mut state, 60);
    let heard = drain(&mut state, &listener);
    assert_eq!(heard.len(), 2);
    assert_eq!(heard.iter().filter(|e| **e == end("a")).count(), 1);
    assert_eq!(heard.iter().filter(|e| **e == end("b")).count(), 1);
    let announced: Vec<NetworkEvent> = evicted.iter().map(|id| end(id)).collect();
    assert_eq!(heard, announced);
    evicted.sort();
    assert_eq!(evicted, vec!["a".to_string(), "b".to_string()]);
    assert_eq!(state.connections.len(), 1);
}

#[test]
fn a_stream_sees_only_what_follows_its_opening() {
    let mut state = gateway();
    start_session(&mut state, "early".to_string(), 0);
    let listener = listen(&mut state);
    assert_eq!(next_event(&mut state, &listener), None);
    start_session(&mut state, "late".to_string(), 1);
    assert_eq!(drain(&mut state, &listener), vec![start("late")]);
}

#[test]
fn closing_a_stream_ends_the_session_of_its_client() {
    let mut state = gateway();
    let watcher = listen(&mut state);
    start_session(&mut state, "a".to_string(), 0);
    let stream = sse_handler(&mut state, SseQuery { client_id: Some("a".to_string()) }).unwrap();
    assert_eq!(stream.client_id.as_deref(), Some("a"));
    assert_ne!(stream.subscriber, watcher.subscriber);
    assert_eq!(state.fabric.subscriber_count(), 2);
    let gone = stream.subscriber;
    stream_closed(&mut state, stream);
    assert!(!state.connections.contains("a"));
    assert!(!state.fabric.is_subscribed(gone));
    assert_eq!(state.fabric.subscriber_count(), 1);
    assert_eq!(drain(&mut state, &watcher), vec![start("a"), end("a")]);
}

#[test]
fn closing_a_stream_without_a_client_skips_the_cleanup() {
    let mut state = gateway();
    let watcher = listen(&mut state);
    start_session(&mut state, "a".to_string(), 0);
    let stream = listen(&mut state);
    stream_closed(&mut state, stream);
    assert!(state.connections.contains("a"));
    assert_eq!(state.fabric.subscriber_count(), 1);
    assert_eq!(drain(&mut state, &watcher), vec![start("a")]);
}

#[test]
fn a_new_gateway_is_empty() {
    let state = gateway();
    assert_eq!(state.connections.len(), 0);
    assert_eq!(state.fabric.subscriber_count(), 0);
    assert_eq!(state.fabric.capacity(), 64);
    assert_eq!(state.server_session.name.as_deref(), Some("north-keep"));
}
