use mudroom::network::discovery::client::Prober;
use mudroom::network::discovery::server::DiscoveryServer;
use mudroom::network::discovery::probe;
use mudroom::network::event::NetworkEvent;
use mudroom::network::server::handlers::{
    next_event, ping_handler, server_info_handler, session_start_handler, sse_handler,
};
use mudroom::network::server::ping_reaper::reap_stale;
use mudroom::network::server::state::{AppState, PingBody, SessionStartBody, SseQuery};
use mudroom::session::client_session::resume_id;
use mudroom::session::{ClientSession, ServerSession};

#[test]
fn a_client_finds_joins_and_is_reaped() {
    let (identity, created) =
        ServerSession::load_or_create(Some("north-keep".to_string()), None).unwrap();
    assert!(created);
    let server_id = identity.id.clone();
    let responder = DiscoveryServer::new(8080, identity.name.clone());
    let mut state = AppState::new(identity);

    let mut prober = Prober::new();
    let answer = responder.respond(&probe(), "192.168.1.7").unwrap();
    assert!(prober.on_datagram(answer.as_bytes()));
    let servers = prober.finish();
    assert_eq!(servers.len(), 1);
    assert_eq!(servers[0].name.as_deref(), Some("north-keep"));
    assert_eq!(servers[0].url(), "http://192.168.1.7:8080");

    assert_eq!(server_info_handler(&state).server_id, server_id);
    let stream = sse_handler(&mut state, SseQuery { client_id: None }).unwrap();
    let presented = resume_id(ClientSession::load(None));
    assert_eq!(presented, None);
    let reply = session_start_handler(&mut state, SessionStartBody { client_id: presented }, 0);
    let x = reply.client_id.clone();
    assert_eq!(reply.server_id, server_id);
    assert_eq!(
        next_event(&mut state, &stream),
        Some(NetworkEvent::StartSession { session_id: x.clone() })
    );

    let mut now = 0;
    for _ in 0..3 {
        now += 10;
        assert_eq!(ping_handler(&mut state, PingBody { client_id: x.clone() }, now), "ok");
        assert!(reap_stale(&mut state, now).is_empty());
        assert_eq!(next_event(&mut state, &stream), Some(NetworkEvent::Pong));
    }
    assert!(reap_stale(&mut state, now + 30).is_empty());
    assert!(state.connections.contains(&x));
    assert_eq!(next_event(&mut state, &stream), None);

    assert_eq!(reap_stale(&mut state, now + 31), vec![x.clone()]);
    assert_eq!(
        next_event(&mut state, &stream),
        Some(NetworkEvent::EndSession { session_id: x.clone() })
    );
    assert_eq!(next_event(&mut state, &stream), None);
    assert!(!state.connections.contains(&x));
}

#[test]
fn a_returning_client_keeps_its_id() {
    let mut state = AppState::new(ServerSession { id: "s1".to_string(), name: None });
    let first = session_start_handler(&mut state, SessionStartBody { client_id: None }, 0);
    let saved = ClientSession::issued(first.client_id.clone()).to_json();
    let presented = resume_id(ClientSession::load(Some(&saved)));
    assert_eq!(presented.as_deref(), Some(first.client_id.as_str()));
    let second = session_start_handler(&mut state, SessionStartBody { client_id: presented }, 9);
    assert_eq!(second.client_id, first.client_id);
    assert_eq!(second.server_id, "s1");
    assert_eq!(state.connections.len(), 1);
    assert_eq!(state.connections.last_seen(&first.client_id), Some(9));
}
