use mudroom::json::{decimal, JsonField};
use mudroom::network::discovery::client::{parse_response, server_from_fields, Prober};
use mudroom::network::discovery::server::DiscoveryServer;
use mudroom::network::discovery::{is_probe, probe, DiscoveredServer, BROADCAST_ADDR, DISCOVERY_PORT};

#[test]
fn the_probe_is_the_four_magic_bytes() {
    assert_eq!(probe(), b"mdrm".to_vec());
    assert!(is_probe(&probe()));
    assert_eq!(DISCOVERY_PORT, 7878);
    assert_eq!(BROADCAST_ADDR, "255.255.255.255");
}

#[test]
fn probes_are_told_by_their_prefix() {
    assert!(is_probe(b"mdrm"));
    assert!(is_probe(b"mdrm and more"));
    assert!(!is_probe(b""));
    assert!(!is_probe(b"mdr"));
    assert!(!is_probe(b"mdrx"));
    assert!(!is_probe(b"xdrm"));
    assert!(!is_probe(b"MDRM"));
    assert!(!is_probe(b" mdrm"));
}

#[test]
fn responder_answers_probes_with_port_and_name() {
    let server = DiscoveryServer::new(8080, Some("north-keep".to_string()));
    let response = server.respond(b"mdrm", "192.168.1.7");
    assert_eq!(
        response.as_deref(),
        Some(r#"{"host":"192.168.1.7","name":"north-keep","port":8080}"#)
    );
    let nameless = DiscoveryServer::new(65535, None);
    assert_eq!(
        nameless.respond(b"mdrm", "10.0.0.1").as_deref(),
        Some(r#"{"host":"10.0.0.1","port":65535}"#)
    );
}

#[test]
fn responder_ignores_what_is_no_probe() {
    let server = DiscoveryServer::new(8080, Some("north-keep".to_string()));
    assert_eq!(server.respond(b"hello", "192.168.1.7"), None);
    assert_eq!(server.respond(b"", "192.168.1.7"), None);
    assert_eq!(server.respond(b"mdr", "192.168.1.7"), None);
}

#[test]
fn responses_round_trip() {
    let server = DiscoveryServer::new(4321, Some("a \"quoted\" name".to_string()));
    let response = server.respond(b"mdrm", "fe80::1").unwrap();
    let found = parse_response(response.as_bytes()).unwrap();
    assert_eq!(found.host, "fe80::1");
    assert_eq!(found.port, 4321);
    assert_eq!(found.name.as_deref(), Some("a \"quoted\" name"));
    let nameless = DiscoveryServer::new(0, None).respond(b"mdrm", "h").unwrap();
    let found = parse_response(nameless.as_bytes()).unwrap();
    assert_eq!((found.host.as_str(), found.port, found.name), ("h", 0, None));
}

#[test]
fn well_formed_responses_are_read() {
    let found = parse_response(br#"{"host":"10.0.0.2","port":8080,"name":"north-keep"}"#).unwrap();
    assert_eq!(found.host, "10.0.0.2");
    assert_eq!(found.port, 8080);
    assert_eq!(found.name.as_deref(), Some("north-keep"));
    let found = parse_response(br#"{"port":65535,"host":"h","name":null,"more":true}"#).unwrap();
    assert_eq!((found.host.as_str(), found.port, found.name), ("h", 65535, None));
}

#[test]
fn malformed_responses_are_noise() {
    assert!(parse_response(b"").is_none());
    assert!(parse_response(b"mdrm").is_none());
    assert!(parse_response(&[0xff, 0xfe, 0x7b, 0x7d]).is_none());
    assert!(parse_response(br#"{"host":"h","port":8080"#).is_none());
    assert!(parse_response(br#"{"port":8080}"#).is_none());
    assert!(parse_response(br#"{"host":"h"}"#).is_none());
    assert!(parse_response(br#"{"host":7,"port":8080}"#).is_none());
    assert!(parse_response(br#"{"host":"h","port":"8080"}"#).is_none());
    assert!(parse_response(br#"{"host":"h","port":65536}"#).is_none());
    assert!(parse_response(br#"{"host":"h","port":-1}"#).is_none());
    assert!(parse_response(br#"{"host":"h","port":80.5}"#).is_none());
    assert!(parse_response(br#"{"host":"h","port":80,"name":5}"#).is_none());
    assert!(parse_response(br#"["h",80]"#).is_none());
    assert!(parse_response(br#""h""#).is_none());
}

#[test]
fn servers_from_fields() {
    let found = server_from_fields(
        JsonField::Text("h".to_string()),
        JsonField::Unsigned(80),
        JsonField::Missing,
    )
    .unwrap();
    assert_eq!((found.host.as_str(), found.port, found.name), ("h", 80, None));
    assert!(server_from_fields(
        JsonField::Text("h".to_string()),
        JsonField::Unsigned(65536),
        JsonField::Missing
    )
    .is_none());
    assert!(server_from_fields(JsonField::Null, JsonField::Unsigned(80), JsonField::Missing).is_none());
    assert!(server_from_fields(
        JsonField::Text("h".to_string()),
        JsonField::Other,
        JsonField::Missing
    )
    .is_none());
    assert!(server_from_fields(
        JsonField::Text("h".to_string()),
        JsonField::Unsigned(80),
        JsonField::Other
    )
    .is_none());
}

#[test]
fn prober_without_answers_finds_nothing() {
    let prober = Prober::new();
    assert!(prober.finish().is_empty());
}

#[test]
fn prober_keeps_every_answer_in_order_and_drops_noise() {
    let mut prober = Prober::new();
    assert!(prober.on_datagram(br#"{"host":"a","port":1}"#));
    assert!(!prober.on_datagram(b"noise"));
    assert!(prober.on_datagram(br#"{"host":"b","port":2,"name":"bee"}"#));
    assert!(prober.on_datagram(br#"{"host":"a","port":1}"#));
    let servers = prober.finish();
    assert_eq!(servers.len(), 3);
    assert_eq!(servers[0].host, "a");
    assert_eq!(servers[1].host, "b");
    assert_eq!(servers[1].name.as_deref(), Some("bee"));
    assert_eq!(servers[2].host, "a");
}

#[test]
fn url_is_http_host_colon_port() {
    let server = DiscoveredServer { host: "10.0.0.2".to_string(), port: 8080, name: None };
    assert_eq!(server.url(), "http://10.0.0.2:8080");
    let low = DiscoveredServer { host: "h".to_string(), port: 0, name: None };
    assert_eq!(low.url(), "http://h:0");
    let high = DiscoveredServer { host: "h".to_string(), port: 65535, name: None };
    assert_eq!(high.url(), "http://h:65535");
}

#[test]
fn decimal_numerals() {
    assert_eq!(decimal(0), "0");
    assert_eq!(decimal(9), "9");
    assert_eq!(decimal(10), "10");
    assert_eq!(decimal(7878), "7878");
    assert_eq!(decimal(1234567890), "1234567890");
    assert_eq!(decimal(u64::MAX), "18446744073709551615");
}
