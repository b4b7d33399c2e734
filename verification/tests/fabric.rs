use mudroom::network::event::NetworkEvent;
use mudroom::network::server::fabric::{Fabric, DEFAULT_BACKLOG};

fn start(id: &str) -> NetworkEvent {
    NetworkEvent::StartSession { session_id: id.to_string() }
}

fn drain(fabric: &mut Fabric, id: u64) -> Vec<NetworkEvent> {
    let mut seen = Vec::new();
    while let Some(event) = fabric.poll(id) {
        seen.push(event);
    }
    seen
}

#[test]
fn default_backlog_is_sixty_four() {
    assert_eq!(DEFAULT_BACKLOG, 64);
    let fabric = Fabric::new();
    assert_eq!(fabric.capacity(), 64);
    assert_eq!(fabric.subscriber_count(), 0);
}

#[test]
fn two_subscribers_see_the_same_events_in_the_same_order() {
    let mut fabric = Fabric::new();
    let a = fabric.subscribe().unwrap();
    let b = fabric.subscribe().unwrap();
    assert_ne!(a, b);
    assert_eq!(fabric.publish(start("x")), 2);
    assert_eq!(fabric.publish(NetworkEvent::Pong), 2);
    assert_eq!(fabric.publish(NetworkEvent::EndSession { session_id: "x".to_string() }), 2);
    let expected = vec![
        start("x"),
        NetworkEvent::Pong,
        NetworkEvent::EndSession { session_id: "x".to_string() },
    ];
    assert_eq!(fabric.waiting(a), 3);
    assert_eq!(drain(&mut fabric, a), expected);
    assert_eq!(drain(&mut fabric, b), expected);
    assert_eq!(fabric.poll(a), None);
}

#[test]
fn a_late_subscriber_never_sees_earlier_events() {
    let mut fabric = Fabric::new();
    let early = fabric.subscribe().unwrap();
    fabric.publish(start("e"));
    let late = fabric.subscribe().unwrap();
    assert_eq!(fabric.waiting(late), 0);
    fabric.publish(NetworkEvent::Pong);
    assert_eq!(drain(&mut fabric, early), vec![start("e"), NetworkEvent::Pong]);
    assert_eq!(drain(&mut fabric, late), vec![NetworkEvent::Pong]);
}

#[test]
fn publishing_without_subscribers_reaches_nobody() {
    let mut fabric = Fabric::new();
    assert_eq!(fabric.publish(NetworkEvent::Ping), 0);
    let id = fabric.subscribe().unwrap();
    assert_eq!(fabric.poll(id), None);
}

#[test]
fn a_full_backlog_loses_its_oldest_event() {
    let mut fabric = Fabric::with_capacity(3);
    let slow = fabric.subscribe().unwrap();
    for i in 0..5 {
        fabric.publish(start(&i.to_string()));
    }
    assert_eq!(fabric.waiting(slow), 3);
    assert_eq!(drain(&mut fabric, slow), vec![start("2"), start("3"), start("4")]);
}

#[test]
fn a_backlog_of_one_keeps_the_newest_event() {
    let mut fabric = Fabric::with_capacity(1);
    let id = fabric.subscribe().unwrap();
    fabric.publish(NetworkEvent::Ping);
    fabric.publish(NetworkEvent::Pong);
    assert_eq!(drain(&mut fabric, id), vec![NetworkEvent::Pong]);
}

#[test]
fn default_backlog_holds_sixty_four_events() {
    let mut fabric = Fabric::new();
    let id = fabric.subscribe().unwrap();
    for i in 0..65 {
        fabric.publish(start(&i.to_string()));
    }
    let seen = drain(&mut fabric, id);
    assert_eq!(seen.len(), 64);
    assert_eq!(seen[0], start("1"));
    assert_eq!(seen[63], start("64"));
}

#[test]
fn unsubscribing_releases_the_place() {
    let mut fabric = Fabric::new();
    let a = fabric.subscribe().unwrap();
    let b = fabric.subscribe().unwrap();
    fabric.publish(NetworkEvent::Ping);
    assert!(fabric.unsubscribe(a));
    assert!(!fabric.unsubscribe(a));
    assert!(!fabric.is_subscribed(a));
    assert!(fabric.is_subscribed(b));
    assert_eq!(fabric.subscriber_count(), 1);
    assert_eq!(fabric.poll(a), None);
    assert_eq!(fabric.publish(NetworkEvent::Pong), 1);
    assert_eq!(drain(&mut fabric, b), vec![NetworkEvent::Ping, NetworkEvent::Pong]);
    let c = fabric.subscribe().unwrap();
    assert_ne!(c, a);
    assert_ne!(c, b);
}

#[test]
fn publish_all_publishes_in_order() {
    let mut fabric = Fabric::with_capacity(2);
    let id = fabric.subscribe().unwrap();
    fabric.publish_all(vec![start("1"), start("2"), start("3")]);
    assert_eq!(drain(&mut fabric, id), vec![start("2"), start("3")]);
    fabric.publish_all(Vec::new());
    assert_eq!(fabric.waiting(id), 0);
}

#[test]
fn polling_interleaves_with_publishing() {
    let mut fabric = Fabric::with_capacity(2);
    let id = fabric.subscribe().unwrap();
    fabric.publish(start("1"));
    fabric.publish(start("2"));
    assert_eq!(fabric.poll(id), Some(start("1")));
    fabric.publish(start("3"));
    assert_eq!(drain(&mut fabric, id), vec![start("2"), start("3")]);
}
