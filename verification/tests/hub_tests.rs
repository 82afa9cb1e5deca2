use axact::data::{MemoryData, WsData};
use axact::hub::BroadcastHub;

fn snap(datetime: &str) -> WsData {
    WsData::new(
        "host".to_string(),
        datetime.to_string(),
        0,
        vec![(0, 1250), (1, 3075)],
        MemoryData::new(1024, 512, 600, 424),
        None,
    )
}

#[test]
fn subscriber_receives_what_was_published() {
    let mut hub = BroadcastHub::new();
    hub.subscribe(1);
    hub.publish(&snap("t1"));
    let got = hub.recv(1).expect("a snapshot should be pending");
    assert_eq!(got.datetime, "t1");
    assert_eq!(got.hostname, "host");
    assert_eq!(got.cpu_data, vec![(0, 1250), (1, 3075)]);
}

#[test]
fn latest_wins_when_slot_is_full() {
    let mut hub = BroadcastHub::new();
    hub.subscribe(1);
    // Two publishes before the subscriber drains: the first is overwritten,
    // never queued behind, and the publisher never waits.
    hub.publish(&snap("t1"));
    hub.publish(&snap("t2"));
    let got = hub.recv(1).expect("a snapshot should be pending");
    assert_eq!(got.datetime, "t2");
    // Nothing else waits: the intermediate snapshot is gone.
    assert!(hub.recv(1).is_none());
}

#[test]
fn no_replay_for_late_subscribers() {
    let mut hub = BroadcastHub::new();
    hub.subscribe(1);
    hub.publish(&snap("t1"));
    // A session subscribing after a publish does not see history.
    hub.subscribe(2);
    assert!(hub.recv(2).is_none());
    // The earlier subscriber still has its copy.
    assert_eq!(hub.recv(1).unwrap().datetime, "t1");
}

#[test]
fn every_subscriber_gets_its_own_copy() {
    let mut hub = BroadcastHub::new();
    hub.subscribe(1);
    hub.subscribe(2);
    hub.subscribe(3);
    hub.publish(&snap("t1"));
    assert_eq!(hub.recv(1).unwrap().datetime, "t1");
    assert_eq!(hub.recv(2).unwrap().datetime, "t1");
    assert_eq!(hub.recv(3).unwrap().datetime, "t1");
}

#[test]
fn unsubscribed_sessions_receive_nothing() {
    let mut hub = BroadcastHub::new();
    assert!(!hub.is_subscribed(1));
    hub.subscribe(1);
    assert!(hub.is_subscribed(1));
    hub.unsubscribe(1);
    assert!(!hub.is_subscribed(1));
    hub.publish(&snap("t1"));
    assert!(hub.recv(1).is_none());
    // Unsubscribing twice is harmless.
    hub.unsubscribe(1);
}
