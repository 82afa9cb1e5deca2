use axact::data::{MemoryData, WsData, WsDataIn};
use axact::hub::BroadcastHub;
use axact::inbox::InboxQueue;
use axact::producer::producer_tick;
use axact::registry::SessionRegistry;
use axact::session::{reader_step, writer_step, ReaderOutcome};

fn sys_sample(datetime: &str) -> WsData {
    WsData::new(
        "host".to_string(),
        datetime.to_string(),
        0,
        vec![(0, 4200)],
        MemoryData::new(2048, 1024, 1100, 948),
        None,
    )
}

fn frame(id: u32, name: &str, to_id: u32, body: Option<&str>) -> WsDataIn {
    WsDataIn {
        id,
        name: name.to_string(),
        to_id,
        message: body.map(|b| b.to_string()),
    }
}

#[test]
fn mismatched_id_mutates_nothing() {
    let mut reg = SessionRegistry::new();
    let mut inbox = InboxQueue::new();
    let a = reg.register();
    let b = reg.register();

    // Client B claims A's id: the frame is discarded whole.
    let outcome = reader_step(&mut reg, &mut inbox, b, frame(a, "Mallory", 0, Some("hi")));
    assert_eq!(outcome, ReaderOutcome::Rejected);
    assert_eq!(reg.lookup_name(a), Some("Unknown-1".to_string()));
    assert_eq!(reg.lookup_name(b), Some("Unknown-2".to_string()));
    assert!(inbox.is_empty());
}

#[test]
fn accepted_frame_renames_and_queues() {
    let mut reg = SessionRegistry::new();
    let mut inbox = InboxQueue::new();
    let a = reg.register();

    let outcome = reader_step(&mut reg, &mut inbox, a, frame(a, "Alice", 2, Some("hi")));
    assert_eq!(
        outcome,
        ReaderOutcome::Accepted { name_changed: true, queued: true }
    );
    assert_eq!(reg.lookup_name(a), Some("Alice".to_string()));
    let queued = inbox.pop_back().unwrap();
    assert_eq!(queued.id, a);
    assert_eq!(queued.name, "Alice");
    assert_eq!(queued.to_id, 2);
    assert_eq!(queued.message, "hi");
}

#[test]
fn rename_without_message_queues_nothing() {
    let mut reg = SessionRegistry::new();
    let mut inbox = InboxQueue::new();
    let a = reg.register();

    let outcome = reader_step(&mut reg, &mut inbox, a, frame(a, "Alice", 0, None));
    assert_eq!(
        outcome,
        ReaderOutcome::Accepted { name_changed: true, queued: false }
    );
    assert!(inbox.is_empty());

    let again = reader_step(&mut reg, &mut inbox, a, frame(a, "Alice", 0, None));
    assert_eq!(
        again,
        ReaderOutcome::Accepted { name_changed: false, queued: false }
    );
}

#[test]
fn directed_message_visibility() {
    let mut reg = SessionRegistry::new();
    let mut inbox = InboxQueue::new();
    let a = reg.register();
    let b = reg.register();
    let c = reg.register();

    // A sends a message addressed to B.
    reader_step(&mut reg, &mut inbox, a, frame(a, "Alice", b, Some("psst")));
    let (snap, _) = producer_tick(&reg, &mut inbox, sys_sample("t1"));

    // The addressee sees it.
    let to_b = writer_step(&reg, b, &snap).unwrap();
    assert_eq!(to_b.message.as_ref().unwrap().message, "psst");
    assert_eq!(to_b.ws_id, b);
    // The sender sees its own message echoed back.
    let to_a = writer_step(&reg, a, &snap).unwrap();
    assert_eq!(to_a.message.as_ref().unwrap().message, "psst");
    // An unrelated third session sees nothing.
    let to_c = writer_step(&reg, c, &snap).unwrap();
    assert!(to_c.message.is_none());
}

#[test]
fn broadcast_message_reaches_everyone() {
    let mut reg = SessionRegistry::new();
    let mut inbox = InboxQueue::new();
    let a = reg.register();
    let b = reg.register();

    reader_step(&mut reg, &mut inbox, a, frame(a, "Alice", 0, Some("hello all")));
    let (snap, _) = producer_tick(&reg, &mut inbox, sys_sample("t1"));

    assert_eq!(
        writer_step(&reg, a, &snap).unwrap().message.unwrap().message,
        "hello all"
    );
    assert_eq!(
        writer_step(&reg, b, &snap).unwrap().message.unwrap().message,
        "hello all"
    );
}

#[test]
fn writer_terminates_when_unregistered() {
    let mut reg = SessionRegistry::new();
    let mut inbox = InboxQueue::new();
    let a = reg.register();
    let (snap, _) = producer_tick(&reg, &mut inbox, sys_sample("t1"));

    assert!(writer_step(&reg, a, &snap).is_some());
    reg.unregister(a);
    assert!(writer_step(&reg, a, &snap).is_none());
}

#[test]
fn rename_shows_in_next_snapshot() {
    // Client A connects, gets id 1 and the default name, renames to Alice:
    // the next snapshot delivered to A carries ws_username "Alice".
    let mut reg = SessionRegistry::new();
    let mut inbox = InboxQueue::new();
    let mut hub = BroadcastHub::new();

    let a = reg.register();
    hub.subscribe(a);
    assert_eq!(a, 1);
    assert_eq!(reg.lookup_name(a), Some("Unknown-1".to_string()));

    reader_step(&mut reg, &mut inbox, a, frame(a, "Alice", 0, None));

    let (snap, _) = producer_tick(&reg, &mut inbox, sys_sample("t1"));
    hub.publish(&snap);
    let received = hub.recv(a).unwrap();
    let out = writer_step(&reg, a, &received).unwrap();
    assert_eq!(out.ws_username, "Alice");
    assert_eq!(out.ws_id, 1);
    assert_eq!(out.ws_count, 1);
}

#[test]
fn message_is_not_retained_for_late_recipients() {
    // A (id 1) messages id 2 before any such client exists: the message
    // rides exactly one snapshot — A sees it at once because the sender
    // always does — and is gone by the time B connects.
    let mut reg = SessionRegistry::new();
    let mut inbox = InboxQueue::new();
    let mut hub = BroadcastHub::new();

    let a = reg.register();
    hub.subscribe(a);
    reader_step(&mut reg, &mut inbox, a, frame(a, "Alice", 2, Some("hi")));

    let (snap1, _) = producer_tick(&reg, &mut inbox, sys_sample("t1"));
    hub.publish(&snap1);
    let to_a = writer_step(&reg, a, &hub.recv(a).unwrap()).unwrap();
    assert_eq!(to_a.message.unwrap().message, "hi");

    // B connects only now.
    let b = reg.register();
    hub.subscribe(b);
    assert_eq!(b, 2);

    let (snap2, _) = producer_tick(&reg, &mut inbox, sys_sample("t2"));
    hub.publish(&snap2);
    let to_b = writer_step(&reg, b, &hub.recv(b).unwrap()).unwrap();
    assert!(to_b.message.is_none());
}

#[test]
fn producer_keeps_producing_without_sessions() {
    // The last client disconnects: the registry reports empty and the
    // producer switches to its longer idle pause, but still produces.
    let mut reg = SessionRegistry::new();
    let mut inbox = InboxQueue::new();

    let a = reg.register();
    let (_, idle_busy) = producer_tick(&reg, &mut inbox, sys_sample("t1"));
    assert!(!idle_busy);

    reg.unregister(a);
    assert!(reg.is_empty());

    let (snap, idle) = producer_tick(&reg, &mut inbox, sys_sample("t2"));
    assert!(idle);
    assert_eq!(snap.ws_count, 0);
    assert_eq!(snap.datetime, "t2");
    assert_eq!(snap.hostname, "host");
}

#[test]
fn producer_drains_one_message_per_tick() {
    let mut reg = SessionRegistry::new();
    let mut inbox = InboxQueue::new();
    let a = reg.register();

    reader_step(&mut reg, &mut inbox, a, frame(a, "Alice", 0, Some("one")));
    reader_step(&mut reg, &mut inbox, a, frame(a, "Alice", 0, Some("two")));

    let (s1, _) = producer_tick(&reg, &mut inbox, sys_sample("t1"));
    assert_eq!(s1.message.unwrap().message, "one");
    let (s2, _) = producer_tick(&reg, &mut inbox, sys_sample("t2"));
    assert_eq!(s2.message.unwrap().message, "two");
    let (s3, _) = producer_tick(&reg, &mut inbox, sys_sample("t3"));
    assert!(s3.message.is_none());
}
