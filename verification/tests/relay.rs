//! End-to-end exercises of the relay core: the concrete handshake scenario,
//! the scanner, the caches, the interception policy, and the registry.

use sphincter::registry::Registry;
use sphincter::room::{frame_for, Frame, Room, SubscriberAction, DEFAULT_CAPACITY};
use sphincter::room_id::{generate_room_id, welcome_message, ROOM_ID_LEN};
use sphincter::scan::{parse_text_op, scan_json_chunk};

fn bytes(s: &str) -> Vec<u8> {
    s.as_bytes().to_vec()
}

#[test]
fn scenario_full_handshake() {
    let mut registry = Registry::new();
    let id = String::from("AB12CD");

    // Producer connects: a room is registered and the producer is told its
    // room identifier.
    let room = Room::new();
    registry.insert(id.clone(), room);
    let welcome = welcome_message(&id);
    assert_eq!(welcome, "{\"internal\":\"welcome\",\"room\":\"AB12CD\"}");

    // Producer sends its Hello.
    let mut room = registry.remove(&id).expect("room was registered");
    room.process_producer_chunk(bytes("{\"op\":0,\"d\":{}}"));

    // Subscriber joins and immediately gets the Hello, before any fan-out.
    let (replay, mut cursor) = room.join();
    assert_eq!(replay, Some(bytes("{\"op\":0,\"d\":{}}")));

    // Producer answers the first Identify with Identified; the subscriber
    // also sees the raw chunk through the fan-out.
    room.process_producer_chunk(bytes("{\"op\":2,\"d\":{}}"));
    match room.fanout.recv(&mut cursor) {
        sphincter::fanout::RecvOutcome::Msg(m) => assert_eq!(m, bytes("{\"op\":2,\"d\":{}}")),
        other => panic!("expected a message, got {:?}", other),
    }

    // A later Identify is answered from the cache and the producer receives
    // nothing further.
    match room.client_text_action(String::from("{\"op\":1}")) {
        SubscriberAction::ReplyCached(m) => assert_eq!(m, bytes("{\"op\":2,\"d\":{}}")),
        other => panic!("expected the cached Identified, got {:?}", other),
    }
    assert_eq!(room.inbound.dequeue(), None);

    registry.insert(id.clone(), room);
    assert!(registry.contains(&id));
}

#[test]
fn hello_replay_missing_without_hello() {
    let room = Room::new();
    let (replay, _cursor) = room.join();
    assert_eq!(replay, None);
}

#[test]
fn hello_replay_last_write_wins() {
    let mut room = Room::new();
    room.process_producer_chunk(bytes("{\"op\":0,\"v\":1}"));
    room.process_producer_chunk(bytes("{\"op\":0,\"v\":2}"));
    let (replay, _cursor) = room.join();
    assert_eq!(replay, Some(bytes("{\"op\":0,\"v\":2}")));
}

#[test]
fn scanner_splits_concatenated_objects() {
    let chunk = bytes("{\"op\":0}{\"op\":5} {\"op\":2,\"d\":{}}");
    let packets = scan_json_chunk(&chunk);
    assert_eq!(packets.len(), 3);
    assert_eq!(packets[0].0, Some(0));
    assert_eq!(packets[0].1, bytes("{\"op\":0}"));
    assert_eq!(packets[1].0, Some(5));
    assert_eq!(packets[1].1, bytes("{\"op\":5}"));
    assert_eq!(packets[2].0, Some(2));
    assert_eq!(packets[2].1, bytes(" {\"op\":2,\"d\":{}}"));
}

#[test]
fn scanner_skips_malformed_and_opless_input() {
    assert_eq!(scan_json_chunk(&bytes("this is not json")).len(), 0);
    let packets = scan_json_chunk(&bytes("{\"data\":3}"));
    assert_eq!(packets.len(), 1);
    assert_eq!(packets[0].0, None);
    let packets = scan_json_chunk(&bytes("[1,2,3]"));
    assert_eq!(packets.len(), 1);
    assert_eq!(packets[0].0, None);
}

#[test]
fn malformed_chunk_still_fans_out() {
    let mut room = Room::new();
    let (_, mut cursor) = room.join();
    room.process_producer_chunk(bytes("garbage \x01\x02"));
    let (replay, _) = room.join();
    assert_eq!(replay, None);
    match room.fanout.recv(&mut cursor) {
        sphincter::fanout::RecvOutcome::Msg(m) => assert_eq!(m, bytes("garbage \x01\x02")),
        other => panic!("expected the raw chunk, got {:?}", other),
    }
}

#[test]
fn cache_update_whitespace_trimmed_and_other_ops_ignored() {
    let mut room = Room::new();
    room.process_producer_chunk(bytes("{\"op\":0}  {\"op\":2}"));
    let (replay, _) = room.join();
    assert_eq!(replay, Some(bytes("{\"op\":0}")));
    match room.client_text_action(String::from("{\"op\":1}")) {
        SubscriberAction::ReplyCached(m) => assert_eq!(m, bytes("{\"op\":2}")),
        other => panic!("expected the cached Identified, got {:?}", other),
    }
    let mut other = Room::new();
    other.process_producer_chunk(bytes("{\"op\":7}{\"op\":1}"));
    let (replay, _) = other.join();
    assert_eq!(replay, None);
}

#[test]
fn first_identify_passes_through() {
    let mut room = Room::new();
    match room.client_text_action(String::from("{\"op\":1,\"d\":{\"x\":1}}")) {
        SubscriberAction::Forward(b) => {
            assert_eq!(b, bytes("{\"op\":1,\"d\":{\"x\":1}}"));
            assert!(matches!(room.inbound.try_enqueue(b),
                sphincter::inbound::EnqueueOutcome::Accepted));
        }
        other => panic!("expected passthrough, got {:?}", other),
    }
    assert_eq!(room.inbound.dequeue(), Some(bytes("{\"op\":1,\"d\":{\"x\":1}}")));
}

#[test]
fn identify_dedup_across_many_subscribers() {
    let mut room = Room::new();
    // The first Identify reaches the producer, which answers Identified.
    match room.client_text_action(String::from("{\"op\":1}")) {
        SubscriberAction::Forward(b) => {
            room.inbound.try_enqueue(b);
        }
        other => panic!("expected passthrough, got {:?}", other),
    }
    assert!(room.inbound.dequeue().is_some());
    room.process_producer_chunk(bytes("{\"op\":2,\"x\":9}"));
    // Every later Identify, from any number of subscribers, is answered from
    // the cache; the producer's queue stays empty.
    let mut n = 0;
    while n < 5 {
        match room.client_text_action(String::from("{\"op\":1}")) {
            SubscriberAction::ReplyCached(m) => assert_eq!(m, bytes("{\"op\":2,\"x\":9}")),
            other => panic!("expected the cached Identified, got {:?}", other),
        }
        n += 1;
    }
    assert_eq!(room.inbound.dequeue(), None);
}

#[test]
fn non_identify_text_and_binary_forwarded() {
    let room = Room::new();
    match room.client_text_action(String::from("{\"op\":6}")) {
        SubscriberAction::Forward(b) => assert_eq!(b, bytes("{\"op\":6}")),
        other => panic!("expected forwarding, got {:?}", other),
    }
    match room.client_text_action(String::from("plain text")) {
        SubscriberAction::Forward(b) => assert_eq!(b, bytes("plain text")),
        other => panic!("expected forwarding, got {:?}", other),
    }
    assert_eq!(room.client_binary_bytes(vec![0, 159, 2]), vec![0, 159, 2]);
}

#[test]
fn parse_text_op_reads_objects_only() {
    assert_eq!(parse_text_op("{\"op\":1}"), Some(1));
    assert_eq!(parse_text_op("{\"op\":2,\"d\":{}}"), Some(2));
    assert_eq!(parse_text_op("{\"op\":\"x\"}"), None);
    assert_eq!(parse_text_op("{\"op\":-1}"), None);
    assert_eq!(parse_text_op("[1]"), None);
    assert_eq!(parse_text_op("nonsense"), None);
}

#[test]
fn fanout_in_order_within_capacity() {
    let mut room = Room::with_capacities(4, 4);
    let (_, mut cursor) = room.join();
    room.fanout.publish(bytes("a"));
    room.fanout.publish(bytes("b"));
    room.fanout.publish(bytes("c"));
    let mut got = Vec::new();
    loop {
        match room.fanout.recv(&mut cursor) {
            sphincter::fanout::RecvOutcome::Msg(m) => got.push(m),
            sphincter::fanout::RecvOutcome::Pending => break,
            other => panic!("unexpected outcome {:?}", other),
        }
    }
    assert_eq!(got, vec![bytes("a"), bytes("b"), bytes("c")]);
}

#[test]
fn fanout_lag_drops_oldest_only() {
    let mut room = Room::with_capacities(2, 2);
    let (_, mut idle) = room.join();
    // The idle subscriber never reads while five messages go past a
    // two-message buffer.
    room.fanout.publish(bytes("m1"));
    room.fanout.publish(bytes("m2"));
    room.fanout.publish(bytes("m3"));
    room.fanout.publish(bytes("m4"));
    room.fanout.publish(bytes("m5"));
    match room.fanout.recv(&mut idle) {
        sphincter::fanout::RecvOutcome::Lagged => {}
        other => panic!("expected a lag report, got {:?}", other),
    }
    // After the gap it resumes at the oldest retained message.
    match room.fanout.recv(&mut idle) {
        sphincter::fanout::RecvOutcome::Msg(m) => assert_eq!(m, bytes("m4")),
        other => panic!("expected a message, got {:?}", other),
    }
    match room.fanout.recv(&mut idle) {
        sphincter::fanout::RecvOutcome::Msg(m) => assert_eq!(m, bytes("m5")),
        other => panic!("expected a message, got {:?}", other),
    }
    assert!(matches!(room.fanout.recv(&mut idle), sphincter::fanout::RecvOutcome::Pending));
}

#[test]
fn subscription_starts_at_now() {
    let mut room = Room::new();
    room.process_producer_chunk(bytes("before the join"));
    let (_, mut cursor) = room.join();
    assert!(matches!(room.fanout.recv(&mut cursor), sphincter::fanout::RecvOutcome::Pending));
    room.process_producer_chunk(bytes("after the join"));
    match room.fanout.recv(&mut cursor) {
        sphincter::fanout::RecvOutcome::Msg(m) => assert_eq!(m, bytes("after the join")),
        other => panic!("expected only traffic published after the join, got {:?}", other),
    }
}

#[test]
fn room_isolation_between_rooms() {
    let mut room_a = Room::new();
    let mut room_b = Room::new();
    let (_, mut cursor_b) = room_b.join();
    room_a.process_producer_chunk(bytes("only for room a"));
    assert!(matches!(room_b.fanout.recv(&mut cursor_b), sphincter::fanout::RecvOutcome::Pending));
    room_b.process_producer_chunk(bytes("for room b"));
    match room_b.fanout.recv(&mut cursor_b) {
        sphincter::fanout::RecvOutcome::Msg(m) => assert_eq!(m, bytes("for room b")),
        other => panic!("expected room b's own message, got {:?}", other),
    }
}

#[test]
fn backpressure_blocks_then_frees_one_slot() {
    let mut room = Room::with_capacities(2, 2);
    assert!(matches!(room.inbound.try_enqueue(bytes("x1")),
        sphincter::inbound::EnqueueOutcome::Accepted));
    assert!(matches!(room.inbound.try_enqueue(bytes("x2")),
        sphincter::inbound::EnqueueOutcome::Accepted));
    // Full: the message is handed back untouched, nothing dropped.
    match room.inbound.try_enqueue(bytes("x3")) {
        sphincter::inbound::EnqueueOutcome::Full(back) => assert_eq!(back, bytes("x3")),
        other => panic!("expected the queue to hold the sender back, got {:?}", other),
    }
    assert_eq!(room.inbound.len(), 2);
    // Draining one message unblocks exactly one sender.
    assert_eq!(room.inbound.dequeue(), Some(bytes("x1")));
    assert!(matches!(room.inbound.try_enqueue(bytes("x3")),
        sphincter::inbound::EnqueueOutcome::Accepted));
    match room.inbound.try_enqueue(bytes("x4")) {
        sphincter::inbound::EnqueueOutcome::Full(back) => assert_eq!(back, bytes("x4")),
        other => panic!("expected the queue full again, got {:?}", other),
    }
    // First-enqueued-first-drained order.
    assert_eq!(room.inbound.dequeue(), Some(bytes("x2")));
    assert_eq!(room.inbound.dequeue(), Some(bytes("x3")));
    assert_eq!(room.inbound.dequeue(), None);
}

#[test]
fn teardown_unregisters_and_closes() {
    let mut registry = Registry::new();
    let id = String::from("ROOM01");
    registry.insert(id.clone(), Room::new());
    assert!(registry.contains(&id));

    // Producer disconnect: the room leaves the registry exactly once and the
    // fan-out closes.
    let mut room = registry.remove(&id).expect("room was registered");
    assert!(!registry.contains(&id));
    assert!(registry.remove(&id).is_none());

    let (_, mut cursor) = room.join();
    room.fanout.close();
    assert!(matches!(room.fanout.recv(&mut cursor), sphincter::fanout::RecvOutcome::Closed));
}

#[test]
fn teardown_lets_subscribers_drain_backlog() {
    let mut room = Room::new();
    let (_, mut cursor) = room.join();
    room.process_producer_chunk(bytes("last words"));
    room.fanout.close();
    match room.fanout.recv(&mut cursor) {
        sphincter::fanout::RecvOutcome::Msg(m) => assert_eq!(m, bytes("last words")),
        other => panic!("expected the backlog message, got {:?}", other),
    }
    assert!(matches!(room.fanout.recv(&mut cursor), sphincter::fanout::RecvOutcome::Closed));
}

#[test]
fn registry_collision_overwrites() {
    let mut registry = Registry::new();
    let id = String::from("SAME00");
    let mut first = Room::new();
    first.process_producer_chunk(bytes("{\"op\":0,\"who\":\"first\"}"));
    registry.insert(id.clone(), first);
    let second = Room::new();
    registry.insert(id.clone(), second);
    let got = registry.remove(&id).expect("an entry stays under the identifier");
    let (replay, _) = got.join();
    assert_eq!(replay, None);
    assert!(!registry.contains(&id));
}

#[test]
fn frame_for_utf8_and_binary() {
    match frame_for(bytes("{\"op\":0}")) {
        Frame::Text(s) => assert_eq!(s, "{\"op\":0}"),
        other => panic!("expected a text frame, got {:?}", other),
    }
    match frame_for(vec![0xff, 0xfe, 0x00]) {
        Frame::Binary(b) => assert_eq!(b, vec![0xff, 0xfe, 0x00]),
        other => panic!("expected a binary frame, got {:?}", other),
    }
}

#[test]
fn room_id_shape() {
    let mut n = 0;
    while n < 20 {
        let id = generate_room_id();
        assert_eq!(id.len(), ROOM_ID_LEN);
        for c in id.chars() {
            assert!(c.is_ascii_uppercase() || c.is_ascii_digit());
        }
        n += 1;
    }
}

#[test]
fn default_capacity_matches_design() {
    let room = Room::new();
    assert_eq!(room.fanout.capacity, DEFAULT_CAPACITY);
    assert_eq!(room.inbound.capacity, DEFAULT_CAPACITY);
    assert_eq!(DEFAULT_CAPACITY, 100);
}
