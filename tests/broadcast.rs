use secure_broadcast::broadcaster::{Broadcaster, BROADCASTER_ID};
use secure_broadcast::message::SealedMessage;
use secure_broadcast::node::{Node, NodeAction, NodeEvent, NodeState};
use secure_broadcast::nonce::{generate_nonce, nonce_from_parts, Nonce};
use secure_broadcast::session::{AuthenticationFailure, CipherSession, ConfigurationError, TAG_LEN};
use std::collections::HashSet;

const MESSAGE: &[u8] = b"plaintext message bruv";

fn shared_session() -> CipherSession {
    CipherSession::new(&[42u8; 32]).unwrap()
}

fn timestamp_of(n: &Nonce) -> u64 {
    let mut v: u64 = 0;
    for i in (6..12).rev() {
        v = v * 256 + n.byte(i) as u64;
    }
    v
}

#[test]
fn end_to_end_scenario() {
    let session = shared_session();
    let nonce = generate_nonce(0xFF).unwrap();
    assert_eq!(nonce.byte(0), 0xFF);
    assert_eq!(nonce.device_id(), 0xFF);
    let sealed = session.seal(&nonce, MESSAGE);
    let opened = session.open(&nonce, &sealed).unwrap();
    assert_eq!(opened, MESSAGE.to_vec());
}

#[test]
fn key_of_wrong_length_is_refused() {
    assert_eq!(CipherSession::new(&[42u8; 31]).err(), Some(ConfigurationError));
    assert_eq!(CipherSession::new(&[42u8; 33]).err(), Some(ConfigurationError));
    assert_eq!(CipherSession::new(&[]).err(), Some(ConfigurationError));
    assert!(CipherSession::new(&[0u8; 32]).is_ok());
}

#[test]
fn seal_appends_tag_and_hides_plaintext() {
    let session = shared_session();
    let nonce = nonce_from_parts(1, &[1, 2, 3, 4, 5], 1_000);
    let sealed = session.seal(&nonce, MESSAGE);
    assert_eq!(sealed.len(), MESSAGE.len() + TAG_LEN);
    assert_ne!(&sealed[..MESSAGE.len()], MESSAGE);
}

#[test]
fn seal_is_deterministic() {
    let session = shared_session();
    let nonce = nonce_from_parts(3, &[9, 9, 9, 9, 9], 77);
    assert_eq!(session.seal(&nonce, MESSAGE), session.seal(&nonce, MESSAGE));
    let other = nonce_from_parts(3, &[9, 9, 9, 9, 8], 77);
    assert_ne!(session.seal(&nonce, MESSAGE), session.seal(&other, MESSAGE));
}

#[test]
fn round_trip_for_several_payloads() {
    let session = shared_session();
    let nonce = nonce_from_parts(2, &[0, 0, 0, 0, 0], 0);
    let payloads: Vec<Vec<u8>> = vec![vec![], vec![0], vec![255; 64], (0..=255u8).collect(), vec![7; 1000]];
    for p in payloads {
        let sealed = session.seal(&nonce, &p);
        assert_eq!(session.open(&nonce, &sealed), Ok(p));
    }
}

#[test]
fn empty_plaintext_seals_to_tag_only() {
    let session = shared_session();
    let nonce = nonce_from_parts(4, &[1, 1, 1, 1, 1], 5);
    let sealed = session.seal(&nonce, &[]);
    assert_eq!(sealed.len(), TAG_LEN);
    assert_eq!(session.open(&nonce, &sealed), Ok(vec![]));
}

#[test]
fn every_single_bit_flip_is_rejected() {
    let session = shared_session();
    let nonce = nonce_from_parts(5, &[5, 4, 3, 2, 1], 123_456);
    let sealed = session.seal(&nonce, MESSAGE);
    for byte in 0..sealed.len() {
        for bit in 0..8 {
            let mut tampered = sealed.clone();
            tampered[byte] ^= 1 << bit;
            assert_eq!(session.open(&nonce, &tampered), Err(AuthenticationFailure));
        }
    }
}

#[test]
fn short_or_misdirected_ciphertext_is_rejected() {
    let session = shared_session();
    let nonce = nonce_from_parts(6, &[0, 1, 0, 1, 0], 42);
    assert_eq!(session.open(&nonce, &[]), Err(AuthenticationFailure));
    assert_eq!(session.open(&nonce, &[0u8; 15]), Err(AuthenticationFailure));
    let sealed = session.seal(&nonce, MESSAGE);
    let truncated = &sealed[..sealed.len() - 1];
    assert_eq!(session.open(&nonce, truncated), Err(AuthenticationFailure));
    let other_nonce = nonce_from_parts(7, &[0, 1, 0, 1, 0], 42);
    assert_eq!(session.open(&other_nonce, &sealed), Err(AuthenticationFailure));
    let other_key = CipherSession::new(&[43u8; 32]).unwrap();
    assert_eq!(other_key.open(&nonce, &sealed), Err(AuthenticationFailure));
}

#[test]
fn nonce_layout_is_exact() {
    let n = nonce_from_parts(0xAB, &[1, 2, 3, 4, 5], 0x0102_0304_0506_0708);
    assert_eq!(n.bytes, [0xAB, 1, 2, 3, 4, 5, 0x08, 0x07, 0x06, 0x05, 0x04, 0x03]);
    assert_eq!(timestamp_of(&n), 0x0304_0506_0708);
    let small = nonce_from_parts(0, &[0; 5], 1);
    assert_eq!(small.bytes, [0, 0, 0, 0, 0, 0, 1, 0, 0, 0, 0, 0]);
    let top = nonce_from_parts(9, &[0; 5], 0xFFFF_FFFF_FFFF);
    assert_eq!(timestamp_of(&top), 0xFFFF_FFFF_FFFF);
    let wrapped = nonce_from_parts(9, &[0; 5], 0x1_0000_0000_0000);
    assert_eq!(timestamp_of(&wrapped), 0);
}

#[test]
fn nonce_from_array_keeps_bytes() {
    let bytes = [1, 2, 3, 4, 5, 6, 7, 8, 9, 10, 11, 12];
    let n = Nonce::from_array(bytes);
    assert_eq!(n.bytes, bytes);
    assert_eq!(n.byte(11), 12);
}

#[test]
fn generated_nonce_carries_device_and_advancing_clock() {
    let mut last: Option<u64> = None;
    for id in [0u8, 1, 17, 0xFF] {
        let n = generate_nonce(id).unwrap();
        assert_eq!(n.byte(0), id);
        let t = timestamp_of(&n);
        if let Some(prev) = last {
            assert!(t >= prev);
        }
        last = Some(t);
    }
}

#[test]
fn ten_thousand_nonces_are_distinct() {
    let mut seen: HashSet<[u8; 12]> = HashSet::new();
    for _ in 0..10_000 {
        let n = generate_nonce(7).unwrap();
        assert_eq!(n.byte(0), 7);
        assert!(seen.insert(n.bytes));
    }
}

fn started_nodes(count: u8) -> Vec<Node> {
    let mut nodes = Vec::new();
    for id in 0..count {
        let mut node = Node::new(id, shared_session());
        assert_eq!(node.state(), NodeState::Idle);
        assert!(matches!(node.step(NodeEvent::Start), NodeAction::Listen));
        assert_eq!(node.state(), NodeState::Listening);
        nodes.push(node);
    }
    nodes
}

#[test]
fn fan_out_delivers_payload_to_every_node() {
    let broadcaster = Broadcaster::new(shared_session(), 5);
    assert_eq!(broadcaster.node_count(), 5);
    let msg = broadcaster.tick(MESSAGE).unwrap();
    assert_eq!(msg.nonce.byte(0), BROADCASTER_ID);
    let copies = broadcaster.fan_out(&msg);
    assert_eq!(copies.len(), 5);
    let mut nodes = started_nodes(5);
    let mut delivered = Vec::new();
    for (node, copy) in nodes.iter_mut().zip(copies.into_iter()) {
        assert_eq!(copy.nonce, msg.nonce);
        assert_eq!(copy.ciphertext, msg.ciphertext);
        match node.step(NodeEvent::Received(copy)) {
            NodeAction::Deliver { node_id, plaintext } => {
                assert_eq!(node_id, node.id());
                delivered.push(plaintext);
            }
            other => panic!("expected a delivery, got {:?}", other),
        }
    }
    assert_eq!(delivered.len(), 5);
    for p in delivered {
        assert_eq!(p, MESSAGE.to_vec());
    }
}

#[test]
fn fan_out_to_no_nodes_is_empty() {
    let broadcaster = Broadcaster::new(shared_session(), 0);
    let msg = broadcaster.tick(MESSAGE).unwrap();
    assert!(broadcaster.fan_out(&msg).is_empty());
}

#[test]
fn corrupted_copy_affects_only_its_node() {
    let broadcaster = Broadcaster::new(shared_session(), 4);
    let nonce = nonce_from_parts(BROADCASTER_ID, &[1, 2, 3, 4, 5], 99);
    let msg = broadcaster.seal_with(nonce, MESSAGE);
    assert_eq!(msg.ciphertext, shared_session().seal(&nonce, MESSAGE));
    let mut copies = broadcaster.fan_out(&msg);
    copies[2].ciphertext[0] ^= 0x01;
    let mut nodes = started_nodes(4);
    for (i, (node, copy)) in nodes.iter_mut().zip(copies.into_iter()).enumerate() {
        let action = node.step(NodeEvent::Received(copy));
        if i == 2 {
            assert!(matches!(action, NodeAction::Reject { node_id: 2 }));
        } else {
            assert!(matches!(action, NodeAction::Deliver { ref plaintext, .. } if plaintext == MESSAGE));
        }
        assert_eq!(node.state(), NodeState::Listening);
    }
    let next = broadcaster.seal_with(nonce_from_parts(BROADCASTER_ID, &[5, 4, 3, 2, 1], 100), MESSAGE);
    assert!(matches!(
        nodes[2].step(NodeEvent::Received(next.duplicate())),
        NodeAction::Deliver { node_id: 2, .. }
    ));
}

#[test]
fn node_stops_on_queue_closure_and_shutdown() {
    let mut node = Node::new(3, shared_session());
    let msg = Broadcaster::new(shared_session(), 1).tick(MESSAGE).unwrap();
    assert!(matches!(node.step(NodeEvent::Received(msg.duplicate())), NodeAction::Ignore));
    assert_eq!(node.state(), NodeState::Idle);
    node.step(NodeEvent::Start);
    assert!(matches!(node.step(NodeEvent::Start), NodeAction::Ignore));
    assert!(matches!(node.step(NodeEvent::QueueClosed), NodeAction::Stop));
    assert_eq!(node.state(), NodeState::Terminated);
    assert!(matches!(node.step(NodeEvent::Received(msg)), NodeAction::Ignore));
    assert!(matches!(node.step(NodeEvent::Start), NodeAction::Ignore));
    assert_eq!(node.state(), NodeState::Terminated);

    let mut other = Node::new(4, shared_session());
    assert!(matches!(other.step(NodeEvent::Shutdown), NodeAction::Stop));
    assert_eq!(other.state(), NodeState::Terminated);
}

#[test]
fn handle_reports_the_node_id() {
    let node = Node::new(9, shared_session());
    let nonce = nonce_from_parts(BROADCASTER_ID, &[0; 5], 1);
    let good = SealedMessage::new(nonce, shared_session().seal(&nonce, MESSAGE));
    assert!(matches!(node.handle(&good), NodeAction::Deliver { node_id: 9, .. }));
    let bad = SealedMessage::new(nonce, vec![0u8; 3]);
    assert!(matches!(node.handle(&bad), NodeAction::Reject { node_id: 9 }));
}

#[test]
fn wire_form_round_trips() {
    let nonce = nonce_from_parts(1, &[2, 3, 4, 5, 6], 0x0708);
    let msg = SealedMessage::new(nonce, vec![10, 11, 12]);
    let wire = msg.to_wire();
    assert_eq!(wire, vec![1, 2, 3, 4, 5, 6, 0x08, 0x07, 0, 0, 0, 0, 10, 11, 12]);
    let back = SealedMessage::from_wire(&wire).unwrap();
    assert_eq!(back.nonce, nonce);
    assert_eq!(back.ciphertext, vec![10, 11, 12]);
    let bare = SealedMessage::from_wire(&wire[..12]).unwrap();
    assert!(bare.ciphertext.is_empty());
    assert!(SealedMessage::from_wire(&wire[..11]).is_none());
    assert!(SealedMessage::from_wire(&[]).is_none());
}
