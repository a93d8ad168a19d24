//! Tests for the network-event translator and the message-id derivation.

use sn_node::network_events::{NetworkEvent, NetworkEvents, NodeOperation};
use sn_node::node_ops::Prefix;
use sn_node::wire::derive_msg_id;
use sn_node::{min_age, MIN_AGE};

#[test]
fn member_left_becomes_lost_member_operation() {
    let mut t = NetworkEvents::new();
    let r = t.process_network_event(NetworkEvent::MemberLeft { name: 9, age: 33 }, 50);
    assert!(matches!(r, Some(NodeOperation::ProcessLostMember { name: 9, age: 33 })));
}

#[test]
fn member_joined_depends_on_relocation_and_previous_name() {
    let mut t = NetworkEvents::new();
    let r = t.process_network_event(
        NetworkEvent::MemberJoined {
            name: 9,
            previous_name: None,
            age: 33,
            startup_relocation: true,
        },
        50,
    );
    assert!(matches!(r, Some(NodeOperation::ProcessNewMember { name: 9 })));
    let r = t.process_network_event(
        NetworkEvent::MemberJoined {
            name: 9,
            previous_name: Some(4),
            age: 33,
            startup_relocation: false,
        },
        50,
    );
    assert!(matches!(
        r,
        Some(NodeOperation::ProcessRelocatedMember { old_node_id: 4, new_node_id: 9, age: 33 })
    ));
    let r = t.process_network_event(
        NetworkEvent::MemberJoined {
            name: 9,
            previous_name: None,
            age: 33,
            startup_relocation: false,
        },
        50,
    );
    assert!(r.is_none());
}

#[test]
fn elders_changed_becomes_elder_change_operation() {
    let mut t = NetworkEvents::new();
    let prefix = Prefix { name: 0, bit_count: 1 };
    let r = t.process_network_event(
        NetworkEvent::EldersChanged { key: 77, elders: vec![1, 2, 3], prefix },
        50,
    );
    match r {
        Some(NodeOperation::ProcessElderChange { prefix: p, key, elders }) => {
            assert_eq!(p, prefix);
            assert_eq!(key, 77);
            assert_eq!(elders, vec![1, 2, 3]);
        }
        _ => panic!("expected an elder-change operation"),
    }
}

#[test]
fn promotion_and_demotion_signals_are_rechecked_against_age() {
    let mut t = NetworkEvents::new();
    assert_eq!(min_age(), MIN_AGE);
    let r = t.process_network_event(NetworkEvent::Relocated, MIN_AGE);
    assert!(r.is_none());
    let r = t.process_network_event(NetworkEvent::Relocated, MIN_AGE + 1);
    assert!(matches!(r, Some(NodeOperation::SetupAsAdult)));
    let r = t.process_network_event(NetworkEvent::Demoted, MIN_AGE);
    assert!(r.is_none());
    let r = t.process_network_event(NetworkEvent::Demoted, MIN_AGE + 1);
    assert!(matches!(r, Some(NodeOperation::SetupAsAdult)));
    let r = t.process_network_event(NetworkEvent::PromotedToElder, 2);
    assert!(matches!(r, Some(NodeOperation::SetupAsElder)));
}

#[test]
fn malformed_inbound_payload_is_dropped() {
    let mut t = NetworkEvents::new();
    let r = t.process_network_event(
        NetworkEvent::MessageReceived { content: vec![1, 2, 3], src: 4, dst: 5 },
        50,
    );
    assert!(r.is_none());
    let r = t.process_network_event(
        NetworkEvent::MessageReceived { content: vec![], src: 4, dst: 5 },
        50,
    );
    assert!(r.is_none());
    let r = t.process_network_event(NetworkEvent::Other, 50);
    assert!(r.is_none());
}

#[test]
fn message_id_derivation_is_deterministic_and_mixes_both_names() {
    let a = derive_msg_id(5, 17);
    let b = derive_msg_id(5, 17);
    assert_eq!(a, b);
    // a digest of both inputs: neither input alone, and order matters
    assert_ne!(a, 5);
    assert_ne!(a, 17);
    assert_ne!(a, derive_msg_id(17, 5));
    assert_ne!(a, derive_msg_id(5, 18));
}
