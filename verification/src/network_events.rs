//! Maps events from the transport layer into domain operations for the
//! various modules.

use vstd::prelude::*;
use crate::node_ops::Prefix;
use crate::wire::{decodable_envelope, deserialize_envelope};
use crate::MIN_AGE;

verus! {

/// A membership or transport event, as the routing layer reports it.
#[derive(Clone, PartialEq, Eq, Debug)]
pub enum NetworkEvent {
    PromotedToElder,
    MemberLeft { name: u64, age: u8 },
    MemberJoined { name: u64, previous_name: Option<u64>, age: u8, startup_relocation: bool },
    MessageReceived { content: Vec<u8>, src: u64, dst: u64 },
    EldersChanged { key: u64, elders: Vec<u64>, prefix: Prefix },
    Relocated,
    Demoted,
    /// Any event this node does not act on.
    Other,
}

/// The domain operation an event translates to.
pub enum NodeOperation {
    SetupAsElder,
    SetupAsAdult,
    ProcessLostMember { name: u64, age: u8 },
    ProcessNewMember { name: u64 },
    ProcessRelocatedMember { old_node_id: u64, new_node_id: u64, age: u8 },
    ProcessElderChange { prefix: Prefix, key: u64, elders: Vec<u64> },
    /// A decoded inbound envelope, to be judged by the message analysis.
    AnalyzeMessage(sn_data_types::MsgEnvelope),
}

/// What `process_network_event` returns for each event.  Promotion and
/// demotion signals are re-checked against the node's current age: events
/// and true state can race, and state wins.  Undecodable payloads produce
/// no operation at all.
pub open spec fn event_translation(event: NetworkEvent, age: u8, r: Option<NodeOperation>) -> bool {
    match event {
        NetworkEvent::PromotedToElder => r matches Some(NodeOperation::SetupAsElder),
        NetworkEvent::MemberLeft { name, age } => (
            r matches Some(NodeOperation::ProcessLostMember { name: n, age: a })
                && n == name && a == age
        ),
        NetworkEvent::MemberJoined { name, previous_name, age, startup_relocation } => {
            if startup_relocation {
                r matches Some(NodeOperation::ProcessNewMember { name: n }) && n == name
            } else {
                match previous_name {
                    Some(prev) => (
                        r matches Some(NodeOperation::ProcessRelocatedMember {
                            old_node_id, new_node_id, age: a,
                        }) && old_node_id == prev && new_node_id == name && a == age
                    ),
                    None => r is None,
                }
            }
        },
        NetworkEvent::MessageReceived { content, .. } => {
            &&& decodable_envelope(content@) <==> (
                r matches Some(op) && op is AnalyzeMessage
            )
            &&& !decodable_envelope(content@) ==> r is None
        },
        NetworkEvent::EldersChanged { key, elders, prefix } => (
            r matches Some(NodeOperation::ProcessElderChange { prefix: p, key: k, elders: e })
                && p == prefix && k == key && e == elders
        ),
        NetworkEvent::Relocated => {
            if age > MIN_AGE {
                r matches Some(NodeOperation::SetupAsAdult)
            } else {
                r is None
            }
        },
        NetworkEvent::Demoted => {
            if age > MIN_AGE {
                r matches Some(NodeOperation::SetupAsAdult)
            } else {
                r is None
            }
        },
        NetworkEvent::Other => r is None,
    }
}

/// Maps events from the transport layer into domain operations.  The
/// membership layer behind it (peer discovery, delivery, key management)
/// is a collaborator: the surrounding runtime feeds events in and carries
/// the returned operations out.
pub struct NetworkEvents {
}

impl NetworkEvents {
    pub fn new() -> (r: Self)
    {
        NetworkEvents {  }
    }

    /// Translate one routing event, given the node's current age.
    pub fn process_network_event(&mut self, event: NetworkEvent, age: u8) -> (r: Option<
        NodeOperation,
    >)
        ensures
            event_translation(event, age, r),
    {
        match event {
            NetworkEvent::PromotedToElder => Some(NodeOperation::SetupAsElder),
            NetworkEvent::MemberLeft { name, age } => Some(
                NodeOperation::ProcessLostMember { name, age },
            ),
            NetworkEvent::MemberJoined { name, previous_name, age, startup_relocation } => {
                if startup_relocation {
                    Some(NodeOperation::ProcessNewMember { name })
                } else {
                    match previous_name {
                        Some(prev) => Some(
                            NodeOperation::ProcessRelocatedMember {
                                old_node_id: prev,
                                new_node_id: name,
                                age,
                            },
                        ),
                        None => None,
                    }
                }
            },
            NetworkEvent::MessageReceived { content, .. } => self.evaluate_msg(&content),
            NetworkEvent::EldersChanged { key, elders, prefix } => Some(
                NodeOperation::ProcessElderChange { prefix, key, elders },
            ),
            NetworkEvent::Relocated => {
                if age > MIN_AGE {
                    Some(NodeOperation::SetupAsAdult)
                } else {
                    None
                }
            },
            NetworkEvent::Demoted => {
                if age > MIN_AGE {
                    Some(NodeOperation::SetupAsAdult)
                } else {
                    None
                }
            },
            NetworkEvent::Other => None,
        }
    }

    /// Decode an inbound payload; malformed bytes are dropped, never fatal.
    fn evaluate_msg(&mut self, content: &Vec<u8>) -> (r: Option<NodeOperation>)
        ensures
            decodable_envelope(content@) <==> (r matches Some(op) && op is AnalyzeMessage),
            !decodable_envelope(content@) ==> r is None,
    {
        match deserialize_envelope(content.as_slice()) {
            Some(msg) => Some(NodeOperation::AnalyzeMessage(msg)),
            None => None,
        }
    }
}

} // verus!
