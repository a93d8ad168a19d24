//! Scenario tests for the duty dispatcher: role transitions, wallet
//! bookkeeping, forwarding, and the replication correlation check.

use std::collections::HashMap;
use sn_node::handle::{NetworkContext, Node, Role};
use sn_node::node_ops::{
    ChunkCall, ChunkData, ChunkRead, ChunkWrite, CreditAccumulation, CreditProof, DataQuery,
    Error, MetadataCall, NodeDuty, NodeTask, OutgoingMsg, Prefix, RewardProposal, TransferCall,
    WalletEntry,
};
use sn_node::section_funds::SectionFunds;
use sn_node::wire::derive_msg_id;

fn ctx_with(members: &[(u64, u8)], our_name: u64, quorum: usize) -> NetworkContext {
    let mut m: HashMap<u64, u8> = HashMap::new();
    for (name, age) in members {
        m.insert(*name, *age);
    }
    NetworkContext {
        our_name,
        our_prefix: Prefix { name: 0, bit_count: 0 },
        elder_quorum: quorum,
        members: m,
    }
}

fn elder(ctx: &NetworkContext) -> Node {
    let mut node = Node::new();
    node.handle(NodeDuty::Genesis, ctx).unwrap();
    node
}

fn adult(ctx: &NetworkContext) -> Node {
    let mut node = Node::new();
    node.handle(NodeDuty::Genesis, ctx).unwrap();
    node.handle(NodeDuty::LevelDown, ctx).unwrap();
    node
}

fn funds_of(node: &Node) -> &SectionFunds {
    node.get_section_funds().unwrap()
}

#[test]
fn genesis_builds_an_elder_with_empty_books() {
    let ctx = ctx_with(&[], 1, 2);
    let node = elder(&ctx);
    assert!(node.get_metadata().is_ok());
    assert!(node.get_transfers().is_ok());
    let funds = funds_of(&node);
    assert!(matches!(funds, SectionFunds::KeepingNodeWallets { .. }));
    assert_eq!(funds.wallet_count(), 0);
}

#[test]
fn demotion_then_elder_duties_fail_with_role_mismatch() {
    let ctx = ctx_with(&[(7, 42)], 1, 2);
    let mut node = elder(&ctx);
    node.handle(NodeDuty::LevelDown, &ctx).unwrap();
    let r = node.handle(
        NodeDuty::SetNodeWallet { wallet_id: 1, node_id: 7, msg_id: 0, origin: 0 },
        &ctx,
    );
    assert!(matches!(r, Err(Error::NoSectionFunds)));
    let r = node.handle(
        NodeDuty::ProcessWrite { cmd: DataQuery { dst: 0, payload: 1 }, id: 1, origin: 2 },
        &ctx,
    );
    assert!(matches!(r, Err(Error::NoMetadata)));
    let r = node.handle(NodeDuty::GetBalance { at: 1, msg_id: 2, origin: 3 }, &ctx);
    assert!(matches!(r, Err(Error::NoTransfers)));
    // the churn-protocol duties are reward duties too: after demotion they
    // surface the same role mismatch instead of being swallowed
    let credit = CreditProof { id: 1, recipient: 2, amount: 3 };
    let r = node.handle(
        NodeDuty::ReceiveRewardProposal(RewardProposal { section_key: 9, credits: vec![credit] }),
        &ctx,
    );
    assert!(matches!(r, Err(Error::NoSectionFunds)));
    let r = node.handle(
        NodeDuty::ReceiveRewardAccumulation(CreditAccumulation { credit, source: 4 }),
        &ctx,
    );
    assert!(matches!(r, Err(Error::NoSectionFunds)));
}

#[test]
fn promotion_then_chunk_duties_fail_with_role_mismatch() {
    let ctx = ctx_with(&[], 1, 2);
    let mut node = adult(&ctx);
    node.handle(NodeDuty::Genesis, &ctx).unwrap();
    let r = node.handle(
        NodeDuty::WriteChunk { write: ChunkWrite { payload: 9 }, msg_id: 1, origin: 2 },
        &ctx,
    );
    assert!(matches!(r, Err(Error::NoChunks)));
    let r = node.handle(
        NodeDuty::ReplicateChunk { current_holders: vec![4], address: 8, id: 3 },
        &ctx,
    );
    assert!(matches!(r, Err(Error::NoChunks)));
}

#[test]
fn set_node_wallet_for_member_takes_age_from_membership() {
    let ctx = ctx_with(&[(7, 42)], 1, 2);
    let mut node = elder(&ctx);
    let r = node
        .handle(NodeDuty::SetNodeWallet { wallet_id: 900, node_id: 7, msg_id: 0, origin: 0 }, &ctx)
        .unwrap();
    assert!(r.is_empty());
    let w = funds_of(&node).node_wallet(7).unwrap();
    assert_eq!(w.wallet, 900);
    assert_eq!(w.age, 42);
}

#[test]
fn set_node_wallet_for_unknown_identity_fails_and_changes_nothing() {
    let ctx = ctx_with(&[(7, 42)], 1, 2);
    let mut node = elder(&ctx);
    node.handle(NodeDuty::SetNodeWallet { wallet_id: 900, node_id: 7, msg_id: 0, origin: 0 }, &ctx)
        .unwrap();
    let r = node.handle(
        NodeDuty::SetNodeWallet { wallet_id: 1, node_id: 99, msg_id: 0, origin: 0 },
        &ctx,
    );
    assert!(matches!(r, Err(Error::NodeNotFoundForReward)));
    let funds = funds_of(&node);
    assert_eq!(funds.wallet_count(), 1);
    assert_eq!(funds.node_wallet(7).unwrap().wallet, 900);
    assert!(funds.node_wallet(99).is_none());
}

#[test]
fn lost_member_evicts_wallet_and_triggers_replication_per_address() {
    let lost: u64 = 5;
    let other: u64 = 6;
    let ctx = ctx_with(&[(lost, 20), (other, 30)], 1, 2);
    let mut node = elder(&ctx);
    node.handle(NodeDuty::SetNodeWallet { wallet_id: 50, node_id: lost, msg_id: 0, origin: 0 }, &ctx)
        .unwrap();
    node.handle(
        NodeDuty::SetNodeWallet { wallet_id: 60, node_id: other, msg_id: 0, origin: 0 },
        &ctx,
    )
    .unwrap();
    match &mut node.role {
        Role::Elder { meta_data, .. } => {
            meta_data.record_chunk_holder(10, lost);
            meta_data.record_chunk_holder(10, other);
            meta_data.record_chunk_holder(11, lost);
            meta_data.record_chunk_holder(12, other);
        }
        _ => unreachable!(),
    }
    let ts = node.handle(NodeDuty::ProcessLostMember { name: lost, age: 20 }, &ctx).unwrap();
    assert_eq!(ts.len(), 2);
    assert_eq!(
        ts[0],
        NodeTask::Duty(NodeDuty::ReplicateChunk {
            current_holders: vec![other],
            address: 10,
            id: derive_msg_id(10, lost),
        })
    );
    assert_eq!(
        ts[1],
        NodeTask::Duty(NodeDuty::ReplicateChunk {
            current_holders: vec![],
            address: 11,
            id: derive_msg_id(11, lost),
        })
    );
    let funds = funds_of(&node);
    assert!(funds.node_wallet(lost).is_none());
    assert_eq!(funds.node_wallet(other).unwrap().wallet, 60);
}

#[test]
fn replication_store_with_matching_correlation_stores() {
    let ctx = ctx_with(&[], 17, 2);
    let mut node = adult(&ctx);
    let data = ChunkData { name: 5, payload: 77 };
    let good = derive_msg_id(5, 17);
    let ts = node
        .handle(NodeDuty::StoreChunkForReplication { data, correlation_id: good }, &ctx)
        .unwrap();
    assert_eq!(ts, vec![NodeTask::Chunks(ChunkCall::StoreReplicated { data })]);
}

#[test]
fn replication_store_with_stale_correlation_is_discarded() {
    let ctx = ctx_with(&[], 17, 2);
    let mut node = adult(&ctx);
    let data = ChunkData { name: 5, payload: 77 };
    // the raw address and the raw node name are what a non-derived (stale or
    // forged) correlation id would look like; both must be discarded
    for bad in [5u64, 17u64, derive_msg_id(17, 5)] {
        let ts = node
            .handle(NodeDuty::StoreChunkForReplication { data, correlation_id: bad }, &ctx)
            .unwrap();
        assert!(ts.is_empty());
    }
}

#[test]
fn chunk_read_outside_our_prefix_is_forwarded() {
    // prefix 1... covers only the upper half of the address space
    let ctx = NetworkContext {
        our_name: 1,
        our_prefix: Prefix { name: 1 << 63, bit_count: 1 },
        elder_quorum: 2,
        members: HashMap::new(),
    };
    let mut node = adult(&ctx);
    let inside = ChunkRead { address: (1 << 63) + 9, payload: 1 };
    let ts = node
        .handle(NodeDuty::ReadChunk { read: inside, msg_id: 1, origin: 2 }, &ctx)
        .unwrap();
    assert_eq!(ts.len(), 2);
    assert_eq!(ts[0], NodeTask::Chunks(ChunkCall::Read { read: inside, msg_id: 1, origin: 2 }));
    assert_eq!(ts[1], NodeTask::Chunks(ChunkCall::CheckStorage));
    let outside = ChunkRead { address: 9, payload: 1 };
    let ts = node
        .handle(NodeDuty::ReadChunk { read: outside, msg_id: 1, origin: 2 }, &ctx)
        .unwrap();
    assert_eq!(
        ts,
        vec![NodeTask::ForwardChunkRead { read: outside, msg_id: 1, origin: 2, dst: 9 }]
    );
}

#[test]
fn data_read_outside_our_prefix_is_forwarded() {
    let ctx = NetworkContext {
        our_name: 1,
        our_prefix: Prefix { name: 1 << 63, bit_count: 1 },
        elder_quorum: 2,
        members: HashMap::new(),
    };
    let mut node = elder(&ctx);
    let q = DataQuery { dst: 3, payload: 4 };
    let ts = node.handle(NodeDuty::ProcessRead { query: q, id: 1, origin: 2 }, &ctx).unwrap();
    assert_eq!(ts, vec![NodeTask::ForwardDataRead { query: q, id: 1, origin: 2, dst: 3 }]);
    let inside = DataQuery { dst: (1 << 63) + 3, payload: 4 };
    let ts = node
        .handle(NodeDuty::ProcessRead { query: inside, id: 1, origin: 2 }, &ctx)
        .unwrap();
    assert_eq!(ts, vec![NodeTask::Metadata(MetadataCall::Read { query: inside, id: 1, origin: 2 })]);
}

#[test]
fn transfer_duties_become_ledger_calls() {
    let ctx = ctx_with(&[], 1, 2);
    let mut node = elder(&ctx);
    let ts = node.handle(NodeDuty::GetBalance { at: 4, msg_id: 5, origin: 6 }, &ctx).unwrap();
    assert_eq!(ts, vec![NodeTask::Transfers(TransferCall::Balance { at: 4, msg_id: 5, origin: 6 })]);
    let ts = node.handle(NodeDuty::RegisterTransfer { proof: 8, msg_id: 9 }, &ctx).unwrap();
    assert_eq!(ts, vec![NodeTask::Transfers(TransferCall::Register { proof: 8, msg_id: 9 })]);
}

#[test]
fn send_and_noop_duties() {
    let ctx = ctx_with(&[], 1, 2);
    let mut node = elder(&ctx);
    let msg = OutgoingMsg { msg: 1, dst: 2 };
    let ts = node.handle(NodeDuty::Send(msg), &ctx).unwrap();
    assert_eq!(ts, vec![NodeTask::Outbound(msg)]);
    let ts = node.handle(NodeDuty::NoOp, &ctx).unwrap();
    assert!(ts.is_empty());
    let ts = node.handle(NodeDuty::SetNodeJoinsAllowed(true), &ctx).unwrap();
    assert_eq!(ts, vec![NodeTask::SetJoinsAllowed(true)]);
    let ts = node.handle(NodeDuty::ReachingMaxCapacity, &ctx).unwrap();
    assert_eq!(ts, vec![NodeTask::NotifySectionOfOurStorage]);
    let ts = node.handle(NodeDuty::GetSectionElders { msg_id: 3, origin: 4 }, &ctx).unwrap();
    assert_eq!(
        ts,
        vec![NodeTask::SendSectionElders { msg_id: 3, origin: 4, prefix: ctx.our_prefix }]
    );
    let ts = node.handle(NodeDuty::GetNodeWalletKey { node_name: 5, msg_id: 6, origin: 7 }, &ctx);
    assert!(ts.unwrap().is_empty());
}

#[test]
fn synch_state_replaces_the_wallet_registry() {
    let ctx = ctx_with(&[(7, 42)], 1, 2);
    let mut node = elder(&ctx);
    node.handle(NodeDuty::SetNodeWallet { wallet_id: 900, node_id: 7, msg_id: 0, origin: 0 }, &ctx)
        .unwrap();
    let ts = node
        .handle(
            NodeDuty::SynchState {
                node_rewards: vec![
                    WalletEntry { node: 30, wallet: 300, age: 10 },
                    WalletEntry { node: 31, wallet: 310, age: 11 },
                ],
                user_wallets: 0,
            },
            &ctx,
        )
        .unwrap();
    assert!(ts.is_empty());
    let funds = funds_of(&node);
    assert_eq!(funds.wallet_count(), 2);
    assert!(funds.node_wallet(7).is_none());
    assert_eq!(funds.node_wallet(30).unwrap().wallet, 300);
    assert_eq!(funds.node_wallet(31).unwrap().age, 11);
}

#[test]
fn elders_changed_pushes_state_under_a_deterministic_id() {
    let ctx = ctx_with(&[], 1, 2);
    let mut node = elder(&ctx);
    let prefix = Prefix { name: 1 << 63, bit_count: 1 };
    let ts = node
        .handle(NodeDuty::EldersChanged { our_key: 44, our_prefix: prefix, newbie: false }, &ctx)
        .unwrap();
    assert_eq!(ts.len(), 2);
    assert_eq!(ts[0], NodeTask::Transfers(TransferCall::UpdateReplicaInfo));
    assert_eq!(
        ts[1],
        NodeTask::PushState { prefix, msg_id: derive_msg_id(prefix.name_value(), 44) }
    );
}

#[test]
fn stale_reward_duties_are_tolerated_by_a_steady_state_elder() {
    let ctx = ctx_with(&[], 1, 2);
    let mut node = elder(&ctx);
    let credit = CreditProof { id: 1, recipient: 2, amount: 3 };
    let ts = node
        .handle(
            NodeDuty::ReceiveRewardProposal(RewardProposal { section_key: 9, credits: vec![credit] }),
            &ctx,
        )
        .unwrap();
    assert!(ts.is_empty());
    let ts = node
        .handle(
            NodeDuty::ReceiveRewardAccumulation(CreditAccumulation { credit, source: 4 }),
            &ctx,
        )
        .unwrap();
    assert!(ts.is_empty());
    assert!(matches!(node.get_churning_funds(), Err(Error::NotChurningFunds)));
}
