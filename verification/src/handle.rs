//! The duty dispatcher: the single entry point translating one incoming duty
//! into subsystem calls and follow-up tasks.
//!
//! Dispatch is total: every duty variant has exactly one handling branch,
//! stated by `dispatch_transition`.  A duty whose subsystem is absent fails
//! with a role-mismatch error instead of being dropped; address-scoped data
//! operations outside this section's prefix are converted into forwarding
//! tasks; a replication instruction whose correlation id does not match the
//! deterministic derivation from the chunk's address and this node's name is
//! discarded.  All state lives in the role and funds values the dispatcher
//! borrows for the duration of one call.

use vstd::prelude::*;
use std::collections::HashMap;
use crate::metadata::{hit_records, is_replication_duty, not_name, ChunkRecord, Metadata};
use crate::node_ops::{ChunkCall, CreditAccumulation, CreditProof, Error, MetadataCall};
use crate::node_ops::{NodeDuty, NodeTask, NodeWallet, Prefix, TransferCall, WalletEntry};
use crate::reward_process::{
    accepts, proposal_transition, step, ProcessModel, RewardProcess, RewardStage, StageModel,
};
use crate::reward_wallets::RewardWallets;
use crate::section_funds::SectionFunds;
use crate::wire::{combine, combined_msg_id};

verus! {

/// Capability handle of the chunk storage subsystem; the store behind it is
/// a collaborator reached through `ChunkCall` tasks.
pub struct Chunks {}

/// Capability handle of the transfer ledger subsystem; the ledger behind it
/// is a collaborator reached through `TransferCall` tasks.
pub struct Transfers {}

/// The node's role as the joint presence of its subsystems: an Adult stores
/// chunks; an Elder holds metadata, the transfer ledger and the section
/// funds.  No other combination exists at rest.
pub enum Role {
    Uninitialized,
    Adult { chunks: Chunks },
    Elder { meta_data: Metadata, transfers: Transfers, section_funds: SectionFunds },
}

/// A node of the section, dispatching duties against its current role.
pub struct Node {
    pub role: Role,
}

/// What the live membership source reports at the time of one dispatch
/// call: this node's name, the section prefix, the quorum threshold the
/// membership derives, and the current members with their ages.
pub struct NetworkContext {
    pub our_name: u64,
    pub our_prefix: Prefix,
    pub elder_quorum: usize,
    pub members: HashMap<u64, u8>,
}

impl NetworkContext {
    pub open spec fn wf(self) -> bool {
        self.our_prefix.wf()
    }
}

impl Node {
    pub open spec fn is_elder(self) -> bool {
        self.role is Elder
    }

    pub open spec fn is_adult(self) -> bool {
        self.role is Adult
    }

    pub open spec fn funds(self) -> SectionFunds {
        self.role->Elder_section_funds
    }

    pub open spec fn meta(self) -> Metadata {
        self.role->Elder_meta_data
    }

    pub open spec fn is_churning(self) -> bool {
        self.is_elder() && self.funds().is_churning()
    }

    pub open spec fn wf(self) -> bool {
        match self.role {
            Role::Elder { meta_data, section_funds, .. } => meta_data.wf() && section_funds.wf(),
            _ => true,
        }
    }
}

pub open spec fn ok_tasks(r: Result<Vec<NodeTask>, Error>, ts: Seq<NodeTask>) -> bool {
    r matches Ok(v) && v@ == ts
}

pub open spec fn ok_empty(r: Result<Vec<NodeTask>, Error>) -> bool {
    r matches Ok(v) && v@.len() == 0
}

pub open spec fn is_err(r: Result<Vec<NodeTask>, Error>, e: Error) -> bool {
    r == Err::<Vec<NodeTask>, Error>(e)
}

/// A freshly promoted Elder: empty holder index, steady-state funds with an
/// empty wallet registry and no pending payments.
pub open spec fn fresh_elder(n: Node) -> bool {
    &&& n.role is Elder
    &&& n.meta().records@ == Seq::<ChunkRecord>::empty()
    &&& n.funds() matches SectionFunds::KeepingNodeWallets { .. }
    &&& n.funds().wallets_map() == Map::<u64, NodeWallet>::empty()
    &&& n.funds().payments_map() == Map::<u64, CreditProof>::empty()
}

/// The wallet registry carried by a state-synchronisation duty, later
/// entries winning on a repeated identity.
pub open spec fn wallets_of(entries: Seq<WalletEntry>) -> Map<u64, NodeWallet>
    decreases entries.len(),
{
    if entries.len() == 0 {
        Map::<u64, NodeWallet>::empty()
    } else {
        wallets_of(entries.drop_last()).insert(
            entries.last().node,
            NodeWallet { wallet: entries.last().wallet, age: entries.last().age },
        )
    }
}

/// An Elder that kept its holder index and everything of its funds except,
/// possibly, the churn process.
pub open spec fn same_elder_books(pre: Node, post: Node) -> bool {
    &&& post.role is Elder
    &&& post.meta() == pre.meta()
    &&& post.funds().wallets_map() == pre.funds().wallets_map()
    &&& post.funds().payments_map() == pre.funds().payments_map()
}

/// What one accumulation duty does while a churn round is open: rejected
/// evidence surfaces the protocol error and changes nothing; an accepted
/// merge either leaves the round open with the merged state, or, when every
/// credit reached quorum, atomically switches the funds to steady-state
/// bookkeeping and emits one propagate-credit task per finalized proof.
pub open spec fn accumulation_outcome(
    pre: Node,
    post: Node,
    acc: CreditAccumulation,
    r: Result<Vec<NodeTask>, Error>,
) -> bool {
    match pre.funds().process_of() {
        Some(proc) => {
            let m2 = step(proc.model(), acc);
            if !accepts(proc.model(), acc) {
                post == pre && is_err(r, Error::InvalidChurnEvidence)
            } else {
                match m2.stage {
                    StageModel::Completed(ps) => {
                        &&& same_elder_books(pre, post)
                        &&& post.funds() matches SectionFunds::KeepingNodeWallets { .. }
                        &&& r matches Ok(ts) && ts@.len() == ps.len() && (forall|i: int|
                            0 <= i < ps.len() ==> ts@[i] == NodeTask::PropagateCredit(ps[i]))
                    },
                    _ => {
                        &&& same_elder_books(pre, post)
                        &&& post.funds().is_churning()
                        &&& post.funds().process_of() matches Some(p2) && p2.model() == m2
                        &&& ok_empty(r)
                    },
                }
            }
        },
        None => false,
    }
}

/// Validity of the duty value itself: a carried section prefix must name at
/// most 64 bits.
pub open spec fn duty_wf(duty: NodeDuty) -> bool {
    match duty {
        NodeDuty::EldersChanged { our_prefix, .. } => our_prefix.wf(),
        NodeDuty::SectionSplit { our_prefix, .. } => our_prefix.wf(),
        _ => true,
    }
}

/// The dispatcher's whole contract, one branch per duty variant.
pub open spec fn dispatch_transition(
    pre: Node,
    post: Node,
    duty: NodeDuty,
    ctx: NetworkContext,
    r: Result<Vec<NodeTask>, Error>,
) -> bool {
    match duty {
        NodeDuty::Genesis => fresh_elder(post) && ok_empty(r),
        NodeDuty::EldersChanged { our_key, our_prefix, newbie } => {
            if newbie {
                fresh_elder(post) && ok_empty(r)
            } else if pre.is_elder() {
                post == pre && ok_tasks(
                    r,
                    seq![
                        NodeTask::Transfers(TransferCall::UpdateReplicaInfo),
                        NodeTask::PushState {
                            prefix: our_prefix,
                            msg_id: combined_msg_id(our_prefix.spec_name_value(), our_key),
                        },
                    ],
                )
            } else {
                post == pre && is_err(r, Error::NoTransfers)
            }
        },
        NodeDuty::SectionSplit { our_key, our_prefix, sibling_key, newbie } => {
            if newbie {
                fresh_elder(post) && ok_empty(r)
            } else if pre.is_elder() {
                &&& same_elder_books(pre, post)
                &&& post.funds().is_churning()
                &&& post.funds().process_of() matches Some(p2) && p2.model() == (ProcessModel {
                    section_key: our_key,
                    quorum: ctx.elder_quorum,
                    stage: StageModel::Awaiting,
                })
                &&& ok_tasks(r, seq![NodeTask::ProposeRewardSplit { our_key, sibling_key }])
            } else {
                post == pre && is_err(r, Error::NoSectionFunds)
            }
        },
        NodeDuty::GetSectionElders { msg_id, origin } => post == pre && ok_tasks(
            r,
            seq![NodeTask::SendSectionElders { msg_id, origin, prefix: ctx.our_prefix }],
        ),
        NodeDuty::ReceiveRewardProposal(p) => {
            if pre.is_churning() {
                &&& same_elder_books(pre, post)
                &&& post.funds().is_churning()
                &&& match (pre.funds().process_of(), post.funds().process_of()) {
                    (Some(p1), Some(p2)) => match r {
                        Ok(ts) => ts@.len() == 1 && proposal_transition(
                            p1.model(),
                            p2.model(),
                            p.section_key,
                            p.credits@,
                            Ok(ts@[0]),
                        ),
                        Err(e) => proposal_transition(
                            p1.model(),
                            p2.model(),
                            p.section_key,
                            p.credits@,
                            Err(e),
                        ),
                    },
                    _ => false,
                }
            } else if pre.is_elder() {
                // a steady-state Elder tolerates stale protocol messages
                post == pre && ok_empty(r)
            } else {
                // a reward duty on a node without section funds is a
                // role mismatch, surfaced rather than swallowed
                post == pre && is_err(r, Error::NoSectionFunds)
            }
        },
        NodeDuty::ReceiveRewardAccumulation(acc) => {
            if pre.is_churning() {
                accumulation_outcome(pre, post, acc, r)
            } else if pre.is_elder() {
                post == pre && ok_empty(r)
            } else {
                post == pre && is_err(r, Error::NoSectionFunds)
            }
        },
        NodeDuty::SetNodeWallet { wallet_id, node_id, msg_id, origin } => {
            if pre.is_elder() {
                if ctx.members@.contains_key(node_id) {
                    &&& post.role is Elder
                    &&& post.meta() == pre.meta()
                    &&& post.funds().payments_map() == pre.funds().payments_map()
                    &&& post.funds().process_of() == pre.funds().process_of()
                    &&& post.funds().wallets_map() == pre.funds().wallets_map().insert(
                        node_id,
                        NodeWallet { wallet: wallet_id, age: ctx.members@[node_id] },
                    )
                    &&& ok_empty(r)
                } else {
                    post == pre && is_err(r, Error::NodeNotFoundForReward)
                }
            } else {
                post == pre && is_err(r, Error::NoSectionFunds)
            }
        },
        NodeDuty::GetNodeWalletKey { .. } => post == pre && ok_empty(r),
        NodeDuty::ProcessLostMember { name, age } => {
            if pre.is_elder() {
                &&& post.role is Elder
                &&& post.funds().payments_map() == pre.funds().payments_map()
                &&& post.funds().process_of() == pre.funds().process_of()
                &&& post.funds().wallets_map() == pre.funds().wallets_map().remove(name)
                &&& post.meta().records@.len() == pre.meta().records@.len()
                &&& forall|i: int| 0 <= i < pre.meta().records@.len() ==> (
                #[trigger] post.meta().records@[i]).address == pre.meta().records@[i].address
                &&& forall|i: int| 0 <= i < pre.meta().records@.len() ==> (
                #[trigger] post.meta().records@[i]).holders@
                    == pre.meta().records@[i].holders@.filter(not_name(name))
                &&& r matches Ok(ts) && ts@.len() == hit_records(pre.meta().records@, name).len()
                    && (forall|i: int|
                    0 <= i < ts@.len() ==> is_replication_duty(
                        #[trigger] ts@[i],
                        hit_records(pre.meta().records@, name)[i],
                        name,
                    ))
            } else {
                post == pre && is_err(r, Error::NoSectionFunds)
            }
        },
        NodeDuty::SynchState { node_rewards, user_wallets } => {
            if pre.is_elder() {
                &&& post.role is Elder
                &&& post.meta() == pre.meta()
                &&& post.funds().payments_map() == pre.funds().payments_map()
                &&& post.funds().process_of() == pre.funds().process_of()
                &&& post.funds().wallets_map() == wallets_of(node_rewards@)
                &&& ok_empty(r)
            } else {
                post == pre && is_err(r, Error::NoSectionFunds)
            }
        },
        NodeDuty::LevelDown => {
            &&& post.role is Adult
            &&& ok_empty(r)
        },
        NodeDuty::GetTransferReplicaEvents { msg_id, origin } => transfer_dispatch(
            pre,
            post,
            r,
            TransferCall::AllEvents { msg_id, origin },
        ),
        NodeDuty::PropagateTransfer { proof, msg_id, origin } => transfer_dispatch(
            pre,
            post,
            r,
            TransferCall::ReceivePropagated { proof, msg_id, origin },
        ),
        NodeDuty::ValidateClientTransfer { signed_transfer, msg_id, origin } => transfer_dispatch(
            pre,
            post,
            r,
            TransferCall::Validate { signed_transfer, msg_id, origin },
        ),
        NodeDuty::SimulatePayout { transfer, .. } => transfer_dispatch(
            pre,
            post,
            r,
            TransferCall::CreditWithoutProof { transfer },
        ),
        NodeDuty::GetTransfersHistory { at, since_version, msg_id, origin } => transfer_dispatch(
            pre,
            post,
            r,
            TransferCall::History { at, since_version, msg_id, origin },
        ),
        NodeDuty::GetBalance { at, msg_id, origin } => transfer_dispatch(
            pre,
            post,
            r,
            TransferCall::Balance { at, msg_id, origin },
        ),
        NodeDuty::GetStoreCost { requester, bytes, msg_id, origin } => transfer_dispatch(
            pre,
            post,
            r,
            TransferCall::StoreCost { requester, bytes, msg_id, origin },
        ),
        NodeDuty::RegisterTransfer { proof, msg_id } => transfer_dispatch(
            pre,
            post,
            r,
            TransferCall::Register { proof, msg_id },
        ),
        NodeDuty::IncrementFullNodeCount { node_id } => transfer_dispatch(
            pre,
            post,
            r,
            TransferCall::IncreaseFullNodeCount { node_id },
        ),
        NodeDuty::ProcessDataPayment { msg, origin } => transfer_dispatch(
            pre,
            post,
            r,
            TransferCall::ProcessPayment { msg, origin },
        ),
        NodeDuty::ReadChunk { read, msg_id, origin } => {
            if ctx.our_prefix.spec_matches(read.address) {
                if pre.is_adult() {
                    post == pre && ok_tasks(
                        r,
                        seq![
                            NodeTask::Chunks(ChunkCall::Read { read, msg_id, origin }),
                            NodeTask::Chunks(ChunkCall::CheckStorage),
                        ],
                    )
                } else {
                    post == pre && is_err(r, Error::NoChunks)
                }
            } else {
                post == pre && ok_tasks(
                    r,
                    seq![NodeTask::ForwardChunkRead { read, msg_id, origin, dst: read.address }],
                )
            }
        },
        NodeDuty::WriteChunk { write, msg_id, origin } => {
            if pre.is_adult() {
                post == pre && ok_tasks(
                    r,
                    seq![NodeTask::Chunks(ChunkCall::Write { write, msg_id, origin })],
                )
            } else {
                post == pre && is_err(r, Error::NoChunks)
            }
        },
        NodeDuty::ReachingMaxCapacity => post == pre && ok_tasks(
            r,
            seq![NodeTask::NotifySectionOfOurStorage],
        ),
        NodeDuty::Send(msg) => post == pre && ok_tasks(r, seq![NodeTask::Outbound(msg)]),
        NodeDuty::SendToNodes { targets, msg } => post == pre && ok_tasks(
            r,
            seq![NodeTask::OutboundToNodes { targets, msg }],
        ),
        NodeDuty::SetNodeJoinsAllowed(allowed) => post == pre && ok_tasks(
            r,
            seq![NodeTask::SetJoinsAllowed(allowed)],
        ),
        NodeDuty::ProcessRead { query, id, origin } => {
            if ctx.our_prefix.spec_matches(query.dst) {
                if pre.is_elder() {
                    post == pre && ok_tasks(
                        r,
                        seq![NodeTask::Metadata(MetadataCall::Read { query, id, origin })],
                    )
                } else {
                    post == pre && is_err(r, Error::NoMetadata)
                }
            } else {
                post == pre && ok_tasks(
                    r,
                    seq![NodeTask::ForwardDataRead { query, id, origin, dst: query.dst }],
                )
            }
        },
        NodeDuty::ProcessWrite { cmd, id, origin } => {
            if pre.is_elder() {
                post == pre && ok_tasks(
                    r,
                    seq![NodeTask::Metadata(MetadataCall::Write { cmd, id, origin })],
                )
            } else {
                post == pre && is_err(r, Error::NoMetadata)
            }
        },
        NodeDuty::AddPayment(credit) => {
            if pre.is_elder() {
                &&& post.role is Elder
                &&& post.meta() == pre.meta()
                &&& post.funds().wallets_map() == pre.funds().wallets_map()
                &&& post.funds().process_of() == pre.funds().process_of()
                &&& post.funds().payments_map() == pre.funds().payments_map().insert(
                    credit.id,
                    credit,
                )
                &&& ok_empty(r)
            } else {
                post == pre && is_err(r, Error::NoSectionFunds)
            }
        },
        NodeDuty::ReplicateChunk { current_holders, address, id } => {
            if pre.is_adult() {
                post == pre && ok_tasks(
                    r,
                    seq![NodeTask::Chunks(ChunkCall::Replicate { address, current_holders, id })],
                )
            } else {
                post == pre && is_err(r, Error::NoChunks)
            }
        },
        NodeDuty::GetChunkForReplication { address, new_holder, id } => {
            if pre.is_adult() {
                post == pre && ok_tasks(
                    r,
                    seq![
                        NodeTask::Chunks(ChunkCall::GetForReplication { address, new_holder, id }),
                    ],
                )
            } else {
                post == pre && is_err(r, Error::NoChunks)
            }
        },
        NodeDuty::StoreChunkForReplication { data, correlation_id } => {
            if correlation_id == combined_msg_id(data.name, ctx.our_name) {
                if pre.is_adult() {
                    post == pre && ok_tasks(
                        r,
                        seq![NodeTask::Chunks(ChunkCall::StoreReplicated { data })],
                    )
                } else {
                    post == pre && is_err(r, Error::NoChunks)
                }
            } else {
                post == pre && ok_empty(r)
            }
        },
        NodeDuty::NoOp => post == pre && ok_empty(r),
    }
}

/// A ledger duty: forwarded as one ledger call while the transfer subsystem
/// is present, a role-mismatch error otherwise.
pub open spec fn transfer_dispatch(
    pre: Node,
    post: Node,
    r: Result<Vec<NodeTask>, Error>,
    call: TransferCall,
) -> bool {
    if pre.is_elder() {
        post == pre && ok_tasks(r, seq![NodeTask::Transfers(call)])
    } else {
        post == pre && is_err(r, Error::NoTransfers)
    }
}

fn one_task(t: NodeTask) -> (r: Vec<NodeTask>)
    ensures
        r@ == seq![t],
{
    let mut ts: Vec<NodeTask> = Vec::new();
    ts.push(t);
    proof {
        assert(ts@ =~= seq![t]);
    }
    ts
}

fn propagate_credits(proofs: &Vec<CreditProof>) -> (ts: Vec<NodeTask>)
    ensures
        ts@.len() == proofs@.len(),
        forall|i: int| 0 <= i < proofs@.len() ==> ts@[i] == NodeTask::PropagateCredit(
            #[trigger] proofs@[i],
        ),
{
    let mut ts: Vec<NodeTask> = Vec::new();
    let mut i: usize = 0;
    while i < proofs.len()
        invariant
            i <= proofs@.len(),
            ts@.len() == i,
            forall|k: int| 0 <= k < i ==> ts@[k] == NodeTask::PropagateCredit(
                #[trigger] proofs@[k],
            ),
        decreases proofs@.len() - i,
    {
        ts.push(NodeTask::PropagateCredit(proofs[i]));
        i = i + 1;
    }
    ts
}

impl Node {
    /// A node before any role was assigned.
    pub fn new() -> (r: Node)
        ensures
            r.role is Uninitialized,
            r.wf(),
    {
        Node { role: Role::Uninitialized }
    }

    /// Tear the current subsystems down and stand the Elder set up from
    /// scratch.
    fn level_up(&mut self)
        ensures
            final(self).wf(),
            fresh_elder(*final(self)),
    {
        self.role = Role::Elder {
            meta_data: Metadata::new(),
            transfers: Transfers {},
            section_funds: SectionFunds::KeepingNodeWallets {
                wallets: RewardWallets::new(),
                payments: HashMap::new(),
            },
        };
    }

    pub fn get_chunks(&self) -> (r: Result<&Chunks, Error>)
        ensures
            match r {
                Ok(_) => self.role is Adult,
                Err(e) => !(self.role is Adult) && e == Error::NoChunks,
            },
    {
        match &self.role {
            Role::Adult { chunks } => Ok(chunks),
            _ => Err(Error::NoChunks),
        }
    }

    pub fn get_metadata(&self) -> (r: Result<&Metadata, Error>)
        ensures
            match r {
                Ok(m) => self.role is Elder && *m == self.meta(),
                Err(e) => !(self.role is Elder) && e == Error::NoMetadata,
            },
    {
        match &self.role {
            Role::Elder { meta_data, .. } => Ok(meta_data),
            _ => Err(Error::NoMetadata),
        }
    }

    pub fn get_transfers(&self) -> (r: Result<&Transfers, Error>)
        ensures
            match r {
                Ok(_) => self.role is Elder,
                Err(e) => !(self.role is Elder) && e == Error::NoTransfers,
            },
    {
        match &self.role {
            Role::Elder { transfers, .. } => Ok(transfers),
            _ => Err(Error::NoTransfers),
        }
    }

    pub fn get_section_funds(&self) -> (r: Result<&SectionFunds, Error>)
        ensures
            match r {
                Ok(f) => self.role is Elder && *f == self.funds(),
                Err(e) => !(self.role is Elder) && e == Error::NoSectionFunds,
            },
    {
        match &self.role {
            Role::Elder { section_funds, .. } => Ok(section_funds),
            _ => Err(Error::NoSectionFunds),
        }
    }

    /// The open churn round with the registry and payments beside it, or the
    /// role-mismatch error while no round is open.
    pub fn get_churning_funds(&self) -> (r: Result<
        (&RewardProcess, &RewardWallets, &HashMap<u64, CreditProof>),
        Error,
    >)
        ensures
            match r {
                Ok((p, w, pay)) => {
                    &&& self.is_churning()
                    &&& self.funds() matches SectionFunds::Churning { process, wallets, payments }
                        && *p == process && *w == wallets && *pay == payments
                },
                Err(e) => !self.is_churning() && e == Error::NotChurningFunds,
            },
    {
        match &self.role {
            Role::Elder {
                section_funds: SectionFunds::Churning { process, wallets, payments },
                ..
            } => Ok((process, wallets, payments)),
            _ => Err(Error::NotChurningFunds),
        }
    }

    /// Dispatch one duty against the current role, returning the follow-up
    /// tasks for the surrounding runtime.
    pub fn handle(&mut self, duty: NodeDuty, ctx: &NetworkContext) -> (r: Result<
        Vec<NodeTask>,
        Error,
    >)
        requires
            old(self).wf(),
            ctx.wf(),
            duty_wf(duty),
        ensures
            final(self).wf(),
            dispatch_transition(*old(self), *final(self), duty, *ctx, r),
    {
        match duty {
            NodeDuty::Genesis => {
                self.level_up();
                Ok(Vec::new())
            },
            NodeDuty::EldersChanged { our_key, our_prefix, newbie } => {
                if newbie {
                    self.level_up();
                    Ok(Vec::new())
                } else {
                    match &self.role {
                        Role::Elder { .. } => {
                            let msg_id = combine(our_prefix.name_value(), our_key);
                            let mut ts: Vec<NodeTask> = Vec::new();
                            ts.push(NodeTask::Transfers(TransferCall::UpdateReplicaInfo));
                            ts.push(NodeTask::PushState { prefix: our_prefix, msg_id });
                            proof {
                                assert(ts@ =~= seq![
                                    NodeTask::Transfers(TransferCall::UpdateReplicaInfo),
                                    NodeTask::PushState {
                                        prefix: our_prefix,
                                        msg_id: combined_msg_id(
                                            our_prefix.spec_name_value(),
                                            our_key,
                                        ),
                                    },
                                ]);
                            }
                            Ok(ts)
                        },
                        _ => Err(Error::NoTransfers),
                    }
                }
            },
            NodeDuty::SectionSplit { our_key, our_prefix, sibling_key, newbie } => {
                if newbie {
                    self.level_up();
                    Ok(Vec::new())
                } else {
                    match &mut self.role {
                        Role::Elder { section_funds, .. } => {
                            let process = RewardProcess::new(our_key, ctx.elder_quorum);
                            let mut settled = SectionFunds::KeepingNodeWallets {
                                wallets: RewardWallets::new(),
                                payments: HashMap::new(),
                            };
                            core::mem::swap(section_funds, &mut settled);
                            match settled {
                                SectionFunds::Churning { wallets, payments, .. } => {
                                    *section_funds = SectionFunds::Churning {
                                        process,
                                        wallets,
                                        payments,
                                    };
                                },
                                SectionFunds::KeepingNodeWallets { wallets, payments } => {
                                    *section_funds = SectionFunds::Churning {
                                        process,
                                        wallets,
                                        payments,
                                    };
                                },
                            }
                            Ok(one_task(NodeTask::ProposeRewardSplit { our_key, sibling_key }))
                        },
                        _ => Err(Error::NoSectionFunds),
                    }
                }
            },
            NodeDuty::GetSectionElders { msg_id, origin } => Ok(
                one_task(NodeTask::SendSectionElders { msg_id, origin, prefix: ctx.our_prefix }),
            ),
            NodeDuty::ReceiveRewardProposal(proposal) => {
                match &mut self.role {
                    Role::Elder { section_funds, .. } => {
                        match section_funds {
                            SectionFunds::Churning { process, .. } => {
                                match process.receive_churn_proposal(&proposal) {
                                    Ok(t) => Ok(one_task(t)),
                                    Err(e) => Err(e),
                                }
                            },
                            SectionFunds::KeepingNodeWallets { .. } => Ok(Vec::new()),
                        }
                    },
                    _ => Err(Error::NoSectionFunds),
                }
            },
            NodeDuty::ReceiveRewardAccumulation(acc) => {
                match &mut self.role {
                    Role::Elder { section_funds, .. } => {
                        match section_funds {
                            SectionFunds::Churning { process, .. } => {
                                match process.receive_wallet_accumulation(acc) {
                                    Err(e) => Err(e),
                                    Ok(_u) => {
                                        let mut done: Option<Vec<NodeTask>> = None;
                                        match process.stage() {
                                            RewardStage::Completed(proofs) => {
                                                done = Some(propagate_credits(proofs));
                                            },
                                            _ => {},
                                        }
                                        match done {
                                            Some(ts) => {
                                                let mut settled =
                                                    SectionFunds::KeepingNodeWallets {
                                                    wallets: RewardWallets::new(),
                                                    payments: HashMap::new(),
                                                };
                                                core::mem::swap(section_funds, &mut settled);
                                                match settled {
                                                    SectionFunds::Churning {
                                                        wallets,
                                                        payments,
                                                        ..
                                                    } => {
                                                        *section_funds =
                                                            SectionFunds::KeepingNodeWallets {
                                                            wallets,
                                                            payments,
                                                        };
                                                    },
                                                    SectionFunds::KeepingNodeWallets { .. } => {},
                                                }
                                                Ok(ts)
                                            },
                                            None => Ok(Vec::new()),
                                        }
                                    },
                                }
                            },
                            SectionFunds::KeepingNodeWallets { .. } => Ok(Vec::new()),
                        }
                    },
                    _ => Err(Error::NoSectionFunds),
                }
            },
            NodeDuty::SetNodeWallet { wallet_id, node_id, msg_id: _, origin: _ } => {
                match &mut self.role {
                    Role::Elder { section_funds, .. } => {
                        match ctx.members.get(&node_id) {
                            Some(age) => {
                                let a = *age;
                                section_funds.set_node_wallet(node_id, wallet_id, a);
                                Ok(Vec::new())
                            },
                            None => Err(Error::NodeNotFoundForReward),
                        }
                    },
                    _ => Err(Error::NoSectionFunds),
                }
            },
            NodeDuty::GetNodeWalletKey { .. } => Ok(Vec::new()),
            NodeDuty::ProcessLostMember { name, age: _ } => {
                match &mut self.role {
                    Role::Elder { meta_data, section_funds, .. } => {
                        section_funds.remove_node_wallet(name);
                        Ok(meta_data.trigger_chunk_replication(name))
                    },
                    _ => Err(Error::NoSectionFunds),
                }
            },
            NodeDuty::SynchState { node_rewards, user_wallets: _ } => {
                match &mut self.role {
                    Role::Elder { section_funds, .. } => {
                        let mut w = RewardWallets::new();
                        let mut i: usize = 0;
                        while i < node_rewards.len()
                            invariant
                                i <= node_rewards@.len(),
                                w@ == wallets_of(node_rewards@.take(i as int)),
                            decreases node_rewards@.len() - i,
                        {
                            let e = node_rewards[i];
                            w.set_node_wallet(e.node, e.wallet, e.age);
                            proof {
                                let t1 = node_rewards@.take(i as int + 1);
                                assert(t1.drop_last() =~= node_rewards@.take(i as int));
                                assert(t1.last() == node_rewards@[i as int]);
                            }
                            i = i + 1;
                        }
                        proof {
                            assert(node_rewards@.take(node_rewards@.len() as int)
                                =~= node_rewards@);
                        }
                        section_funds.replace_wallets(w);
                        Ok(Vec::new())
                    },
                    _ => Err(Error::NoSectionFunds),
                }
            },
            NodeDuty::LevelDown => {
                self.role = Role::Adult { chunks: Chunks {} };
                Ok(Vec::new())
            },
            NodeDuty::GetTransferReplicaEvents { msg_id, origin } => self.transfer_task(
                TransferCall::AllEvents { msg_id, origin },
            ),
            NodeDuty::PropagateTransfer { proof, msg_id, origin } => self.transfer_task(
                TransferCall::ReceivePropagated { proof, msg_id, origin },
            ),
            NodeDuty::ValidateClientTransfer { signed_transfer, msg_id, origin } => self
                .transfer_task(TransferCall::Validate { signed_transfer, msg_id, origin }),
            NodeDuty::SimulatePayout { transfer, .. } => self.transfer_task(
                TransferCall::CreditWithoutProof { transfer },
            ),
            NodeDuty::GetTransfersHistory { at, since_version, msg_id, origin } => self
                .transfer_task(TransferCall::History { at, since_version, msg_id, origin }),
            NodeDuty::GetBalance { at, msg_id, origin } => self.transfer_task(
                TransferCall::Balance { at, msg_id, origin },
            ),
            NodeDuty::GetStoreCost { requester, bytes, msg_id, origin } => self.transfer_task(
                TransferCall::StoreCost { requester, bytes, msg_id, origin },
            ),
            NodeDuty::RegisterTransfer { proof, msg_id } => self.transfer_task(
                TransferCall::Register { proof, msg_id },
            ),
            NodeDuty::IncrementFullNodeCount { node_id } => self.transfer_task(
                TransferCall::IncreaseFullNodeCount { node_id },
            ),
            NodeDuty::ProcessDataPayment { msg, origin } => self.transfer_task(
                TransferCall::ProcessPayment { msg, origin },
            ),
            NodeDuty::ReadChunk { read, msg_id, origin } => {
                if ctx.our_prefix.matches(read.address) {
                    match &self.role {
                        Role::Adult { .. } => {
                            let mut ts: Vec<NodeTask> = Vec::new();
                            ts.push(NodeTask::Chunks(ChunkCall::Read { read, msg_id, origin }));
                            ts.push(NodeTask::Chunks(ChunkCall::CheckStorage));
                            proof {
                                assert(ts@ =~= seq![
                                    NodeTask::Chunks(ChunkCall::Read { read, msg_id, origin }),
                                    NodeTask::Chunks(ChunkCall::CheckStorage),
                                ]);
                            }
                            Ok(ts)
                        },
                        _ => Err(Error::NoChunks),
                    }
                } else {
                    Ok(
                        one_task(
                            NodeTask::ForwardChunkRead {
                                read,
                                msg_id,
                                origin,
                                dst: read.address,
                            },
                        ),
                    )
                }
            },
            NodeDuty::WriteChunk { write, msg_id, origin } => {
                match &self.role {
                    Role::Adult { .. } => Ok(
                        one_task(NodeTask::Chunks(ChunkCall::Write { write, msg_id, origin })),
                    ),
                    _ => Err(Error::NoChunks),
                }
            },
            NodeDuty::ReachingMaxCapacity => Ok(one_task(NodeTask::NotifySectionOfOurStorage)),
            NodeDuty::Send(msg) => Ok(one_task(NodeTask::Outbound(msg))),
            NodeDuty::SendToNodes { targets, msg } => Ok(
                one_task(NodeTask::OutboundToNodes { targets, msg }),
            ),
            NodeDuty::SetNodeJoinsAllowed(allowed) => Ok(
                one_task(NodeTask::SetJoinsAllowed(allowed)),
            ),
            NodeDuty::ProcessRead { query, id, origin } => {
                if ctx.our_prefix.matches(query.dst) {
                    match &self.role {
                        Role::Elder { .. } => Ok(
                            one_task(NodeTask::Metadata(MetadataCall::Read { query, id, origin })),
                        ),
                        _ => Err(Error::NoMetadata),
                    }
                } else {
                    Ok(one_task(NodeTask::ForwardDataRead { query, id, origin, dst: query.dst }))
                }
            },
            NodeDuty::ProcessWrite { cmd, id, origin } => {
                match &self.role {
                    Role::Elder { .. } => Ok(
                        one_task(NodeTask::Metadata(MetadataCall::Write { cmd, id, origin })),
                    ),
                    _ => Err(Error::NoMetadata),
                }
            },
            NodeDuty::AddPayment(credit) => {
                match &mut self.role {
                    Role::Elder { section_funds, .. } => {
                        section_funds.add_payment(credit);
                        Ok(Vec::new())
                    },
                    _ => Err(Error::NoSectionFunds),
                }
            },
            NodeDuty::ReplicateChunk { current_holders, address, id } => {
                match &self.role {
                    Role::Adult { .. } => Ok(
                        one_task(
                            NodeTask::Chunks(
                                ChunkCall::Replicate { address, current_holders, id },
                            ),
                        ),
                    ),
                    _ => Err(Error::NoChunks),
                }
            },
            NodeDuty::GetChunkForReplication { address, new_holder, id } => {
                match &self.role {
                    Role::Adult { .. } => Ok(
                        one_task(
                            NodeTask::Chunks(
                                ChunkCall::GetForReplication { address, new_holder, id },
                            ),
                        ),
                    ),
                    _ => Err(Error::NoChunks),
                }
            },
            NodeDuty::StoreChunkForReplication { data, correlation_id } => {
                let expected = combine(data.name, ctx.our_name);
                if expected == correlation_id {
                    match &self.role {
                        Role::Adult { .. } => Ok(
                            one_task(NodeTask::Chunks(ChunkCall::StoreReplicated { data })),
                        ),
                        _ => Err(Error::NoChunks),
                    }
                } else {
                    Ok(Vec::new())
                }
            },
            NodeDuty::NoOp => Ok(Vec::new()),
        }
    }

    /// Forward one ledger duty while the transfer subsystem is present.
    fn transfer_task(&mut self, call: TransferCall) -> (r: Result<Vec<NodeTask>, Error>)
        ensures
            *final(self) == *old(self),
            transfer_dispatch(*old(self), *final(self), r, call),
    {
        match &self.role {
            Role::Elder { .. } => Ok(one_task(NodeTask::Transfers(call))),
            _ => Err(Error::NoTransfers),
        }
    }
}

} // verus!
