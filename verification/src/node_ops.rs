//! The duty vocabulary: the closed set of commands the dispatcher accepts,
//! the tasks it hands back to the surrounding runtime, and the typed errors.
//!
//! Network-level values (names, addresses, keys, message payloads) are carried
//! as plain 64-bit handles: the dispatcher reads only equality and prefix
//! membership of them, never their internal structure.

use vstd::prelude::*;

verus! {

/// A section prefix: the leading `bit_count` bits of `name` identify the
/// portion of the address space this section is responsible for.
#[derive(Clone, Copy, PartialEq, Eq, Structural, Debug)]
pub struct Prefix {
    pub name: u64,
    pub bit_count: u8,
}

impl Prefix {
    /// A prefix is meaningful only while it names at most 64 leading bits.
    pub open spec fn wf(self) -> bool {
        self.bit_count <= 64
    }

    /// Whether `addr` falls under this section's responsibility.
    pub open spec fn spec_matches(self, addr: u64) -> bool {
        if self.bit_count == 0 {
            true
        } else {
            addr >> ((64 - self.bit_count) as u64) == self.name >> ((64 - self.bit_count) as u64)
        }
    }

    /// The lowest address covered by the prefix.
    pub open spec fn spec_name_value(self) -> u64 {
        if self.bit_count == 0 {
            0u64
        } else {
            (self.name >> ((64 - self.bit_count) as u64)) << ((64 - self.bit_count) as u64)
        }
    }

    pub fn matches(&self, addr: u64) -> (r: bool)
        requires
            self.wf(),
        ensures
            r == self.spec_matches(addr),
    {
        if self.bit_count == 0 {
            true
        } else {
            let shift: u64 = (64 - self.bit_count) as u64;
            addr >> shift == self.name >> shift
        }
    }

    /// The lowest address covered by the prefix, used as its name.
    pub fn name_value(&self) -> (r: u64)
        requires
            self.wf(),
        ensures
            r == self.spec_name_value(),
    {
        if self.bit_count == 0 {
            0
        } else {
            let shift: u64 = (64 - self.bit_count) as u64;
            (self.name >> shift) << shift
        }
    }
}

/// A quorum-certified entitlement to one reward payment, identified by `id`.
/// Immutable once constructed.
#[derive(Clone, Copy, PartialEq, Eq, Structural, Debug)]
pub struct CreditProof {
    pub id: u64,
    pub recipient: u64,
    pub amount: u64,
}

/// One peer Elder's piece of evidence toward the quorum of a single credit.
#[derive(Clone, Copy, PartialEq, Eq, Structural, Debug)]
pub struct CreditAccumulation {
    pub credit: CreditProof,
    pub source: u64,
}

/// A peer Elder's proposed split of the section funds for one churn round.
#[derive(Clone, PartialEq, Eq, Debug)]
pub struct RewardProposal {
    pub section_key: u64,
    pub credits: Vec<CreditProof>,
}

/// Payout wallet and age recorded for one node.
#[derive(Clone, Copy, PartialEq, Eq, Structural, Debug)]
pub struct NodeWallet {
    pub wallet: u64,
    pub age: u8,
}

/// One wallet-registry entry as carried by a state-synchronisation duty.
#[derive(Clone, Copy, PartialEq, Eq, Structural, Debug)]
pub struct WalletEntry {
    pub node: u64,
    pub wallet: u64,
    pub age: u8,
}

/// A chunk read query; the dispatcher reads only its destination address.
#[derive(Clone, Copy, PartialEq, Eq, Structural, Debug)]
pub struct ChunkRead {
    pub address: u64,
    pub payload: u64,
}

/// A chunk write command, opaque to the dispatcher.
#[derive(Clone, Copy, PartialEq, Eq, Structural, Debug)]
pub struct ChunkWrite {
    pub payload: u64,
}

/// A chunk travelling for replication: its content address name and payload.
#[derive(Clone, Copy, PartialEq, Eq, Structural, Debug)]
pub struct ChunkData {
    pub name: u64,
    pub payload: u64,
}

/// A metadata query or command; the dispatcher reads only its destination.
#[derive(Clone, Copy, PartialEq, Eq, Structural, Debug)]
pub struct DataQuery {
    pub dst: u64,
    pub payload: u64,
}

/// A message handed to the outbound transport.
#[derive(Clone, Copy, PartialEq, Eq, Structural, Debug)]
pub struct OutgoingMsg {
    pub msg: u64,
    pub dst: u64,
}

/// The typed failures a dispatch call can surface.
#[derive(Clone, Copy, PartialEq, Eq, Structural, Debug)]
pub enum Error {
    /// Chunk-storage duty while the chunk subsystem is absent.
    NoChunks,
    /// Metadata duty while the metadata subsystem is absent.
    NoMetadata,
    /// Transfer duty while the transfer subsystem is absent.
    NoTransfers,
    /// Funds duty while the section-funds subsystem is absent.
    NoSectionFunds,
    /// Churn-process access while no churn round is open.
    NotChurningFunds,
    /// Wallet registration for an identity absent from current membership.
    NodeNotFoundForReward,
    /// A churn proposal that does not fit the open round.
    InvalidChurnProposal,
    /// Accumulation evidence that does not fit the open round.
    InvalidChurnEvidence,
}

/// The closed vocabulary of duties the dispatcher accepts.
#[derive(Clone, PartialEq, Eq, Debug)]
pub enum NodeDuty {
    Genesis,
    EldersChanged { our_key: u64, our_prefix: Prefix, newbie: bool },
    SectionSplit { our_key: u64, our_prefix: Prefix, sibling_key: u64, newbie: bool },
    GetSectionElders { msg_id: u64, origin: u64 },
    ReceiveRewardProposal(RewardProposal),
    ReceiveRewardAccumulation(CreditAccumulation),
    SetNodeWallet { wallet_id: u64, node_id: u64, msg_id: u64, origin: u64 },
    GetNodeWalletKey { node_name: u64, msg_id: u64, origin: u64 },
    ProcessLostMember { name: u64, age: u8 },
    SynchState { node_rewards: Vec<WalletEntry>, user_wallets: u64 },
    LevelDown,
    GetTransferReplicaEvents { msg_id: u64, origin: u64 },
    PropagateTransfer { proof: u64, msg_id: u64, origin: u64 },
    ValidateClientTransfer { signed_transfer: u64, msg_id: u64, origin: u64 },
    SimulatePayout { transfer: u64, msg_id: u64, origin: u64 },
    GetTransfersHistory { at: u64, since_version: u64, msg_id: u64, origin: u64 },
    GetBalance { at: u64, msg_id: u64, origin: u64 },
    GetStoreCost { requester: u64, bytes: u64, msg_id: u64, origin: u64 },
    RegisterTransfer { proof: u64, msg_id: u64 },
    ReadChunk { read: ChunkRead, msg_id: u64, origin: u64 },
    WriteChunk { write: ChunkWrite, msg_id: u64, origin: u64 },
    ReachingMaxCapacity,
    IncrementFullNodeCount { node_id: u64 },
    Send(OutgoingMsg),
    SendToNodes { targets: Vec<u64>, msg: u64 },
    SetNodeJoinsAllowed(bool),
    ProcessRead { query: DataQuery, id: u64, origin: u64 },
    ProcessWrite { cmd: DataQuery, id: u64, origin: u64 },
    ProcessDataPayment { msg: u64, origin: u64 },
    AddPayment(CreditProof),
    ReplicateChunk { current_holders: Vec<u64>, address: u64, id: u64 },
    GetChunkForReplication { address: u64, new_holder: u64, id: u64 },
    StoreChunkForReplication { data: ChunkData, correlation_id: u64 },
    NoOp,
}

/// A call the runtime must make into the chunk storage engine.
#[derive(Clone, PartialEq, Eq, Debug)]
pub enum ChunkCall {
    Read { read: ChunkRead, msg_id: u64, origin: u64 },
    Write { write: ChunkWrite, msg_id: u64, origin: u64 },
    CheckStorage,
    Replicate { address: u64, current_holders: Vec<u64>, id: u64 },
    GetForReplication { address: u64, new_holder: u64, id: u64 },
    StoreReplicated { data: ChunkData },
}

/// A call the runtime must make into the metadata storage engine.
#[derive(Clone, Copy, PartialEq, Eq, Structural, Debug)]
pub enum MetadataCall {
    Read { query: DataQuery, id: u64, origin: u64 },
    Write { cmd: DataQuery, id: u64, origin: u64 },
}

/// A call the runtime must make into the transfer ledger.
#[derive(Clone, Copy, PartialEq, Eq, Structural, Debug)]
pub enum TransferCall {
    AllEvents { msg_id: u64, origin: u64 },
    ReceivePropagated { proof: u64, msg_id: u64, origin: u64 },
    Validate { signed_transfer: u64, msg_id: u64, origin: u64 },
    CreditWithoutProof { transfer: u64 },
    History { at: u64, since_version: u64, msg_id: u64, origin: u64 },
    Balance { at: u64, msg_id: u64, origin: u64 },
    StoreCost { requester: u64, bytes: u64, msg_id: u64, origin: u64 },
    Register { proof: u64, msg_id: u64 },
    IncreaseFullNodeCount { node_id: u64 },
    ProcessPayment { msg: u64, origin: u64 },
    UpdateReplicaInfo,
}

/// What one dispatch call asks the surrounding runtime to do next: feed a
/// follow-up duty back in, send something outward, or call a collaborator.
#[derive(Clone, PartialEq, Eq, Debug)]
pub enum NodeTask {
    Duty(NodeDuty),
    Outbound(OutgoingMsg),
    /// A message for a named set of nodes.
    OutboundToNodes { targets: Vec<u64>, msg: u64 },
    Chunks(ChunkCall),
    Metadata(MetadataCall),
    Transfers(TransferCall),
    /// Push our replicated state to the new Elder set, deduplicable by the
    /// deterministic `msg_id`.
    PushState { prefix: Prefix, msg_id: u64 },
    /// Answer a remote section's query for this section's Elders.
    SendSectionElders { msg_id: u64, origin: u64, prefix: Prefix },
    /// Broadcast our proposed reward split for a new churn round.
    ProposeRewardSplit { our_key: u64, sibling_key: u64 },
    /// Broadcast our accumulation vote for the open churn round.
    BroadcastAccumulation { section_key: u64 },
    /// Hand one finalized credit to its payee's home section.
    PropagateCredit(CreditProof),
    /// Tell our section that this node is running out of storage.
    NotifySectionOfOurStorage,
    /// Ask the membership layer to open or close joining.
    SetJoinsAllowed(bool),
    /// A data operation outside our prefix, forwarded to the owning section.
    ForwardChunkRead { read: ChunkRead, msg_id: u64, origin: u64, dst: u64 },
    /// A metadata operation outside our prefix, forwarded likewise.
    ForwardDataRead { query: DataQuery, id: u64, origin: u64, dst: u64 },
}

} // verus!
