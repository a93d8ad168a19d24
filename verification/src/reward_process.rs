//! The state machine driving one churn round's reward-splitting protocol.
//!
//! A round moves `AwaitingProposals -> Accumulating -> Completed`.  A peer
//! Elder's proposal fixes the set of credits under negotiation; accumulation
//! evidence then gathers, per credit, the set of peer Elders vouching for it.
//! The round completes exactly when every credit has reached quorum.  The
//! merge is idempotent on duplicate evidence and depends only on the set of
//! evidence received, never on arrival order; both laws are proved in
//! `reward_laws` against the same `step` function the executable operations
//! are verified against.
//!
//! No timeout is modelled here.  A round whose quorum is never reached (for
//! instance after permanent peer loss) is assumed to be superseded by a
//! later membership change, which opens a fresh round; that liveness is owed
//! by the surrounding membership protocol, not by this state machine.

use vstd::prelude::*;
use crate::node_ops::{CreditAccumulation, CreditProof, Error, NodeTask, RewardProposal};

verus! {

/// Model of one credit under negotiation: the proposed credit and the set of
/// peer Elders that have vouched for it so far.
pub struct PendingModel {
    pub credit: CreditProof,
    pub sources: Set<u64>,
}

/// Model of the round's stage.
pub enum StageModel {
    Awaiting,
    Accumulating(Seq<PendingModel>),
    Completed(Seq<CreditProof>),
}

/// Model of a whole churn round.
pub struct ProcessModel {
    pub section_key: u64,
    pub quorum: usize,
    pub stage: StageModel,
}

pub open spec fn entries_wf(entries: Seq<PendingModel>) -> bool {
    &&& forall|i: int| 0 <= i < entries.len() ==> (#[trigger] entries[i]).sources.finite()
    &&& forall|i: int, j: int|
        0 <= i < entries.len() && 0 <= j < entries.len() && i != j ==> (#[trigger] entries[i]).credit.id
            != (#[trigger] entries[j]).credit.id
}

pub open spec fn model_wf(m: ProcessModel) -> bool {
    match m.stage {
        StageModel::Accumulating(entries) => entries_wf(entries),
        _ => true,
    }
}

/// Whether the round, in this stage, has an entry the evidence fits: an
/// equal proposed credit.
pub open spec fn accepts_entries(entries: Seq<PendingModel>, e: CreditAccumulation) -> bool {
    exists|i: int| 0 <= i < entries.len() && (#[trigger] entries[i]).credit == e.credit
}

/// One merge: the vouching source is added to the entry carrying the same
/// credit identifier; every other entry is untouched.
pub open spec fn merge_entries(entries: Seq<PendingModel>, e: CreditAccumulation) -> Seq<
    PendingModel,
> {
    entries.map_values(
        |p: PendingModel|
            if p.credit.id == e.credit.id {
                PendingModel { credit: p.credit, sources: p.sources.insert(e.source) }
            } else {
                p
            },
    )
}

/// Whether every credit under negotiation has reached quorum evidence.
pub open spec fn all_quorum(entries: Seq<PendingModel>, quorum: usize) -> bool {
    forall|i: int| 0 <= i < entries.len() ==> (#[trigger] entries[i]).sources.len() >= quorum
}

/// The finalized proofs of a completing round, one per credit, in proposal
/// order.
pub open spec fn proofs_of(entries: Seq<PendingModel>) -> Seq<CreditProof> {
    entries.map_values(|p: PendingModel| p.credit)
}

/// Whether one piece of evidence is accepted by the round in state `m`.
pub open spec fn accepts(m: ProcessModel, e: CreditAccumulation) -> bool {
    match m.stage {
        StageModel::Accumulating(entries) => accepts_entries(entries, e),
        _ => false,
    }
}

/// What receiving one piece of accumulation evidence does to the round.
/// Rejected evidence (wrong stage, or no entry it fits) leaves the round
/// unchanged; an accepted merge that brings every credit to quorum completes
/// the round.
pub open spec fn step(m: ProcessModel, e: CreditAccumulation) -> ProcessModel {
    match m.stage {
        StageModel::Accumulating(entries) => {
            if accepts_entries(entries, e) {
                let merged = merge_entries(entries, e);
                if all_quorum(merged, m.quorum) {
                    ProcessModel { stage: StageModel::Completed(proofs_of(entries)), ..m }
                } else {
                    ProcessModel { stage: StageModel::Accumulating(merged), ..m }
                }
            } else {
                m
            }
        },
        _ => m,
    }
}

/// The round after a whole sequence of evidence, received left to right.
pub open spec fn run(m: ProcessModel, es: Seq<CreditAccumulation>) -> ProcessModel
    decreases es.len(),
{
    if es.len() == 0 {
        m
    } else {
        run(step(m, es.first()), es.drop_first())
    }
}

/// One credit under negotiation, as executed: the proposed credit and the
/// distinct peer Elders that have vouched for it.
#[derive(Clone, PartialEq, Eq, Debug)]
pub struct PendingCredit {
    pub credit: CreditProof,
    pub sources: Vec<u64>,
}

impl PendingCredit {
    pub open spec fn model(self) -> PendingModel {
        PendingModel { credit: self.credit, sources: self.sources@.to_set() }
    }

    pub open spec fn wf(self) -> bool {
        self.sources@.no_duplicates()
    }
}

/// The execution stage of one churn round.
#[derive(Clone, PartialEq, Eq, Debug)]
pub enum RewardStage {
    AwaitingProposals,
    Accumulating(Vec<PendingCredit>),
    Completed(Vec<CreditProof>),
}

pub open spec fn entry_models(v: Seq<PendingCredit>) -> Seq<PendingModel> {
    v.map_values(|p: PendingCredit| p.model())
}

impl RewardStage {
    pub open spec fn model(self) -> StageModel {
        match self {
            RewardStage::AwaitingProposals => StageModel::Awaiting,
            RewardStage::Accumulating(v) => StageModel::Accumulating(entry_models(v@)),
            RewardStage::Completed(v) => StageModel::Completed(v@),
        }
    }

    pub open spec fn wf(self) -> bool {
        match self {
            RewardStage::Accumulating(v) => {
                &&& forall|i: int| 0 <= i < v@.len() ==> (#[trigger] v@[i]).wf()
                &&& forall|i: int, j: int|
                    0 <= i < v@.len() && 0 <= j < v@.len() && i != j ==> (#[trigger] v@[i]).credit.id
                        != (#[trigger] v@[j]).credit.id
            },
            _ => true,
        }
    }
}

/// `fresh_entries` is the accumulation state fixed by an accepted proposal:
/// one entry per proposed credit, no evidence yet.
pub open spec fn fresh_entries(credits: Seq<CreditProof>) -> Seq<PendingModel> {
    credits.map_values(|c: CreditProof| PendingModel { credit: c, sources: Set::<u64>::empty() })
}

pub open spec fn credit_ids_distinct(credits: Seq<CreditProof>) -> bool {
    forall|i: int, j: int|
        0 <= i < credits.len() && 0 <= j < credits.len() && i != j ==> (#[trigger] credits[i]).id
            != (#[trigger] credits[j]).id
}

/// What one proposal does to the round: an awaited, fitting proposal opens
/// accumulation; a fitting proposal during accumulation is re-acknowledged
/// without change; anything else is refused without change.
pub open spec fn proposal_transition(
    pre: ProcessModel,
    post: ProcessModel,
    section_key: u64,
    credits: Seq<CreditProof>,
    r: Result<NodeTask, Error>,
) -> bool {
    &&& post.section_key == pre.section_key
    &&& post.quorum == pre.quorum
    &&& match pre.stage {
        StageModel::Awaiting => {
            if section_key == pre.section_key && credit_ids_distinct(credits) {
                &&& post.stage == StageModel::Accumulating(fresh_entries(credits))
                &&& r == Ok::<NodeTask, Error>(
                    NodeTask::BroadcastAccumulation { section_key: pre.section_key },
                )
            } else {
                &&& post == pre
                &&& r == Err::<NodeTask, Error>(Error::InvalidChurnProposal)
            }
        },
        StageModel::Accumulating(_) => {
            if section_key == pre.section_key {
                &&& post == pre
                &&& r == Ok::<NodeTask, Error>(
                    NodeTask::BroadcastAccumulation { section_key: pre.section_key },
                )
            } else {
                &&& post == pre
                &&& r == Err::<NodeTask, Error>(Error::InvalidChurnProposal)
            }
        },
        StageModel::Completed(_) => {
            &&& post == pre
            &&& r == Err::<NodeTask, Error>(Error::InvalidChurnProposal)
        },
    }
}

fn vec_contains(v: &Vec<u64>, x: u64) -> (r: bool)
    ensures
        r == v@.contains(x),
{
    let mut i: usize = 0;
    while i < v.len()
        invariant
            i <= v@.len(),
            forall|k: int| 0 <= k < i ==> v@[k] != x,
        decreases v@.len() - i,
    {
        if v[i] == x {
            return true;
        }
        i = i + 1;
    }
    false
}

fn copy_sources(v: &Vec<u64>) -> (r: Vec<u64>)
    ensures
        r@ == v@,
{
    let mut out: Vec<u64> = Vec::new();
    let mut i: usize = 0;
    while i < v.len()
        invariant
            i <= v@.len(),
            out@ == v@.take(i as int),
        decreases v@.len() - i,
    {
        out.push(v[i]);
        proof {
            assert(v@.take(i as int + 1) =~= v@.take(i as int).push(v@[i as int]));
        }
        i = i + 1;
    }
    proof {
        assert(v@.take(v@.len() as int) =~= v@);
    }
    out
}

/// The accumulation state opened by a proposal, or nothing when two proposed
/// credits collide on one identifier.
fn build_fresh_entries(credits: &Vec<CreditProof>) -> (r: Option<Vec<PendingCredit>>)
    ensures
        match r {
            Some(v) => {
                &&& credit_ids_distinct(credits@)
                &&& entry_models(v@) == fresh_entries(credits@)
                &&& RewardStage::Accumulating(v).wf()
            },
            None => !credit_ids_distinct(credits@),
        },
{
    let mut entries: Vec<PendingCredit> = Vec::new();
    let mut i: usize = 0;
    while i < credits.len()
        invariant
            i <= credits@.len(),
            entries@.len() == i,
            forall|k: int| 0 <= k < i ==> (#[trigger] entries@[k]).credit == credits@[k],
            forall|k: int| 0 <= k < i ==> (#[trigger] entries@[k]).sources@ == Seq::<u64>::empty(),
            forall|k: int, l: int|
                0 <= k < i && 0 <= l < i && k != l ==> (#[trigger] entries@[k]).credit.id
                    != (#[trigger] entries@[l]).credit.id,
        decreases credits@.len() - i,
    {
        let c = credits[i];
        let mut j: usize = 0;
        while j < entries.len()
            invariant
                j <= entries@.len(),
                entries@.len() == i,
                i < credits@.len(),
                c == credits@[i as int],
                forall|k: int| 0 <= k < i ==> (#[trigger] entries@[k]).credit == credits@[k],
                forall|k: int| 0 <= k < j ==> (#[trigger] entries@[k]).credit.id != c.id,
            decreases entries@.len() - j,
        {
            if entries[j].credit.id == c.id {
                proof {
                    assert(credits@[j as int].id == credits@[i as int].id);
                }
                return None;
            }
            j = j + 1;
        }
        entries.push(PendingCredit { credit: c, sources: Vec::new() });
        i = i + 1;
    }
    proof {
        assert forall|k: int| 0 <= k < entries@.len() implies entry_models(entries@)[k]
            == fresh_entries(credits@)[k] by {
            assert(entries@[k].sources@.to_set() =~= Set::<u64>::empty());
        }
        assert(entry_models(entries@) =~= fresh_entries(credits@));
        assert forall|k: int, l: int|
            0 <= k < credits@.len() && 0 <= l < credits@.len() && k != l implies (
        #[trigger] credits@[k]).id != (#[trigger] credits@[l]).id by {
            assert(entries@[k].credit == credits@[k]);
            assert(entries@[l].credit == credits@[l]);
        }
        assert forall|k: int| 0 <= k < entries@.len() implies (#[trigger] entries@[k]).wf() by {
            assert(entries@[k].sources@ == Seq::<u64>::empty());
        }
    }
    Some(entries)
}

/// The index of the entry carrying an equal proposed credit, if any.
fn find_credit(entries: &Vec<PendingCredit>, credit: CreditProof) -> (r: Option<usize>)
    ensures
        match r {
            Some(i) => i < entries@.len() && entries@[i as int].credit == credit,
            None => forall|k: int|
                0 <= k < entries@.len() ==> (#[trigger] entries@[k]).credit != credit,
        },
{
    let mut i: usize = 0;
    while i < entries.len()
        invariant
            i <= entries@.len(),
            forall|k: int| 0 <= k < i ==> (#[trigger] entries@[k]).credit != credit,
        decreases entries@.len() - i,
    {
        if entries[i].credit == credit {
            return Some(i);
        }
        i = i + 1;
    }
    None
}

/// Whether every entry has gathered at least `quorum` distinct sources.
fn check_all_quorum(v: &Vec<PendingCredit>, quorum: usize) -> (r: bool)
    requires
        forall|i: int| 0 <= i < v@.len() ==> (#[trigger] v@[i]).wf(),
    ensures
        r == all_quorum(entry_models(v@), quorum),
{
    let mut ok: bool = true;
    let mut i: usize = 0;
    while i < v.len()
        invariant
            i <= v@.len(),
            forall|k: int| 0 <= k < v@.len() ==> (#[trigger] v@[k]).wf(),
            ok == (forall|k: int|
                0 <= k < i ==> (#[trigger] entry_models(v@)[k]).sources.len() >= quorum),
        decreases v@.len() - i,
    {
        proof {
            v@[i as int].sources@.unique_seq_to_set();
            assert(entry_models(v@)[i as int] == v@[i as int].model());
        }
        if v[i].sources.len() < quorum {
            ok = false;
            proof {
                assert(entry_models(v@)[i as int].sources.len() < quorum);
            }
        }
        i = i + 1;
    }
    ok
}

/// The state machine of one churn round.
pub struct RewardProcess {
    pub section_key: u64,
    pub quorum: usize,
    pub stage: RewardStage,
}

impl RewardProcess {
    pub open spec fn model(self) -> ProcessModel {
        ProcessModel { section_key: self.section_key, quorum: self.quorum, stage: self.stage.model() }
    }

    pub open spec fn wf(self) -> bool {
        self.stage.wf()
    }

    /// Open a round for the given section key; the quorum threshold is
    /// derived from section membership by the caller.
    pub fn new(section_key: u64, quorum: usize) -> (r: Self)
        ensures
            r.model() == (ProcessModel { section_key, quorum, stage: StageModel::Awaiting }),
            r.wf(),
    {
        RewardProcess { section_key, quorum, stage: RewardStage::AwaitingProposals }
    }

    /// Read-only snapshot of the current stage, used by the caller to detect
    /// the `Completed` transition without mutating.
    pub fn stage(&self) -> (r: &RewardStage)
        ensures
            *r == self.stage,
    {
        &self.stage
    }

    /// Record a peer Elder's proposed reward split and answer with our own
    /// accumulation vote.
    pub fn receive_churn_proposal(&mut self, proposal: &RewardProposal) -> (r: Result<
        NodeTask,
        Error,
    >)
        requires
            old(self).wf(),
        ensures
            final(self).wf(),
            proposal_transition(
                old(self).model(),
                final(self).model(),
                proposal.section_key,
                proposal.credits@,
                r,
            ),
    {
        match &self.stage {
            RewardStage::AwaitingProposals => {
                if proposal.section_key != self.section_key {
                    return Err(Error::InvalidChurnProposal);
                }
                match build_fresh_entries(&proposal.credits) {
                    Some(entries) => {
                        self.stage = RewardStage::Accumulating(entries);
                        Ok(NodeTask::BroadcastAccumulation { section_key: self.section_key })
                    },
                    None => Err(Error::InvalidChurnProposal),
                }
            },
            RewardStage::Accumulating(_) => {
                if proposal.section_key != self.section_key {
                    return Err(Error::InvalidChurnProposal);
                }
                Ok(NodeTask::BroadcastAccumulation { section_key: self.section_key })
            },
            RewardStage::Completed(_) => Err(Error::InvalidChurnProposal),
        }
    }

    /// Merge one piece of accumulation evidence; completes the round when
    /// the merge brings every credit to quorum.
    pub fn receive_wallet_accumulation(&mut self, acc: CreditAccumulation) -> (r: Result<
        (),
        Error,
    >)
        requires
            old(self).wf(),
        ensures
            final(self).wf(),
            final(self).model() == step(old(self).model(), acc),
            r is Ok <==> accepts(old(self).model(), acc),
            r is Err ==> *final(self) == *old(self) && r == Err::<(), Error>(
                Error::InvalidChurnEvidence,
            ),
    {
        match &self.stage {
            RewardStage::Accumulating(entries) => {
                let ghost models = entry_models(entries@);
                match find_credit(entries, acc.credit) {
                    None => {
                        proof {
                            assert forall|k: int| 0 <= k < models.len() implies (
                            #[trigger] models[k]).credit != acc.credit by {
                                assert(models[k] == entries@[k].model());
                            }
                            assert(!accepts_entries(models, acc));
                        }
                        Err(Error::InvalidChurnEvidence)
                    },
                    Some(hit) => {
                        proof {
                            assert(models[hit as int] == entries@[hit as int].model());
                            assert(accepts_entries(models, acc));
                        }
                        // rebuild the entry list with the evidence merged in
                        let n = entries.len();
                        let mut merged: Vec<PendingCredit> = Vec::new();
                        let mut k: usize = 0;
                        while k < n
                            invariant
                                n == entries@.len(),
                                k <= n,
                                models == entry_models(entries@),
                                forall|l: int| 0 <= l < n ==> (#[trigger] entries@[l]).wf(),
                                merged@.len() == k,
                                forall|l: int| 0 <= l < k ==> (#[trigger] merged@[l]).model()
                                    == merge_entries(models, acc)[l],
                                forall|l: int| 0 <= l < k ==> (#[trigger] merged@[l]).wf(),
                                forall|l: int| 0 <= l < k ==> (#[trigger] merged@[l]).credit
                                    == entries@[l].credit,
                            decreases n - k,
                        {
                            let mut sources = copy_sources(&entries[k].sources);
                            let ghost p = entries@[k as int];
                            if entries[k].credit.id == acc.credit.id {
                                if !vec_contains(&sources, acc.source) {
                                    sources.push(acc.source);
                                    proof {
                                        p.sources@.lemma_push_to_set_commute(acc.source);
                                        assert(sources@.to_set() == p.sources@.to_set().insert(
                                            acc.source,
                                        ));
                                        assert(sources@.no_duplicates());
                                    }
                                } else {
                                    proof {
                                        assert(p.sources@.to_set().contains(acc.source));
                                        assert(sources@.to_set() =~= p.sources@.to_set().insert(
                                            acc.source,
                                        ));
                                    }
                                }
                            }
                            proof {
                                assert(models[k as int] == p.model());
                            }
                            merged.push(PendingCredit { credit: entries[k].credit, sources });
                            k = k + 1;
                        }
                        let ghost merged_models = merge_entries(models, acc);
                        proof {
                            assert(entry_models(merged@) =~= merged_models);
                        }
                        // does the merge bring every credit to quorum?
                        let quorum = self.quorum;
                        let all = check_all_quorum(&merged, quorum);
                        if all {
                            // every credit reached quorum: finalize the proofs
                            let mut proofs: Vec<CreditProof> = Vec::new();
                            let mut t: usize = 0;
                            while t < n
                                invariant
                                    n == merged@.len(),
                                    t <= n,
                                    proofs@.len() == t,
                                    forall|l: int| 0 <= l < t ==> (#[trigger] proofs@[l])
                                        == merged@[l].credit,
                                decreases n - t,
                            {
                                proofs.push(merged[t].credit);
                                t = t + 1;
                            }
                            proof {
                                assert forall|l: int| 0 <= l < n implies proofs@[l] == proofs_of(
                                    models,
                                )[l] by {
                                    assert(models[l] == entries@[l].model());
                                }
                                assert(proofs@ =~= proofs_of(models));
                            }
                            self.stage = RewardStage::Completed(proofs);
                        } else {
                            self.stage = RewardStage::Accumulating(merged);
                        }
                        Ok(())
                    },
                }
            },
            RewardStage::AwaitingProposals => Err(Error::InvalidChurnEvidence),
            RewardStage::Completed(_) => Err(Error::InvalidChurnEvidence),
        }
    }
}

} // verus!
