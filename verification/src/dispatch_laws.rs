//! Order independence lifted to the dispatcher.  `reward_laws` proves the
//! churn round itself depends only on the evidence set; here that is carried
//! to whole chains of `ReceiveRewardAccumulation` dispatches: starting from
//! one churning node, two chains over the same evidence set end with the
//! same books, the same mode, and the same round where one is still open.

use vstd::prelude::*;
use vstd::seq_lib::seq_to_set_is_finite;
use crate::handle::{dispatch_transition, same_elder_books, NetworkContext, Node};
use crate::node_ops::{CreditAccumulation, Error, NodeDuty, NodeTask};
use crate::reward_laws::{lemma_order_independence, lemma_step_wf};
use crate::reward_process::{model_wf, run, step, ProcessModel, RewardProcess, StageModel};
use crate::section_funds::SectionFunds;

verus! {

/// The model of the open churn round of a churning node.
pub open spec fn churn_round(n: Node) -> ProcessModel {
    n.funds().process_of()->0.model()
}

/// A chain of accumulation dispatches: `states[i]` goes to `states[i + 1]`
/// by handling the evidence `es[i]`, under the dispatcher's contract, and
/// every reached state is well formed, as `handle` ensures.
pub open spec fn accumulation_chain(
    states: Seq<Node>,
    es: Seq<CreditAccumulation>,
    ctx: NetworkContext,
    rs: Seq<Result<Vec<NodeTask>, Error>>,
) -> bool {
    &&& states.len() == es.len() + 1
    &&& rs.len() == es.len()
    &&& forall|i: int| 0 <= i < states.len() ==> (#[trigger] states[i]).wf()
    &&& forall|i: int|
        0 <= i < es.len() ==> dispatch_transition(
            #[trigger] states[i],
            states[i + 1],
            NodeDuty::ReceiveRewardAccumulation(es[i]),
            ctx,
            rs[i],
        )
}

/// A well-formed round is a well-formed model.
proof fn lemma_exec_wf_model_wf(p: RewardProcess)
    requires
        p.wf(),
    ensures
        model_wf(p.model()),
{
    broadcast use seq_to_set_is_finite;

    match p.stage {
        crate::reward_process::RewardStage::Accumulating(v) => {
            let models = crate::reward_process::entry_models(v@);
            assert forall|i: int| 0 <= i < models.len() implies (
            #[trigger] models[i]).sources.finite() by {
                assert(models[i] == v@[i].model());
            }
            assert forall|i: int, j: int|
                0 <= i < models.len() && 0 <= j < models.len() && i != j implies (
            #[trigger] models[i]).credit.id != (#[trigger] models[j]).credit.id by {
                assert(models[i] == v@[i].model());
                assert(models[j] == v@[j].model());
            }
        },
        _ => {},
    }
}

/// A completed round never moves again.
proof fn lemma_run_completed_stays(m: ProcessModel, es: Seq<CreditAccumulation>)
    requires
        m.stage is Completed,
    ensures
        run(m, es) == m,
    decreases es.len(),
{
    if es.len() > 0 {
        assert(step(m, es.first()) == m);
        lemma_run_completed_stays(m, es.drop_first());
    }
}

/// A steady-state Elder is left exactly as it stands by every accumulation
/// dispatch.
proof fn lemma_chain_from_keeping_stays(
    states: Seq<Node>,
    es: Seq<CreditAccumulation>,
    ctx: NetworkContext,
    rs: Seq<Result<Vec<NodeTask>, Error>>,
)
    requires
        accumulation_chain(states, es, ctx, rs),
        states[0].is_elder(),
        !states[0].funds().is_churning(),
    ensures
        states.last() == states[0],
    decreases es.len(),
{
    if es.len() > 0 {
        assert(dispatch_transition(
            states[0],
            states[1],
            NodeDuty::ReceiveRewardAccumulation(es[0]),
            ctx,
            rs[0],
        ));
        assert(states[1] == states[0]);
        let sub_states = states.drop_first();
        let sub_es = es.drop_first();
        let sub_rs = rs.drop_first();
        assert forall|i: int|
            0 <= i < sub_es.len() implies dispatch_transition(
            #[trigger] sub_states[i],
            sub_states[i + 1],
            NodeDuty::ReceiveRewardAccumulation(sub_es[i]),
            ctx,
            sub_rs[i],
        ) by {
            assert(sub_states[i] == states[i + 1]);
            assert(sub_states[i + 1] == states[i + 2]);
            assert(sub_es[i] == es[i + 1]);
            assert(sub_rs[i] == rs[i + 1]);
        }
        assert forall|i: int| 0 <= i < sub_states.len() implies (#[trigger] sub_states[i]).wf() by {
            assert(sub_states[i] == states[i + 1]);
        }
        lemma_chain_from_keeping_stays(sub_states, sub_es, ctx, sub_rs);
        assert(sub_states.last() == states.last());
    }
}

/// A chain of accumulation dispatches tracks `run`: the books never change,
/// and the node ends in steady-state bookkeeping exactly when the round
/// over the whole evidence sequence completed, else still churning with
/// that round.
pub proof fn lemma_chain_tracks_run(
    states: Seq<Node>,
    es: Seq<CreditAccumulation>,
    ctx: NetworkContext,
    rs: Seq<Result<Vec<NodeTask>, Error>>,
)
    requires
        accumulation_chain(states, es, ctx, rs),
        states[0].is_churning(),
        !(churn_round(states[0]).stage is Completed),
    ensures
        same_elder_books(states[0], states.last()),
        run(churn_round(states[0]), es).stage is Completed ==> states.last().funds()
            matches SectionFunds::KeepingNodeWallets { .. },
        !(run(churn_round(states[0]), es).stage is Completed) ==> states.last().is_churning()
            && churn_round(states.last()) == run(churn_round(states[0]), es),
    decreases es.len(),
{
    let m0 = churn_round(states[0]);
    match states[0].funds().process_of() {
        Some(p) => {
            lemma_exec_wf_model_wf(p);
        },
        None => {},
    }
    if es.len() == 0 {
        assert(states.last() == states[0]);
        assert(run(m0, es) == m0);
    } else {
        assert(dispatch_transition(
            states[0],
            states[1],
            NodeDuty::ReceiveRewardAccumulation(es[0]),
            ctx,
            rs[0],
        ));
        let m1 = step(m0, es[0]);
        assert(run(m0, es) == run(m1, es.drop_first()));
        let sub_states = states.drop_first();
        let sub_es = es.drop_first();
        let sub_rs = rs.drop_first();
        assert forall|i: int|
            0 <= i < sub_es.len() implies dispatch_transition(
            #[trigger] sub_states[i],
            sub_states[i + 1],
            NodeDuty::ReceiveRewardAccumulation(sub_es[i]),
            ctx,
            sub_rs[i],
        ) by {
            assert(sub_states[i] == states[i + 1]);
            assert(sub_states[i + 1] == states[i + 2]);
            assert(sub_es[i] == es[i + 1]);
            assert(sub_rs[i] == rs[i + 1]);
        }
        assert forall|i: int| 0 <= i < sub_states.len() implies (#[trigger] sub_states[i]).wf() by {
            assert(sub_states[i] == states[i + 1]);
        }
        assert(accumulation_chain(sub_states, sub_es, ctx, sub_rs));
        if m1.stage is Completed {
            // the first dispatch completed the round and switched the funds
            assert(states[1].funds() matches SectionFunds::KeepingNodeWallets { .. });
            assert(same_elder_books(states[0], states[1]));
            lemma_chain_from_keeping_stays(sub_states, sub_es, ctx, sub_rs);
            assert(states.last() == states[1]);
            lemma_run_completed_stays(m1, sub_es);
        } else {
            // rejected evidence leaves the node; accepted evidence merges
            assert(states[1].is_churning());
            assert(churn_round(states[1]) == m1);
            assert(same_elder_books(states[0], states[1]));
            lemma_step_wf(m0, es[0]);
            lemma_chain_tracks_run(sub_states, sub_es, ctx, sub_rs);
            assert(sub_states.last() == states.last());
            assert(same_elder_books(states[1], states.last()));
        }
    }
}

/// ORDER INDEPENDENCE AT THE DISPATCHER: from one churning node, two chains
/// of accumulation dispatches over the same evidence set end alike — the
/// same wallet registry and pending payments, the same holder index, the
/// same mode, and, where a round is still open, the same round.
pub proof fn lemma_dispatch_order_independence(
    states1: Seq<Node>,
    states2: Seq<Node>,
    es1: Seq<CreditAccumulation>,
    es2: Seq<CreditAccumulation>,
    ctx: NetworkContext,
    rs1: Seq<Result<Vec<NodeTask>, Error>>,
    rs2: Seq<Result<Vec<NodeTask>, Error>>,
)
    requires
        accumulation_chain(states1, es1, ctx, rs1),
        accumulation_chain(states2, es2, ctx, rs2),
        states1[0] == states2[0],
        states1[0].is_churning(),
        !(churn_round(states1[0]).stage is Completed),
        es1.to_set() == es2.to_set(),
    ensures
        same_elder_books(states1.last(), states2.last()),
        states1.last().funds().is_churning() == states2.last().funds().is_churning(),
        states1.last().is_churning() ==> churn_round(states1.last()) == churn_round(
            states2.last(),
        ),
{
    let m0 = churn_round(states1[0]);
    match states1[0].funds().process_of() {
        Some(p) => {
            lemma_exec_wf_model_wf(p);
        },
        None => {},
    }
    lemma_chain_tracks_run(states1, es1, ctx, rs1);
    lemma_chain_tracks_run(states2, es2, ctx, rs2);
    lemma_order_independence(m0, es1, es2);
}

} // verus!
