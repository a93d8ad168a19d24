//! Laws of the reward accumulation protocol: the round a node reaches
//! depends only on the *set* of evidence received, never on arrival order,
//! and duplicate evidence from the same source changes nothing.  Both are
//! proved against the same `step` function the executable
//! `receive_wallet_accumulation` is verified against, so they hold of every
//! execution.

use vstd::prelude::*;
use vstd::set_lib::{lemma_len_subset, lemma_set_subset_finite};
use vstd::seq_lib::seq_to_set_is_finite;
use crate::node_ops::{CreditAccumulation, CreditProof};
use crate::reward_process::{
    accepts_entries, all_quorum, entries_wf, merge_entries, model_wf, proofs_of, run, step,
    PendingModel, ProcessModel, StageModel,
};

verus! {

/// The sources that vouched for exactly this credit anywhere in the set.
pub open spec fn gathered(es: Set<CreditAccumulation>, credit: CreditProof) -> Set<u64> {
    Set::new(
        |s: u64|
            exists|e: CreditAccumulation|
                #[trigger] es.contains(e) && e.credit == credit && e.source == s,
    )
}

/// Every entry extended by all the evidence in the set that fits it.
pub open spec fn extend_entries(entries: Seq<PendingModel>, es: Set<CreditAccumulation>) -> Seq<
    PendingModel,
> {
    entries.map_values(
        |p: PendingModel|
            PendingModel { credit: p.credit, sources: p.sources.union(gathered(es, p.credit)) },
    )
}

pub open spec fn any_accepted(entries: Seq<PendingModel>, es: Set<CreditAccumulation>) -> bool {
    exists|e: CreditAccumulation| #[trigger] es.contains(e) && accepts_entries(entries, e)
}

/// Where a round ends up after an evidence set: every fitting source merged
/// in, completed exactly when that extension reaches quorum everywhere and
/// at least one piece of evidence was accepted.
pub open spec fn run_outcome(m: ProcessModel, es: Set<CreditAccumulation>) -> ProcessModel {
    match m.stage {
        StageModel::Accumulating(entries) => {
            let ext = extend_entries(entries, es);
            if all_quorum(ext, m.quorum) && any_accepted(entries, es) {
                ProcessModel { stage: StageModel::Completed(proofs_of(entries)), ..m }
            } else {
                ProcessModel { stage: StageModel::Accumulating(ext), ..m }
            }
        },
        _ => m,
    }
}

proof fn lemma_gathered_finite(es: Set<CreditAccumulation>, credit: CreditProof)
    requires
        es.finite(),
    ensures
        gathered(es, credit).finite(),
{
    let f = |e: CreditAccumulation| e.source;
    let mapped = es.map(f);
    es.lemma_map_finite(f);
    assert forall|s: u64| gathered(es, credit).contains(s) implies mapped.contains(s) by {
        let e = choose|e: CreditAccumulation|
            #[trigger] es.contains(e) && e.credit == credit && e.source == s;
        assert(es.contains(e) && s == f(e));
    }
    lemma_set_subset_finite(mapped, gathered(es, credit));
}

/// One step keeps the round well formed.
pub proof fn lemma_step_wf(m: ProcessModel, e: CreditAccumulation)
    requires
        model_wf(m),
    ensures
        model_wf(step(m, e)),
{
    match m.stage {
        StageModel::Accumulating(entries) => {
            if accepts_entries(entries, e) {
                let merged = merge_entries(entries, e);
                assert forall|i: int| 0 <= i < merged.len() implies (
                #[trigger] merged[i]).sources.finite() by {
                    assert(entries[i].sources.finite());
                }
                assert(entries_wf(merged));
            }
        },
        _ => {},
    }
}

/// Growing every source set preserves reached quorums.
proof fn lemma_quorum_monotone(a: Seq<PendingModel>, b: Seq<PendingModel>, q: usize)
    requires
        a.len() == b.len(),
        forall|i: int| 0 <= i < a.len() ==> (#[trigger] a[i]).sources.subset_of(b[i].sources),
        forall|i: int| 0 <= i < b.len() ==> (#[trigger] b[i]).sources.finite(),
        all_quorum(a, q),
    ensures
        all_quorum(b, q),
{
    assert forall|i: int| 0 <= i < b.len() implies (#[trigger] b[i]).sources.len() >= q by {
        lemma_len_subset(a[i].sources, b[i].sources);
    }
}

proof fn lemma_to_set_first_rest(es: Seq<CreditAccumulation>)
    requires
        es.len() > 0,
    ensures
        es.to_set() == es.drop_first().to_set().insert(es.first()),
{
    let rest = es.drop_first();
    assert forall|x: CreditAccumulation| es.to_set().contains(x) implies rest.to_set().insert(
        es.first(),
    ).contains(x) by {
        let i = choose|i: int| 0 <= i < es.len() && es[i] == x;
        if i > 0 {
            assert(rest[i - 1] == x);
            assert(rest.contains(x));
        }
    }
    assert forall|x: CreditAccumulation|
        rest.to_set().insert(es.first()).contains(x) implies es.to_set().contains(x) by {
        if x == es.first() {
            assert(es[0] == x);
            assert(es.contains(x));
        } else {
            let j = choose|j: int| 0 <= j < rest.len() && rest[j] == x;
            assert(es[j + 1] == x);
            assert(es.contains(x));
        }
    }
    assert(es.to_set() =~= rest.to_set().insert(es.first()));
}

/// Taking one piece of evidence first, then an evidence set, ends where
/// taking the whole set at once ends.
proof fn lemma_outcome_step(m: ProcessModel, e0: CreditAccumulation, s: Set<CreditAccumulation>)
    requires
        model_wf(m),
        s.finite(),
    ensures
        run_outcome(step(m, e0), s) == run_outcome(m, s.insert(e0)),
{
    let sfull = s.insert(e0);
    match m.stage {
        StageModel::Accumulating(entries) => {
            let q = m.quorum;
            if accepts_entries(entries, e0) {
                let merged = merge_entries(entries, e0);
                lemma_step_wf(m, e0);
                // the one step then the set extends exactly as the whole set
                assert forall|i: int| 0 <= i < entries.len() implies extend_entries(merged, s)[i]
                    == extend_entries(entries, sfull)[i] by {
                    let p = entries[i];
                    let pm = merged[i];
                    assert(pm.credit == p.credit);
                    if p.credit.id == e0.credit.id {
                        let j = choose|j: int|
                            0 <= j < entries.len() && (#[trigger] entries[j]).credit == e0.credit;
                        assert(entries[j].credit.id == e0.credit.id);
                        assert(j == i);
                        assert(p.credit == e0.credit);
                        assert(pm.sources == p.sources.insert(e0.source));
                        assert(gathered(sfull, p.credit) =~= gathered(s, p.credit).insert(
                            e0.source,
                        )) by {
                            assert forall|x: u64|
                                gathered(sfull, p.credit).contains(x) implies gathered(
                                s,
                                p.credit,
                            ).insert(e0.source).contains(x) by {
                                let e = choose|e: CreditAccumulation|
                                    #[trigger] sfull.contains(e) && e.credit == p.credit
                                        && e.source == x;
                                if e != e0 {
                                    assert(s.contains(e));
                                }
                            }
                            assert forall|x: u64|
                                gathered(s, p.credit).insert(e0.source).contains(x) implies
                                gathered(sfull, p.credit).contains(x) by {
                                if x == e0.source {
                                    assert(sfull.contains(e0) && e0.credit == p.credit
                                        && e0.source == x);
                                } else {
                                    let e = choose|e: CreditAccumulation|
                                        #[trigger] s.contains(e) && e.credit == p.credit
                                            && e.source == x;
                                    assert(sfull.contains(e));
                                }
                            }
                        }
                        assert(pm.sources.union(gathered(s, p.credit)) =~= p.sources.union(
                            gathered(sfull, p.credit),
                        ));
                    } else {
                        assert(pm == p);
                        assert(p.credit != e0.credit);
                        assert(gathered(sfull, p.credit) =~= gathered(s, p.credit)) by {
                            assert forall|x: u64|
                                gathered(sfull, p.credit).contains(x) implies gathered(
                                s,
                                p.credit,
                            ).contains(x) by {
                                let e = choose|e: CreditAccumulation|
                                    #[trigger] sfull.contains(e) && e.credit == p.credit
                                        && e.source == x;
                                assert(e != e0);
                                assert(s.contains(e));
                            }
                            assert forall|x: u64|
                                gathered(s, p.credit).contains(x) implies gathered(
                                sfull,
                                p.credit,
                            ).contains(x) by {
                                let e = choose|e: CreditAccumulation|
                                    #[trigger] s.contains(e) && e.credit == p.credit && e.source
                                        == x;
                                assert(sfull.contains(e));
                            }
                        }
                        assert(pm.sources.union(gathered(s, pm.credit)) == p.sources.union(
                            gathered(sfull, p.credit),
                        ));
                    }
                }
                assert(extend_entries(merged, s) =~= extend_entries(entries, sfull));
                let ext = extend_entries(entries, sfull);
                assert(proofs_of(merged) =~= proofs_of(entries));
                assert(sfull.contains(e0) && accepts_entries(entries, e0));
                assert(any_accepted(entries, sfull));
                // each merged source set sits inside its extension, finitely
                assert forall|i: int| 0 <= i < merged.len() implies (
                #[trigger] merged[i]).sources.subset_of(ext[i].sources) by {
                    assert(ext[i] == extend_entries(merged, s)[i]);
                    assert(ext[i].sources == merged[i].sources.union(
                        gathered(s, merged[i].credit),
                    ));
                }
                assert forall|i: int| 0 <= i < ext.len() implies (
                #[trigger] ext[i]).sources.finite() by {
                    assert(ext[i] == extend_entries(merged, s)[i]);
                    assert(merged[i].sources.finite());
                    lemma_gathered_finite(s, merged[i].credit);
                }
                // evidence fits the merged entries exactly when it fits the
                // originals: the credits are the same
                assert forall|e: CreditAccumulation|
                    accepts_entries(merged, e) == accepts_entries(entries, e) by {
                    if accepts_entries(merged, e) {
                        let i = choose|i: int|
                            0 <= i < merged.len() && (#[trigger] merged[i]).credit == e.credit;
                        assert(entries[i].credit == e.credit);
                        assert(accepts_entries(entries, e));
                    }
                    if accepts_entries(entries, e) {
                        let i = choose|i: int|
                            0 <= i < entries.len() && (#[trigger] entries[i]).credit == e.credit;
                        assert(merged[i].credit == e.credit);
                        assert(accepts_entries(merged, e));
                    }
                }
                if all_quorum(merged, q) {
                    lemma_quorum_monotone(merged, ext, q);
                    assert(run_outcome(m, sfull) == step(m, e0));
                } else {
                    let stepped = step(m, e0);
                    assert(stepped.stage == StageModel::Accumulating(merged));
                    if all_quorum(ext, q) {
                        if !any_accepted(merged, s) {
                            assert forall|i: int|
                                0 <= i < merged.len() implies extend_entries(merged, s)[i]
                                == merged[i] by {
                                assert(gathered(s, merged[i].credit) =~= Set::<u64>::empty()) by {
                                    assert forall|x: u64|
                                        !gathered(s, merged[i].credit).contains(x) by {
                                        if gathered(s, merged[i].credit).contains(x) {
                                            let e = choose|e: CreditAccumulation|
                                                #[trigger] s.contains(e) && e.credit == merged[
                                                    i
                                                ].credit && e.source == x;
                                            assert(accepts_entries(merged, e));
                                            assert(false);
                                        }
                                    }
                                }
                                assert(merged[i].sources.union(Set::<u64>::empty())
                                    =~= merged[i].sources);
                            }
                            assert(extend_entries(merged, s) =~= merged);
                            assert(all_quorum(merged, q));
                            assert(false);
                        }
                        assert(run_outcome(stepped, s) == ProcessModel {
                            stage: StageModel::Completed(proofs_of(merged)),
                            ..m
                        });
                        assert(run_outcome(m, sfull) == ProcessModel {
                            stage: StageModel::Completed(proofs_of(entries)),
                            ..m
                        });
                    } else {
                        assert(run_outcome(stepped, s) == ProcessModel {
                            stage: StageModel::Accumulating(ext),
                            ..m
                        });
                    }
                }
            } else {
                // rejected: nothing of the set changes either
                assert(step(m, e0) == m);
                assert forall|i: int| 0 <= i < entries.len() implies extend_entries(
                    entries,
                    sfull,
                )[i] == extend_entries(entries, s)[i] by {
                    let p = entries[i];
                    assert(gathered(sfull, p.credit) =~= gathered(s, p.credit)) by {
                        assert forall|x: u64|
                            gathered(sfull, p.credit).contains(x) implies gathered(
                            s,
                            p.credit,
                        ).contains(x) by {
                            let e = choose|e: CreditAccumulation|
                                #[trigger] sfull.contains(e) && e.credit == p.credit && e.source
                                    == x;
                            if e == e0 {
                                assert(accepts_entries(entries, e0));
                                assert(false);
                            }
                            assert(s.contains(e));
                        }
                        assert forall|x: u64|
                            gathered(s, p.credit).contains(x) implies gathered(
                            sfull,
                            p.credit,
                        ).contains(x) by {
                            let e = choose|e: CreditAccumulation|
                                #[trigger] s.contains(e) && e.credit == p.credit && e.source == x;
                            assert(sfull.contains(e));
                        }
                    }
                }
                assert(extend_entries(entries, sfull) =~= extend_entries(entries, s));
                assert(any_accepted(entries, sfull) == any_accepted(entries, s)) by {
                    if any_accepted(entries, sfull) {
                        let e = choose|e: CreditAccumulation|
                            #[trigger] sfull.contains(e) && accepts_entries(entries, e);
                        assert(e != e0);
                        assert(s.contains(e));
                        assert(any_accepted(entries, s));
                    }
                    if any_accepted(entries, s) {
                        let e = choose|e: CreditAccumulation|
                            #[trigger] s.contains(e) && accepts_entries(entries, e);
                        assert(sfull.contains(e));
                        assert(any_accepted(entries, sfull));
                    }
                }
            }
        },
        _ => {
            assert(step(m, e0) == m);
        },
    }
}

/// The round after any evidence sequence is the outcome of its evidence
/// *set*.
pub proof fn lemma_run_characterized(m: ProcessModel, es: Seq<CreditAccumulation>)
    requires
        model_wf(m),
    ensures
        run(m, es) == run_outcome(m, es.to_set()),
    decreases es.len(),
{
    broadcast use seq_to_set_is_finite;

    if es.len() == 0 {
        match m.stage {
            StageModel::Accumulating(entries) => {
                let s = es.to_set();
                assert(forall|e: CreditAccumulation| !(#[trigger] s.contains(e)));
                assert forall|i: int| 0 <= i < entries.len() implies extend_entries(entries, s)[i]
                    == entries[i] by {
                    let p = entries[i];
                    assert(gathered(s, p.credit) =~= Set::<u64>::empty());
                    assert(p.sources.union(Set::<u64>::empty()) =~= p.sources);
                }
                assert(extend_entries(entries, s) =~= entries);
                assert(!any_accepted(entries, s));
                assert(run_outcome(m, s) == ProcessModel {
                    stage: StageModel::Accumulating(entries),
                    ..m
                });
                assert(m == ProcessModel { stage: StageModel::Accumulating(entries), ..m });
            },
            _ => {},
        }
    } else {
        let e0 = es.first();
        let rest = es.drop_first();
        lemma_to_set_first_rest(es);
        lemma_step_wf(m, e0);
        lemma_run_characterized(step(m, e0), rest);
        lemma_outcome_step(m, e0, rest.to_set());
        assert(run(m, es) == run(step(m, e0), rest));
    }
}

/// ORDER INDEPENDENCE: two evidence sequences carrying the same evidence
/// set leave the round in the same state — same stage, and the same
/// finalized proofs where that stage is completion.
pub proof fn lemma_order_independence(
    m: ProcessModel,
    es1: Seq<CreditAccumulation>,
    es2: Seq<CreditAccumulation>,
)
    requires
        model_wf(m),
        es1.to_set() == es2.to_set(),
    ensures
        run(m, es1) == run(m, es2),
{
    lemma_run_characterized(m, es1);
    lemma_run_characterized(m, es2);
}

/// IDEMPOTENCE: merging the same evidence twice is the same as merging it
/// once.
pub proof fn lemma_duplicate_evidence(m: ProcessModel, e: CreditAccumulation)
    requires
        model_wf(m),
    ensures
        step(step(m, e), e) == step(m, e),
{
    let s1 = seq![e];
    let s2 = seq![e, e];
    assert(s1.to_set() =~= s2.to_set()) by {
        assert(s1.contains(e)) by {
            assert(s1[0] == e);
        }
        assert forall|x: CreditAccumulation| s2.contains(x) implies s1.contains(x) by {
            let i = choose|i: int| 0 <= i < s2.len() && s2[i] == x;
            assert(s1[0] == x);
        }
    }
    lemma_order_independence(m, s1, s2);
    assert(s1.drop_first() =~= Seq::<CreditAccumulation>::empty());
    assert(run(m, s1) == run(step(m, e), s1.drop_first()));
    assert(run(m, s1) == step(m, e));
    assert(s2.drop_first() =~= s1);
    assert(s2.first() == e && s1.first() == e);
    assert(run(m, s2) == run(step(m, e), s2.drop_first()));
    assert(run(step(m, e), s1) == run(step(step(m, e), e), s1.drop_first()));
    assert(run(m, s2) == step(step(m, e), e));
}

/// A repeated piece of evidence anywhere in a sequence changes nothing of
/// where the round ends.
pub proof fn lemma_duplicate_in_sequence(
    m: ProcessModel,
    es: Seq<CreditAccumulation>,
    e: CreditAccumulation,
)
    requires
        model_wf(m),
        es.contains(e),
    ensures
        run(m, es.push(e)) == run(m, es),
{
    es.lemma_push_to_set_commute(e);
    assert(es.push(e).to_set() =~= es.to_set());
    lemma_order_independence(m, es.push(e), es);
}

} // verus!
