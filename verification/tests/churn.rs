//! Scenario tests for the reward churn protocol: the end-to-end split
//! round, order independence and idempotence of accumulation, and the
//! preservation of wallets and payments across the completion switch.

use std::collections::HashMap;
use sn_node::handle::{NetworkContext, Node};
use sn_node::node_ops::{
    CreditAccumulation, CreditProof, Error, NodeDuty, NodeTask, Prefix, RewardProposal,
};
use sn_node::reward_process::{RewardProcess, RewardStage};
use sn_node::section_funds::{sum_credits, SectionFunds};

fn ctx(quorum: usize) -> NetworkContext {
    NetworkContext {
        our_name: 1,
        our_prefix: Prefix { name: 0, bit_count: 0 },
        elder_quorum: quorum,
        members: HashMap::new(),
    }
}

fn oldie_elder(ctx: &NetworkContext, our_key: u64, sibling_key: u64) -> Node {
    let mut node = Node::new();
    node.handle(NodeDuty::Genesis, ctx).unwrap();
    let ts = node
        .handle(
            NodeDuty::SectionSplit {
                our_key,
                our_prefix: ctx.our_prefix,
                sibling_key,
                newbie: false,
            },
            ctx,
        )
        .unwrap();
    assert_eq!(ts, vec![NodeTask::ProposeRewardSplit { our_key, sibling_key }]);
    node
}

#[test]
fn three_elders_complete_a_single_credit_of_one_hundred() {
    let c = ctx(3);
    let credit = CreditProof { id: 1, recipient: 500, amount: 100 };
    let proposal = RewardProposal { section_key: 100, credits: vec![credit] };
    let elders: Vec<u64> = vec![1, 2, 3];
    let mut nodes: Vec<Node> = Vec::new();
    for _ in 0..3 {
        nodes.push(oldie_elder(&c, 100, 200));
    }
    for node in nodes.iter_mut() {
        let ts = node
            .handle(NodeDuty::ReceiveRewardProposal(proposal.clone()), &c)
            .unwrap();
        assert_eq!(ts, vec![NodeTask::BroadcastAccumulation { section_key: 100 }]);
    }
    for node in nodes.iter_mut() {
        for (k, src) in elders.iter().enumerate() {
            let ts = node
                .handle(
                    NodeDuty::ReceiveRewardAccumulation(CreditAccumulation {
                        credit,
                        source: *src,
                    }),
                    &c,
                )
                .unwrap();
            if k < 2 {
                assert!(ts.is_empty());
            } else {
                // the third matching evidence completes the round: exactly
                // one propagate-credit task, and steady-state bookkeeping
                assert_eq!(ts, vec![NodeTask::PropagateCredit(credit)]);
            }
        }
        let funds = node.get_section_funds().unwrap();
        assert!(matches!(funds, SectionFunds::KeepingNodeWallets { .. }));
        assert!(matches!(node.get_churning_funds(), Err(Error::NotChurningFunds)));
    }
    assert_eq!(sum_credits(&vec![credit]), 100);
}

#[test]
fn completion_carries_wallets_and_payments_forward() {
    let mut c = ctx(1);
    c.members.insert(7, 42);
    let mut node = oldie_elder(&c, 100, 200);
    node.handle(NodeDuty::SetNodeWallet { wallet_id: 900, node_id: 7, msg_id: 0, origin: 0 }, &c)
        .unwrap();
    let pending = CreditProof { id: 77, recipient: 8, amount: 5 };
    node.handle(NodeDuty::AddPayment(pending), &c).unwrap();
    let credit = CreditProof { id: 1, recipient: 500, amount: 100 };
    node.handle(
        NodeDuty::ReceiveRewardProposal(RewardProposal { section_key: 100, credits: vec![credit] }),
        &c,
    )
    .unwrap();
    let ts = node
        .handle(
            NodeDuty::ReceiveRewardAccumulation(CreditAccumulation { credit, source: 1 }),
            &c,
        )
        .unwrap();
    assert_eq!(ts, vec![NodeTask::PropagateCredit(credit)]);
    let funds = node.get_section_funds().unwrap();
    assert!(matches!(funds, SectionFunds::KeepingNodeWallets { .. }));
    assert_eq!(funds.node_wallet(7).unwrap().wallet, 900);
    assert_eq!(funds.payment(77).unwrap(), pending);
}

#[test]
fn wrong_section_key_proposal_is_refused() {
    let c = ctx(1);
    let mut node = oldie_elder(&c, 100, 200);
    let credit = CreditProof { id: 1, recipient: 500, amount: 100 };
    let r = node.handle(
        NodeDuty::ReceiveRewardProposal(RewardProposal { section_key: 999, credits: vec![credit] }),
        &c,
    );
    assert!(matches!(r, Err(Error::InvalidChurnProposal)));
}

#[test]
fn evidence_for_an_unknown_credit_is_refused() {
    let c = ctx(2);
    let mut node = oldie_elder(&c, 100, 200);
    let credit = CreditProof { id: 1, recipient: 500, amount: 100 };
    node.handle(
        NodeDuty::ReceiveRewardProposal(RewardProposal { section_key: 100, credits: vec![credit] }),
        &c,
    )
    .unwrap();
    let strange = CreditProof { id: 2, recipient: 500, amount: 100 };
    let r = node.handle(
        NodeDuty::ReceiveRewardAccumulation(CreditAccumulation { credit: strange, source: 1 }),
        &c,
    );
    assert!(matches!(r, Err(Error::InvalidChurnEvidence)));
}

#[test]
fn accumulation_is_order_independent_on_the_same_evidence_set() {
    let a = CreditProof { id: 1, recipient: 10, amount: 40 };
    let b = CreditProof { id: 2, recipient: 11, amount: 60 };
    let proposal = RewardProposal { section_key: 9, credits: vec![a, b] };
    let evidence: Vec<CreditAccumulation> = vec![
        CreditAccumulation { credit: a, source: 1 },
        CreditAccumulation { credit: a, source: 2 },
        CreditAccumulation { credit: b, source: 1 },
        CreditAccumulation { credit: b, source: 2 },
    ];
    let mut forward = RewardProcess::new(9, 2);
    forward.receive_churn_proposal(&proposal).unwrap();
    for e in evidence.iter() {
        let _ = forward.receive_wallet_accumulation(*e);
    }
    let mut backward = RewardProcess::new(9, 2);
    backward.receive_churn_proposal(&proposal).unwrap();
    for e in evidence.iter().rev() {
        let _ = backward.receive_wallet_accumulation(*e);
    }
    assert_eq!(forward.stage(), backward.stage());
    match forward.stage() {
        RewardStage::Completed(proofs) => {
            assert_eq!(proofs, &vec![a, b]);
            assert_eq!(sum_credits(proofs), 100);
        }
        _ => panic!("round should have completed"),
    }
}

#[test]
fn duplicate_evidence_from_one_source_does_not_reach_quorum() {
    let credit = CreditProof { id: 1, recipient: 10, amount: 40 };
    let proposal = RewardProposal { section_key: 9, credits: vec![credit] };
    let mut p = RewardProcess::new(9, 2);
    p.receive_churn_proposal(&proposal).unwrap();
    p.receive_wallet_accumulation(CreditAccumulation { credit, source: 1 }).unwrap();
    p.receive_wallet_accumulation(CreditAccumulation { credit, source: 1 }).unwrap();
    assert!(matches!(p.stage(), RewardStage::Accumulating(_)));
    // a second distinct source reaches the quorum of two
    p.receive_wallet_accumulation(CreditAccumulation { credit, source: 2 }).unwrap();
    assert!(matches!(p.stage(), RewardStage::Completed(_)));
}

#[test]
fn duplicate_credit_ids_in_a_proposal_are_refused() {
    let a = CreditProof { id: 1, recipient: 10, amount: 40 };
    let b = CreditProof { id: 1, recipient: 11, amount: 60 };
    let mut p = RewardProcess::new(9, 2);
    let r = p.receive_churn_proposal(&RewardProposal { section_key: 9, credits: vec![a, b] });
    assert!(matches!(r, Err(Error::InvalidChurnProposal)));
    assert!(matches!(p.stage(), RewardStage::AwaitingProposals));
}

#[test]
fn split_while_churning_supersedes_the_round_but_keeps_payments() {
    let mut c = ctx(1);
    c.members.insert(7, 42);
    let mut node = oldie_elder(&c, 100, 200);
    let pending = CreditProof { id: 77, recipient: 8, amount: 5 };
    node.handle(NodeDuty::AddPayment(pending), &c).unwrap();
    let credit = CreditProof { id: 1, recipient: 500, amount: 100 };
    node.handle(
        NodeDuty::ReceiveRewardProposal(RewardProposal { section_key: 100, credits: vec![credit] }),
        &c,
    )
    .unwrap();
    // a second split before completion: the new round supersedes the old
    let ts = node
        .handle(
            NodeDuty::SectionSplit {
                our_key: 101,
                our_prefix: c.our_prefix,
                sibling_key: 201,
                newbie: false,
            },
            &c,
        )
        .unwrap();
    assert_eq!(ts, vec![NodeTask::ProposeRewardSplit { our_key: 101, sibling_key: 201 }]);
    let (process, _, _) = node.get_churning_funds().unwrap();
    assert!(matches!(process.stage(), RewardStage::AwaitingProposals));
    // evidence for the superseded round is refused by the fresh one
    let r = node.handle(
        NodeDuty::ReceiveRewardAccumulation(CreditAccumulation { credit, source: 1 }),
        &c,
    );
    assert!(matches!(r, Err(Error::InvalidChurnEvidence)));
    // the payment filed before the split is still there
    assert_eq!(node.get_section_funds().unwrap().payment(77).unwrap(), pending);
}

#[test]
fn sum_of_credits_is_exact() {
    let a = CreditProof { id: 1, recipient: 10, amount: 100 };
    let b = CreditProof { id: 2, recipient: 11, amount: 23 };
    assert_eq!(sum_credits(&vec![]), 0);
    assert_eq!(sum_credits(&vec![a, b]), 123);
    let big = CreditProof { id: 3, recipient: 12, amount: u64::MAX };
    assert_eq!(sum_credits(&vec![big, big]), 2 * (u64::MAX as u128));
}
