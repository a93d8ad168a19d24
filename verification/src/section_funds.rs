//! The role-scoped container for the section's reward funds: either a churn
//! round is actively negotiating a split, or the node is doing steady-state
//! wallet bookkeeping.  Exactly one mode is active at a time; the wallet
//! registry and any payments pending for the next round ride along in both.

use vstd::prelude::*;
use std::collections::HashMap;
use crate::node_ops::{CreditProof, NodeWallet};
use crate::reward_process::RewardProcess;
use crate::reward_wallets::RewardWallets;

verus! {

/// Section funds: an open churn round, or steady-state bookkeeping.
pub enum SectionFunds {
    Churning {
        process: RewardProcess,
        wallets: RewardWallets,
        payments: HashMap<u64, CreditProof>,
    },
    KeepingNodeWallets { wallets: RewardWallets, payments: HashMap<u64, CreditProof> },
}

impl SectionFunds {
    pub open spec fn is_churning(self) -> bool {
        self matches SectionFunds::Churning { .. }
    }

    pub open spec fn wallets_map(self) -> Map<u64, NodeWallet> {
        match self {
            SectionFunds::Churning { wallets, .. } => wallets@,
            SectionFunds::KeepingNodeWallets { wallets, .. } => wallets@,
        }
    }

    pub open spec fn payments_map(self) -> Map<u64, CreditProof> {
        match self {
            SectionFunds::Churning { payments, .. } => payments@,
            SectionFunds::KeepingNodeWallets { payments, .. } => payments@,
        }
    }

    /// The open round, where one exists.
    pub open spec fn process_of(self) -> Option<RewardProcess> {
        match self {
            SectionFunds::Churning { process, .. } => Some(process),
            SectionFunds::KeepingNodeWallets { .. } => None,
        }
    }

    pub open spec fn wf(self) -> bool {
        match self {
            SectionFunds::Churning { process, .. } => process.wf(),
            SectionFunds::KeepingNodeWallets { .. } => true,
        }
    }

    /// The payout wallet recorded for one node, if any.
    pub fn node_wallet(&self, node: u64) -> (r: Option<NodeWallet>)
        ensures
            match r {
                Some(w) => self.wallets_map().contains_key(node) && self.wallets_map()[node] == w,
                None => !self.wallets_map().contains_key(node),
            },
    {
        match self {
            SectionFunds::Churning { wallets, .. } => wallets.get(node),
            SectionFunds::KeepingNodeWallets { wallets, .. } => wallets.get(node),
        }
    }

    /// How many nodes have a wallet recorded.
    pub fn wallet_count(&self) -> (n: usize)
        ensures
            n == self.wallets_map().len(),
    {
        match self {
            SectionFunds::Churning { wallets, .. } => wallets.len(),
            SectionFunds::KeepingNodeWallets { wallets, .. } => wallets.len(),
        }
    }

    /// The pending payment filed under one credit identifier, if any.
    pub fn payment(&self, id: u64) -> (r: Option<CreditProof>)
        ensures
            match r {
                Some(c) => self.payments_map().contains_key(id) && self.payments_map()[id] == c,
                None => !self.payments_map().contains_key(id),
            },
    {
        let m = match self {
            SectionFunds::Churning { payments, .. } => payments,
            SectionFunds::KeepingNodeWallets { payments, .. } => payments,
        };
        match m.get(&id) {
            Some(c) => Some(*c),
            None => None,
        }
    }

    /// Record (or refresh) a member's payout wallet; everything else stays.
    pub fn set_node_wallet(&mut self, node: u64, wallet: u64, age: u8)
        requires
            old(self).wf(),
        ensures
            final(self).wf(),
            final(self).wallets_map() == old(self).wallets_map().insert(
                node,
                NodeWallet { wallet, age },
            ),
            final(self).payments_map() == old(self).payments_map(),
            final(self).process_of() == old(self).process_of(),
    {
        match self {
            SectionFunds::Churning { wallets, .. } => wallets.set_node_wallet(node, wallet, age),
            SectionFunds::KeepingNodeWallets { wallets, .. } => wallets.set_node_wallet(
                node,
                wallet,
                age,
            ),
        }
    }

    /// Evict a departed member's wallet entry; everything else stays.
    pub fn remove_node_wallet(&mut self, node: u64)
        requires
            old(self).wf(),
        ensures
            final(self).wf(),
            final(self).wallets_map() == old(self).wallets_map().remove(node),
            final(self).payments_map() == old(self).payments_map(),
            final(self).process_of() == old(self).process_of(),
    {
        match self {
            SectionFunds::Churning { wallets, .. } => wallets.remove_node_wallet(node),
            SectionFunds::KeepingNodeWallets { wallets, .. } => wallets.remove_node_wallet(node),
        }
    }

    /// Replace the whole wallet registry, as state synchronisation from the
    /// current Elder set does; everything else stays.
    pub fn replace_wallets(&mut self, wallets: RewardWallets)
        requires
            old(self).wf(),
        ensures
            final(self).wf(),
            final(self).wallets_map() == wallets@,
            final(self).payments_map() == old(self).payments_map(),
            final(self).process_of() == old(self).process_of(),
    {
        match self {
            SectionFunds::Churning { wallets: w, .. } => {
                *w = wallets;
            },
            SectionFunds::KeepingNodeWallets { wallets: w, .. } => {
                *w = wallets;
            },
        }
    }

    /// File a credit that arrived for the next round; everything else stays.
    pub fn add_payment(&mut self, credit: CreditProof)
        requires
            old(self).wf(),
        ensures
            final(self).wf(),
            final(self).payments_map() == old(self).payments_map().insert(credit.id, credit),
            final(self).wallets_map() == old(self).wallets_map(),
            final(self).process_of() == old(self).process_of(),
    {
        match self {
            SectionFunds::Churning { payments, .. } => {
                payments.insert(credit.id, credit);
            },
            SectionFunds::KeepingNodeWallets { payments, .. } => {
                payments.insert(credit.id, credit);
            },
        }
    }
}

/// The total reward paid by a set of finalized credit proofs, used for
/// observability once a round completes.
pub open spec fn spec_sum(credits: Seq<CreditProof>) -> int
    decreases credits.len(),
{
    if credits.len() == 0 {
        0
    } else {
        spec_sum(credits.drop_last()) + credits.last().amount
    }
}

/// Sum the finalized proofs of a completed round.  Widening to 128 bits
/// cannot overflow: fewer than 2^64 credits of at most 2^64 - 1 each.
pub fn sum_credits(credits: &Vec<CreditProof>) -> (s: u128)
    ensures
        s == spec_sum(credits@),
{
    let mut total: u128 = 0;
    let mut i: usize = 0;
    while i < credits.len()
        invariant
            i <= credits@.len(),
            total == spec_sum(credits@.take(i as int)),
            total <= i * 0xffff_ffff_ffff_ffffu128,
        decreases credits@.len() - i,
    {
        proof {
            assert(credits@.take(i as int + 1).drop_last() =~= credits@.take(i as int));
            assert(credits@.take(i as int + 1).last() == credits@[i as int]);
            assert((i + 1) * 0xffff_ffff_ffff_ffffu128 == i * 0xffff_ffff_ffff_ffffu128
                + 0xffff_ffff_ffff_ffffu128) by (nonlinear_arith);
            assert(i * 0xffff_ffff_ffff_ffffu128 <= 0xffff_ffff_ffff_ffffu128
                * 0xffff_ffff_ffff_ffffu128) by (nonlinear_arith)
                requires
                    i <= 0xffff_ffff_ffff_ffffu128,
            ;
        }
        total = total + credits[i].amount as u128;
        i = i + 1;
    }
    proof {
        assert(credits@.take(credits@.len() as int) =~= credits@);
    }
    total
}

} // verus!
