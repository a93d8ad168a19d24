//! The reward wallet registry: node identity -> payout wallet and age.

use vstd::prelude::*;
use std::collections::HashMap;
use crate::node_ops::NodeWallet;

verus! {

/// Mapping of node identity to payout wallet and age, owned by the reward
/// subsystem.  Entries are added only for current section members, with the
/// age taken from live membership at write time, and removed when a member
/// is lost.
pub struct RewardWallets {
    map: HashMap<u64, NodeWallet>,
}

impl View for RewardWallets {
    type V = Map<u64, NodeWallet>;

    closed spec fn view(&self) -> Map<u64, NodeWallet> {
        self.map@
    }
}

impl RewardWallets {
    pub fn new() -> (r: Self)
        ensures
            r@ == Map::<u64, NodeWallet>::empty(),
    {
        RewardWallets { map: HashMap::new() }
    }

    /// Record (or refresh) the payout wallet of a current member.
    pub fn set_node_wallet(&mut self, node: u64, wallet: u64, age: u8)
        ensures
            final(self)@ == old(self)@.insert(node, NodeWallet { wallet, age }),
    {
        self.map.insert(node, NodeWallet { wallet, age });
    }

    /// Evict the wallet entry of a departed member.
    pub fn remove_node_wallet(&mut self, node: u64)
        ensures
            final(self)@ == old(self)@.remove(node),
    {
        self.map.remove(&node);
    }

    pub fn get(&self, node: u64) -> (r: Option<NodeWallet>)
        ensures
            match r {
                Some(w) => self@.contains_key(node) && self@[node] == w,
                None => !self@.contains_key(node),
            },
    {
        match self.map.get(&node) {
            Some(w) => Some(*w),
            None => None,
        }
    }

    pub fn len(&self) -> (n: usize)
        ensures
            n == self@.len(),
    {
        self.map.len()
    }
}

} // verus!
