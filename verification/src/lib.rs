//! Role-transition and reward-churn orchestration for a section node.
//!
//! A node of a sharded storage network is either an Adult (it stores data
//! chunks) or an Elder (it manages section metadata, client transfers and the
//! section's reward funds).  This crate holds the duty-dispatch state machine
//! that routes incoming duties to the active subsystems, the quorum-based
//! credit-accumulation protocol run when section membership churns, and the
//! translation of raw membership events into duties.  Storage engines, the
//! transfer ledger and the transport layer are collaborators behind narrow
//! interfaces: the dispatcher returns the calls to make as task values, and
//! the surrounding runtime performs them.

use vstd::prelude::*;

pub mod dispatch_laws;
pub mod handle;
pub mod metadata;
pub mod network_events;
pub mod node_ops;
pub mod reward_laws;
pub mod reward_process;
pub mod reward_wallets;
pub mod section_funds;
pub mod wire;

verus! {

/// Smallest age at which a relocated or demoted node acts as an Adult.
pub const MIN_AGE: u8 = 5;

pub fn min_age() -> (r: u8)
    ensures
        r == MIN_AGE,
{
    MIN_AGE
}

} // verus!
