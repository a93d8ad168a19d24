//! The metadata subsystem's in-memory index: which nodes hold which chunk.
//! The store behind the queries and commands themselves is a collaborator;
//! what lives here is the holder bookkeeping needed to re-replicate the
//! chunks a departed member held.

use vstd::prelude::*;
use crate::node_ops::{NodeDuty, NodeTask};
use crate::wire::{combined_msg_id, derive_msg_id};

verus! {

/// One chunk's record: its content address and the nodes currently holding
/// a copy.
#[derive(Clone, PartialEq, Eq, Debug)]
pub struct ChunkRecord {
    pub address: u64,
    pub holders: Vec<u64>,
}

/// The holder index of the metadata subsystem.
#[derive(Clone, PartialEq, Eq, Debug)]
pub struct Metadata {
    pub records: Vec<ChunkRecord>,
}

/// Holder-list membership test for one departed identity.
pub open spec fn not_name(name: u64) -> spec_fn(u64) -> bool {
    |h: u64| h != name
}

/// Record selector: the record still lists `name` as a holder.
pub open spec fn holds_name(name: u64) -> spec_fn(ChunkRecord) -> bool {
    |r: ChunkRecord| r.holders@.contains(name)
}

/// The records that held the departed member, in index order; these are the
/// chunks that must be re-replicated.
pub open spec fn hit_records(rs: Seq<ChunkRecord>, name: u64) -> Seq<ChunkRecord> {
    rs.filter(holds_name(name))
}

/// The replication duty owed for one formerly-held chunk: the remaining
/// holders, and a message identifier derived from the address and the
/// departed identity so retransmissions deduplicate.
pub open spec fn is_replication_duty(t: NodeTask, rec: ChunkRecord, name: u64) -> bool {
    &&& t matches NodeTask::Duty(NodeDuty::ReplicateChunk { current_holders, address, id })
    &&& address == rec.address
    &&& current_holders@ == rec.holders@.filter(not_name(name))
    &&& id == combined_msg_id(rec.address, name)
}

fn filter_holders(v: &Vec<u64>, name: u64) -> (r: Vec<u64>)
    ensures
        r@ == v@.filter(not_name(name)),
{
    let mut out: Vec<u64> = Vec::new();
    let mut i: usize = 0;
    while i < v.len()
        invariant
            i <= v@.len(),
            out@ == v@.take(i as int).filter(not_name(name)),
        decreases v@.len() - i,
    {
        proof {
            assert(v@.take(i as int + 1) =~= v@.take(i as int).push(v@[i as int]));
            v@.take(i as int).lemma_filter_push(v@[i as int], not_name(name));
        }
        if v[i] != name {
            out.push(v[i]);
        }
        i = i + 1;
    }
    proof {
        assert(v@.take(v@.len() as int) =~= v@);
    }
    out
}

fn holders_contain(v: &Vec<u64>, name: u64) -> (r: bool)
    ensures
        r == v@.contains(name),
{
    let mut i: usize = 0;
    while i < v.len()
        invariant
            i <= v@.len(),
            forall|k: int| 0 <= k < i ==> v@[k] != name,
        decreases v@.len() - i,
    {
        if v[i] == name {
            return true;
        }
        i = i + 1;
    }
    false
}

/// A filtered sequence of distinct values stays distinct.
proof fn filtered_no_duplicates(s: Seq<u64>, pred: spec_fn(u64) -> bool)
    requires
        s.no_duplicates(),
    ensures
        s.filter(pred).no_duplicates(),
    decreases s.len(),
{
    if s.len() == 0 {
        assert(s.filter(pred) =~= Seq::<u64>::empty()) by {
            s.lemma_filter_len(pred);
        }
    } else {
        let rest = s.drop_last();
        rest.lemma_filter_push(s.last(), pred);
        assert(s =~= rest.push(s.last()));
        filtered_no_duplicates(rest, pred);
        if pred(s.last()) {
            assert(!rest.contains(s.last()));
            assert forall|i: int|
                0 <= i < rest.filter(pred).len() implies rest.filter(pred)[i] != s.last() by {
                let x = rest.filter(pred)[i];
                assert(rest.filter(pred).contains(x));
                rest.lemma_filter_contains_rev(pred, x);
            }
            assert(s.filter(pred) == rest.filter(pred).push(s.last()));
        } else {
            assert(s.filter(pred) == rest.filter(pred));
        }
    }
}

fn find_address(records: &Vec<ChunkRecord>, address: u64) -> (r: Option<usize>)
    ensures
        match r {
            Some(i) => i < records@.len() && records@[i as int].address == address,
            None => forall|k: int|
                0 <= k < records@.len() ==> (#[trigger] records@[k]).address != address,
        },
{
    let mut i: usize = 0;
    while i < records.len()
        invariant
            i <= records@.len(),
            forall|k: int| 0 <= k < i ==> (#[trigger] records@[k]).address != address,
        decreases records@.len() - i,
    {
        if records[i].address == address {
            return Some(i);
        }
        i = i + 1;
    }
    None
}

/// Where the new holder index stands after recording one copy: the record
/// of the address gains the holder (once), or a fresh record appears.
pub open spec fn holder_recorded(
    pre: Seq<ChunkRecord>,
    post: Seq<ChunkRecord>,
    address: u64,
    holder: u64,
) -> bool {
    if exists|i: int| 0 <= i < pre.len() && (#[trigger] pre[i]).address == address {
        let i = choose|i: int| 0 <= i < pre.len() && (#[trigger] pre[i]).address == address;
        if pre[i].holders@.contains(holder) {
            post == pre
        } else {
            &&& post.len() == pre.len()
            &&& forall|j: int| 0 <= j < pre.len() && j != i ==> post[j] == pre[j]
            &&& post[i].address == address
            &&& post[i].holders@ == pre[i].holders@.push(holder)
        }
    } else {
        &&& post.len() == pre.len() + 1
        &&& forall|j: int| 0 <= j < pre.len() ==> post[j] == pre[j]
        &&& post[pre.len() as int].address == address
        &&& post[pre.len() as int].holders@ == seq![holder]
    }
}

impl Metadata {
    pub open spec fn wf(self) -> bool {
        &&& forall|i: int, j: int|
            0 <= i < self.records@.len() && 0 <= j < self.records@.len() && i != j ==> (
            #[trigger] self.records@[i]).address != (#[trigger] self.records@[j]).address
        &&& forall|i: int| 0 <= i < self.records@.len() ==> (
        #[trigger] self.records@[i]).holders@.no_duplicates()
    }

    pub fn new() -> (r: Self)
        ensures
            r.records@ == Seq::<ChunkRecord>::empty(),
            r.wf(),
    {
        Metadata { records: Vec::new() }
    }

    /// Note that `holder` keeps a copy of the chunk at `address`.  The
    /// runtime feeds this back when a chunk write or replication settles.
    pub fn record_chunk_holder(&mut self, address: u64, holder: u64)
        requires
            old(self).wf(),
        ensures
            final(self).wf(),
            holder_recorded(old(self).records@, final(self).records@, address, holder),
    {
        let ghost pre = old(self).records@;
        let found = find_address(&self.records, address);
        match found {
            Some(i) => {
                proof {
                    let c = choose|j: int|
                        0 <= j < pre.len() && (#[trigger] pre[j]).address == address;
                    assert(pre[i as int].address == address);
                    assert(c == i as int);
                }
                let rec = self.records.remove(i);
                if holders_contain(&rec.holders, holder) {
                    self.records.insert(i, rec);
                    proof {
                        assert(self.records@ =~= pre);
                    }
                } else {
                    let mut holders = rec.holders;
                    holders.push(holder);
                    self.records.insert(i, ChunkRecord { address: rec.address, holders });
                    proof {
                        assert forall|j: int| 0 <= j < pre.len() && j != i as int implies
                            self.records@[j] == pre[j] by {}
                        assert forall|a: int, b: int|
                            0 <= a < self.records@.len() && 0 <= b < self.records@.len() && a != b
                            implies (#[trigger] self.records@[a]).address != (
                        #[trigger] self.records@[b]).address by {
                            assert(pre[a].address == self.records@[a].address || a == i as int);
                            assert(pre[b].address == self.records@[b].address || b == i as int);
                        }
                    }
                }
            },
            None => {
                let mut holders: Vec<u64> = Vec::new();
                holders.push(holder);
                self.records.push(ChunkRecord { address, holders });
            },
        }
    }

    /// Forget every copy the departed member held and return one
    /// replication duty per chunk it was holding.
    pub fn trigger_chunk_replication(&mut self, name: u64) -> (ts: Vec<NodeTask>)
        requires
            old(self).wf(),
        ensures
            final(self).wf(),
            final(self).records@.len() == old(self).records@.len(),
            forall|i: int| 0 <= i < old(self).records@.len() ==> (
            #[trigger] final(self).records@[i]).address == old(self).records@[i].address,
            forall|i: int| 0 <= i < old(self).records@.len() ==> (
            #[trigger] final(self).records@[i]).holders@ == old(self).records@[i].holders@.filter(
                not_name(name),
            ),
            ts@.len() == hit_records(old(self).records@, name).len(),
            forall|i: int|
                0 <= i < ts@.len() ==> is_replication_duty(
                    #[trigger] ts@[i],
                    hit_records(old(self).records@, name)[i],
                    name,
                ),
    {
        let ghost pre = old(self).records@;
        let n = self.records.len();
        let mut new_records: Vec<ChunkRecord> = Vec::new();
        let mut tasks: Vec<NodeTask> = Vec::new();
        let mut k: usize = 0;
        while k < n
            invariant
                n == self.records@.len(),
                k <= n,
                self.records@ == pre,
                forall|i: int, j: int|
                    0 <= i < pre.len() && 0 <= j < pre.len() && i != j ==> (
                    #[trigger] pre[i]).address != (#[trigger] pre[j]).address,
                forall|i: int| 0 <= i < pre.len() ==> (#[trigger] pre[i]).holders@.no_duplicates(),
                new_records@.len() == k,
                forall|l: int| 0 <= l < k ==> (#[trigger] new_records@[l]).address
                    == pre[l].address,
                forall|l: int| 0 <= l < k ==> (#[trigger] new_records@[l]).holders@
                    == pre[l].holders@.filter(not_name(name)),
                tasks@.len() == hit_records(pre.take(k as int), name).len(),
                forall|i: int|
                    0 <= i < tasks@.len() ==> is_replication_duty(
                        #[trigger] tasks@[i],
                        hit_records(pre.take(k as int), name)[i],
                        name,
                    ),
            decreases n - k,
        {
            let ghost prefix = pre.take(k as int);
            proof {
                assert(pre.take(k as int + 1) =~= prefix.push(pre[k as int]));
                prefix.lemma_filter_push(pre[k as int], holds_name(name));
            }
            let rec = &self.records[k];
            let held = holders_contain(&rec.holders, name);
            let remaining = filter_holders(&rec.holders, name);
            let address = rec.address;
            if held {
                let for_task = filter_holders(&rec.holders, name);
                let id = derive_msg_id(address, name);
                tasks.push(
                    NodeTask::Duty(
                        NodeDuty::ReplicateChunk { current_holders: for_task, address, id },
                    ),
                );
                proof {
                    assert(hit_records(pre.take(k as int + 1), name) == hit_records(
                        prefix,
                        name,
                    ).push(pre[k as int]));
                    assert(is_replication_duty(tasks@[tasks@.len() - 1], pre[k as int], name));
                }
            } else {
                proof {
                    assert(hit_records(pre.take(k as int + 1), name) == hit_records(prefix, name));
                }
            }
            new_records.push(ChunkRecord { address, holders: remaining });
            k = k + 1;
        }
        proof {
            assert(pre.take(n as int) =~= pre);
        }
        self.records = new_records;
        proof {
            assert forall|i: int, j: int|
                0 <= i < self.records@.len() && 0 <= j < self.records@.len() && i != j implies (
            #[trigger] self.records@[i]).address != (#[trigger] self.records@[j]).address by {
                assert(pre[i].address != pre[j].address);
            }
            assert forall|i: int| 0 <= i < self.records@.len() implies (
            #[trigger] self.records@[i]).holders@.no_duplicates() by {
                assert(self.records@[i].holders@ == pre[i].holders@.filter(not_name(name)));
                filtered_no_duplicates(pre[i].holders@, not_name(name));
            }
        }
        tasks
    }
}

} // verus!
