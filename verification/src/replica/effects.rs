//! What a batch of replica events leaves to be done once the batch is over.

use rustc_hash::FxHashMap;
use vstd::prelude::*;

verus! {

/// A worker, and the data-parallel rank in it that a request runs on.
#[derive(Clone, Copy, Debug, PartialEq, Eq, Structural)]
pub struct WorkerWithDpRank {
    pub worker_id: u64,
    pub dp_rank: u32,
}

/// `rustc_hash::FxBuildHasher`: the hasher of an `FxHashMap`.
#[verifier::external_type_specification]
#[verifier::external_body]
pub struct ExFxBuildHasher(rustc_hash::FxBuildHasher);

/// Calls `get` of an `FxHashMap`, which returns the value of `key`, and `None`
/// where the map does not hold the key.
///
/// The hash of a pair of integers is a function of the pair alone, so a key is
/// found wherever an equal key was put in.
#[verifier::external_body]
fn fx_get<V>(map: &FxHashMap<(u64, u32), V>, key: (u64, u32)) -> (value: Option<&V>)
    ensures
        match value {
            Some(v) => map@.contains_key(key) && map@[key] == *v,
            None => !map@.contains_key(key),
        },
{
    map.get(&key)
}

/// Calls `insert` of an `FxHashMap`, which sets the value of `key`, leaves every
/// other key as it was, and returns the value that the key had before.
#[verifier::external_body]
fn fx_insert<V>(map: &mut FxHashMap<(u64, u32), V>, key: (u64, u32), value: V) -> (before: Option<
    V,
>)
    ensures
        final(map)@ == old(map)@.insert(key, value),
        before == old(map)@.get(key),
{
    map.insert(key, value)
}

/// Calls `drain` of an `FxHashMap` and collects what it hands out: every pair
/// of the map once, in some order. The map is empty afterwards.
#[verifier::external_body]
fn fx_drain<V>(map: &mut FxHashMap<(u64, u32), V>) -> (pairs: Vec<((u64, u32), V)>)
    ensures
        (final(map)@ == Map::<(u64, u32), V>::empty()),
        forall|i: int|
            0 <= i < pairs@.len() ==> old(map)@.contains_pair(
                (#[trigger] pairs@[i]).0,
                pairs@[i].1,
            ),
        forall|i: int, j: int|
            0 <= i < j < pairs@.len() ==> (#[trigger] pairs@[i]).0 != (#[trigger] pairs@[j]).0,
        forall|key: (u64, u32)| #[trigger]
            old(map)@.contains_key(key) ==> exists|i: int|
                0 <= i < pairs@.len() && (#[trigger] pairs@[i]).0 == key,
{
    map.drain().collect()
}

/// A worker's load that waits for the end of the batch.
pub struct PendingLoadPublication<L> {
    /// The last load that was recorded.
    pub latest_load: L,
    /// Some event of the batch asked for the load to be published.
    pub publish: bool,
}

/// What a batch leaves to be done, in contracts.
#[verifier::ext_equal]
pub struct BatchEffects<L> {
    pub worker_loads: Map<WorkerWithDpRank, PendingLoadPublication<L>>,
    pub wake_scheduler: bool,
    pub cleanup_prompt_trie: bool,
}

impl<L> BatchEffects<L> {
    /// Nothing is to be done.
    pub open spec fn nothing() -> Self {
        BatchEffects {
            worker_loads: Map::empty(),
            wake_scheduler: false,
            cleanup_prompt_trie: false,
        }
    }

    /// After a load of `worker` was recorded: the load replaces an earlier one,
    /// and a publication that was asked for stays asked for.
    pub open spec fn with_load(self, worker: WorkerWithDpRank, load: L, publish: bool) -> Self {
        let asked = self.worker_loads.contains_key(worker) && self.worker_loads[worker].publish;
        BatchEffects {
            worker_loads: self.worker_loads.insert(
                worker,
                PendingLoadPublication { latest_load: load, publish: publish || asked },
            ),
            ..self
        }
    }

    /// After the scheduler was asked to wake, if `wake`.
    pub open spec fn with_wake(self, wake: bool) -> Self {
        BatchEffects { wake_scheduler: self.wake_scheduler || wake, ..self }
    }

    /// After a cleanup of the prompt trie was asked for.
    pub open spec fn with_cleanup(self) -> Self {
        BatchEffects { cleanup_prompt_trie: true, ..self }
    }

    /// The loads that are to be published.
    pub open spec fn published(self) -> Map<WorkerWithDpRank, L> {
        Map::new(
            |worker: WorkerWithDpRank|
                self.worker_loads.contains_key(worker) && self.worker_loads[worker].publish,
            |worker: WorkerWithDpRank| self.worker_loads[worker].latest_load,
        )
    }
}

/// `batch` lists every pair of `loads` once.
pub open spec fn lists<L>(
    batch: Seq<(WorkerWithDpRank, L)>,
    loads: Map<WorkerWithDpRank, L>,
) -> bool {
    &&& forall|i: int|
        0 <= i < batch.len() ==> loads.contains_pair((#[trigger] batch[i]).0, batch[i].1)
    &&& forall|i: int, j: int|
        0 <= i < j < batch.len() ==> (#[trigger] batch[i]).0 != (#[trigger] batch[j]).0
    &&& forall|worker: WorkerWithDpRank| #[trigger]
        loads.contains_key(worker) ==> exists|i: int|
            0 <= i < batch.len() && (#[trigger] batch[i]).0 == worker
}

/// What a batch of replica events leaves to be done.
///
/// `L` is the load of a worker, as the host takes it.
#[verifier::reject_recursive_types(L)]
pub struct ReplicaBatchEffects<L> {
    worker_loads: FxHashMap<(u64, u32), PendingLoadPublication<L>>,
    wake_scheduler: bool,
    cleanup_prompt_trie: bool,
}

impl<L> View for ReplicaBatchEffects<L> {
    type V = BatchEffects<L>;

    closed spec fn view(&self) -> BatchEffects<L> {
        BatchEffects {
            worker_loads: Map::new(
                |worker: WorkerWithDpRank|
                    self.worker_loads@.contains_key((worker.worker_id, worker.dp_rank)),
                |worker: WorkerWithDpRank| self.worker_loads@[(worker.worker_id, worker.dp_rank)],
            ),
            wake_scheduler: self.wake_scheduler,
            cleanup_prompt_trie: self.cleanup_prompt_trie,
        }
    }
}

/// What the host does at the end of a batch.
pub struct ReplicaFlush<L> {
    /// The loads to observe and publish, in some order; `None` where there is
    /// none, and then nothing is published.
    pub load_batch: Option<Vec<(WorkerWithDpRank, L)>>,
    /// Wake the scheduler.
    pub wake_scheduler: bool,
    /// Clean up the prompt trie.
    pub cleanup_prompt_trie: bool,
}

impl<L> ReplicaBatchEffects<L> {
    /// Nothing is to be done.
    pub fn new() -> (effects: Self)
        ensures
            effects@ == BatchEffects::<L>::nothing(),
    {
        let effects = ReplicaBatchEffects {
            worker_loads: FxHashMap::default(),
            wake_scheduler: false,
            cleanup_prompt_trie: false,
        };
        assert(effects@ =~~= BatchEffects::<L>::nothing());
        effects
    }

    /// Records the load of a worker. Only the last load of a batch counts; it
    /// is published if any event of the batch asked for it.
    pub fn record_worker_load(&mut self, worker: WorkerWithDpRank, load: L, publish: bool)
        ensures
            final(self)@ == old(self)@.with_load(worker, load, publish),
    {
        let key = (worker.worker_id, worker.dp_rank);
        let asked = match fx_get(&self.worker_loads, key) {
            Some(pending) => pending.publish,
            None => false,
        };
        let pending = PendingLoadPublication { latest_load: load, publish: publish || asked };
        let _ = fx_insert(&mut self.worker_loads, key, pending);
        assert(self@ =~~= old(self)@.with_load(worker, load, publish));
    }

    /// Asks for the scheduler to be woken, if `wake`.
    pub fn request_wake(&mut self, wake: bool)
        ensures
            final(self)@ == old(self)@.with_wake(wake),
    {
        self.wake_scheduler = self.wake_scheduler || wake;
    }

    /// Asks for the prompt trie to be cleaned up.
    pub fn request_cleanup(&mut self)
        ensures
            final(self)@ == old(self)@.with_cleanup(),
    {
        self.cleanup_prompt_trie = true;
    }

    /// Hands out what the batch leaves to be done, and leaves nothing.
    ///
    /// A load that no event asked to publish is dropped.
    pub fn flush_replica_batch_effects(&mut self) -> (flush: ReplicaFlush<L>)
        ensures
            final(self)@ == BatchEffects::<L>::nothing(),
            flush.wake_scheduler == old(self)@.wake_scheduler,
            flush.cleanup_prompt_trie == old(self)@.cleanup_prompt_trie,
            match flush.load_batch {
                Some(batch) => batch@.len() > 0 && lists(batch@, old(self)@.published()),
                None => old(self)@.published() == Map::<WorkerWithDpRank, L>::empty(),
            },
    {
        let mut pairs = fx_drain(&mut self.worker_loads);
        let ghost all = pairs@;
        let ghost mut from: Seq<int> = Seq::empty();
        let mut batch: Vec<(WorkerWithDpRank, L)> = Vec::new();
        while pairs.len() > 0
            invariant
                pairs@ == all.take(pairs@.len() as int),
                pairs@.len() <= all.len(),
                from.len() == batch@.len(),
                forall|k: int|
                    0 <= k < from.len() ==> {
                        &&& pairs@.len() <= (#[trigger] from[k]) < all.len()
                        &&& all[from[k]].1.publish
                        &&& (batch@[k].0.worker_id, batch@[k].0.dp_rank) == all[from[k]].0
                        &&& batch@[k].1 == all[from[k]].1.latest_load
                    },
                forall|k: int, l: int| 0 <= k < l < from.len() ==> from[k] > from[l],
                forall|i: int|
                    pairs@.len() <= i < all.len() && (#[trigger] all[i]).1.publish
                        ==> from.contains(i),
            decreases pairs@.len(),
        {
            let ghost count = pairs@.len();
            if let Some(((worker_id, dp_rank), pending)) = pairs.pop() {
                let ghost before = from;
                assert(all[count - 1] == ((worker_id, dp_rank), pending));
                assert(pairs@ =~= all.take(pairs@.len() as int));
                if pending.publish {
                    batch.push((WorkerWithDpRank { worker_id, dp_rank }, pending.latest_load));
                    proof {
                        from = from.push(count - 1);
                        assert(from[before.len() as int] == count - 1);
                        assert forall|i: int|
                            pairs@.len() <= i < all.len() && (
                            #[trigger] all[i]).1.publish implies from.contains(i) by {
                            if i != count - 1 {
                                assert(before.contains(i));
                                let k = choose|k: int| 0 <= k < before.len() && before[k] == i;
                                assert(from[k] == i);
                            }
                        }
                    }
                }
            }
        }
        let wake_scheduler = self.wake_scheduler;
        let cleanup_prompt_trie = self.cleanup_prompt_trie;
        self.wake_scheduler = false;
        self.cleanup_prompt_trie = false;
        proof {
            let loads = old(self)@.published();
            assert forall|k: int| 0 <= k < batch@.len() implies loads.contains_pair(
                (#[trigger] batch@[k]).0,
                batch@[k].1,
            ) by {
                let i = from[k];
                assert(old(self).worker_loads@.contains_pair(all[i].0, all[i].1));
            }
            assert forall|k: int, l: int| 0 <= k < l < batch@.len() implies (
            #[trigger] batch@[k]).0 != (#[trigger] batch@[l]).0 by {
                assert(all[from[l]].0 != all[from[k]].0);
            }
            assert forall|worker: WorkerWithDpRank| #[trigger]
                loads.contains_key(worker) implies exists|k: int|
                0 <= k < batch@.len() && (#[trigger] batch@[k]).0 == worker by {
                let key = (worker.worker_id, worker.dp_rank);
                assert(old(self).worker_loads@.contains_key(key));
                let i = choose|i: int| 0 <= i < all.len() && (#[trigger] all[i]).0 == key;
                assert(old(self).worker_loads@.contains_pair(all[i].0, all[i].1));
                assert(from.contains(i));
                let k = choose|k: int| 0 <= k < from.len() && from[k] == i;
                assert(batch@[k].0 == worker);
            }
            assert(self@ =~~= BatchEffects::<L>::nothing());
            if batch@.len() == 0 {
                assert(loads =~= Map::<WorkerWithDpRank, L>::empty());
            }
        }
        let load_batch = if batch.len() > 0 {
            Some(batch)
        } else {
            None
        };
        ReplicaFlush { load_batch, wake_scheduler, cleanup_prompt_trie }
    }
}

/// The flush publishes `load` as the load of `worker`.
pub open spec fn publishes<L>(flush: ReplicaFlush<L>, worker: WorkerWithDpRank, load: L) -> bool {
    flush.load_batch matches Some(batch) && batch@.contains((worker, load))
}

/// The flush publishes some load of `worker`.
pub open spec fn publishes_some<L>(flush: ReplicaFlush<L>, worker: WorkerWithDpRank) -> bool {
    exists|load: L| #[trigger] publishes(flush, worker, load)
}

pub(crate) proof fn lemma_listed<L>(flush: ReplicaFlush<L>, loads: Map<WorkerWithDpRank, L>)
    requires
        match flush.load_batch {
            Some(batch) => batch@.len() > 0 && lists(batch@, loads),
            None => loads == Map::<WorkerWithDpRank, L>::empty(),
        },
    ensures
        forall|worker: WorkerWithDpRank, load: L| #[trigger]
            publishes(flush, worker, load) <==> loads.contains_pair(worker, load),
        forall|worker: WorkerWithDpRank| #[trigger]
            publishes_some(flush, worker) <==> loads.contains_key(worker),
{
    assert forall|worker: WorkerWithDpRank, load: L| #[trigger]
        publishes(flush, worker, load) <==> loads.contains_pair(worker, load) by {
        if let Some(batch) = flush.load_batch {
            if loads.contains_pair(worker, load) {
                assert(loads.contains_key(worker));
                let i = choose|i: int| 0 <= i < batch@.len() && (#[trigger] batch@[i]).0 == worker;
                assert(loads.contains_pair(batch@[i].0, batch@[i].1));
                assert(batch@[i] == (worker, load));
            }
            if batch@.contains((worker, load)) {
                let i = choose|i: int| 0 <= i < batch@.len() && batch@[i] == (worker, load);
                assert(loads.contains_pair(batch@[i].0, batch@[i].1));
            }
        }
    }
    assert forall|worker: WorkerWithDpRank| #[trigger]
        publishes_some(flush, worker) <==> loads.contains_key(worker) by {
        if loads.contains_key(worker) {
            assert(publishes(flush, worker, loads[worker]));
        }
    }
}

/// A new batch leaves nothing to be done, and a flush leaves nothing to the next
/// one.
pub proof fn law_nothing_is_flushed_twice<L>(
    fresh: ReplicaBatchEffects<L>,
    first: &mut ReplicaBatchEffects<L>,
    first_flush: ReplicaFlush<L>,
    next: &mut ReplicaBatchEffects<L>,
    next_flush: ReplicaFlush<L>,
)
    requires
        call_ensures(ReplicaBatchEffects::<L>::new, (), fresh),
        call_ensures(ReplicaBatchEffects::<L>::flush_replica_batch_effects, (first,), first_flush),
        *old(next) == fresh || *old(next) == *final(first),
        call_ensures(ReplicaBatchEffects::<L>::flush_replica_batch_effects, (next,), next_flush),
    ensures
        next_flush.load_batch is None,
        !next_flush.wake_scheduler,
        !next_flush.cleanup_prompt_trie,
{
    let nothing = BatchEffects::<L>::nothing();
    assert(old(next)@ == nothing);
    assert(nothing.published() =~= Map::<WorkerWithDpRank, L>::empty());
    if let Some(batch) = next_flush.load_batch {
        assert(nothing.published().contains_pair(batch@[0].0, batch@[0].1));
    }
}

/// What a record of a load changes in the flush that follows: the load of its
/// worker is published if the record asks for it or an earlier one did, and it is
/// the load that counts; the loads of other workers are published as without it.
/// Whether the scheduler wakes and the trie is cleaned up plays no part, and is
/// not touched.
pub proof fn law_recorded_load_is_published<L>(
    without: &mut ReplicaBatchEffects<L>,
    flush_without: ReplicaFlush<L>,
    recorded: &mut ReplicaBatchEffects<L>,
    worker: WorkerWithDpRank,
    load: L,
    publish: bool,
    with: &mut ReplicaBatchEffects<L>,
    flush_with: ReplicaFlush<L>,
)
    requires
        call_ensures(
            ReplicaBatchEffects::<L>::flush_replica_batch_effects,
            (without,),
            flush_without,
        ),
        *old(recorded) == *old(without),
        call_ensures(
            ReplicaBatchEffects::<L>::record_worker_load,
            (recorded, worker, load, publish),
            (),
        ),
        *old(with) == *final(recorded),
        call_ensures(ReplicaBatchEffects::<L>::flush_replica_batch_effects, (with,), flush_with),
    ensures
        publishes(flush_with, worker, load) <==> publish || publishes_some(flush_without, worker),
        publishes_some(flush_with, worker) <==> publishes(flush_with, worker, load),
        forall|other: WorkerWithDpRank, other_load: L|
            other != worker ==> (#[trigger] publishes(flush_with, other, other_load) <==> publishes(
                flush_without,
                other,
                other_load,
            )),
        flush_with.wake_scheduler == flush_without.wake_scheduler,
        flush_with.cleanup_prompt_trie == flush_without.cleanup_prompt_trie,
{
    lemma_listed(flush_without, old(without)@.published());
    lemma_listed(flush_with, old(with)@.published());
    let before = old(without)@;
    let after = old(with)@;
    assert(after == before.with_load(worker, load, publish));
}

/// Where a worker is published at all, it is published once, with one load; and
/// a batch that is handed out is not empty.
pub proof fn law_each_worker_is_published_once<L>(
    effects: &mut ReplicaBatchEffects<L>,
    flush: ReplicaFlush<L>,
)
    requires
        call_ensures(ReplicaBatchEffects::<L>::flush_replica_batch_effects, (effects,), flush),
    ensures
        flush.load_batch matches Some(batch) ==> batch@.len() > 0 && forall|i: int, j: int|
            0 <= i < j < batch@.len() ==> (#[trigger] batch@[i]).0 != (#[trigger] batch@[j]).0,
{
}

/// Asking for the scheduler to be woken changes that in the flush that follows,
/// and nothing else.
pub proof fn law_wake_is_flushed<L>(
    without: &mut ReplicaBatchEffects<L>,
    flush_without: ReplicaFlush<L>,
    asked: &mut ReplicaBatchEffects<L>,
    wake: bool,
    with: &mut ReplicaBatchEffects<L>,
    flush_with: ReplicaFlush<L>,
)
    requires
        call_ensures(
            ReplicaBatchEffects::<L>::flush_replica_batch_effects,
            (without,),
            flush_without,
        ),
        *old(asked) == *old(without),
        call_ensures(ReplicaBatchEffects::<L>::request_wake, (asked, wake), ()),
        *old(with) == *final(asked),
        call_ensures(ReplicaBatchEffects::<L>::flush_replica_batch_effects, (with,), flush_with),
    ensures
        flush_with.wake_scheduler <==> wake || flush_without.wake_scheduler,
        flush_with.cleanup_prompt_trie == flush_without.cleanup_prompt_trie,
        forall|worker: WorkerWithDpRank, load: L| #[trigger]
            publishes(flush_with, worker, load) <==> publishes(flush_without, worker, load),
{
    lemma_listed(flush_without, old(without)@.published());
    lemma_listed(flush_with, old(with)@.published());
    assert(old(with)@.published() =~= old(without)@.published());
}

/// Asking for a cleanup changes that in the flush that follows, and nothing else.
pub proof fn law_cleanup_is_flushed<L>(
    without: &mut ReplicaBatchEffects<L>,
    flush_without: ReplicaFlush<L>,
    asked: &mut ReplicaBatchEffects<L>,
    with: &mut ReplicaBatchEffects<L>,
    flush_with: ReplicaFlush<L>,
)
    requires
        call_ensures(
            ReplicaBatchEffects::<L>::flush_replica_batch_effects,
            (without,),
            flush_without,
        ),
        *old(asked) == *old(without),
        call_ensures(ReplicaBatchEffects::<L>::request_cleanup, (asked,), ()),
        *old(with) == *final(asked),
        call_ensures(ReplicaBatchEffects::<L>::flush_replica_batch_effects, (with,), flush_with),
    ensures
        flush_with.cleanup_prompt_trie,
        flush_with.wake_scheduler == flush_without.wake_scheduler,
        forall|worker: WorkerWithDpRank, load: L| #[trigger]
            publishes(flush_with, worker, load) <==> publishes(flush_without, worker, load),
{
    lemma_listed(flush_without, old(without)@.published());
    lemma_listed(flush_with, old(with)@.published());
    assert(old(with)@.published() =~= old(without)@.published());
}

} // verus!
