//! Applying one event of a peer router to the local state.
//!
//! The request index, the worker table and the sequences live in the host,
//! behind its locks. [`apply_replica_event`] says what the host does first; the
//! host hands its answer to the function that the step names, which says what
//! comes next.

use super::effects::{ReplicaBatchEffects, WorkerWithDpRank};
use super::entries::{Instant, LifecycleKey, ReplicaLifecycleKey};
#[allow(unused_imports)]
use super::entries::key_view;
use super::reorder::{ReplicaLifecycleReorderState, Reordered};
use vstd::prelude::*;

verus! {

/// What happened to a request on a peer router.
///
/// `P` is what a new request brings along: its token sequence, whether its
/// prefill tokens are tracked, the output that is expected, and a hint at the
/// prefill load.
pub enum ActiveSequenceEventData<P> {
    AddRequest(P),
    Free,
    MarkPrefillCompleted,
}

/// An event that a router published.
pub struct ActiveSequenceEvent<P> {
    pub request_id: String,
    pub worker: WorkerWithDpRank,
    pub data: ActiveSequenceEventData<P>,
    pub router_id: u64,
    pub lora_name: Option<String>,
}

/// The router that applies the events of its peers.
pub struct ReplicaRouter {
    pub router_id: u64,
    /// A worker that an added request names, and that is not known yet, is
    /// registered.
    pub lazy_register: bool,
}

/// What the host does first.
pub enum ReplicaStep<P> {
    /// Nothing: the event is applied.
    Finished,
    /// Look up the worker, then go on with [`ReplicaAdd::locate`].
    Add(ReplicaAdd<P>),
    /// Take the request out of the request index, then go on with
    /// [`ReplicaFree::locate`].
    Free(ReplicaFree),
    /// Look up the request in the request index, then go on with
    /// [`ReplicaPrefill::locate`].
    CompletePrefill(ReplicaPrefill),
}

/// A request to be added, once its worker is looked up.
pub struct ReplicaAdd<P> {
    /// Register the worker before it is looked up.
    pub register_worker: bool,
    pub insert: ReplicaInsert<P>,
}

/// A request to be put into the request index and into its worker's sequences.
///
/// Once that is done and the worker's load is taken, the host calls
/// [`request_added`].
pub struct ReplicaInsert<P> {
    pub request_id: String,
    pub worker: WorkerWithDpRank,
    pub lora_name: Option<String>,
    pub request: P,
    /// Mark the prefill as completed, after the request is in.
    pub prefill_completed: bool,
    pub decay_now: Instant,
}

/// A request to be freed, once its worker is looked up.
pub struct ReplicaFree {
    pub key: ReplicaLifecycleKey,
    pub decay_now: Instant,
}

/// A request whose prefill completed, once its worker is looked up.
pub struct ReplicaPrefill {
    pub key: ReplicaLifecycleKey,
    pub decay_now: Instant,
}

/// A change to the sequences of a worker that may be gone from the worker table.
///
/// The host looks up the worker, then goes on with [`SequenceUpdate::locate`].
/// Where that gives the change back, the host makes it, takes the worker's load,
/// and calls [`request_freed`] or [`prefill_completed`]. Otherwise the event is
/// applied, and leaves nothing to be done.
pub struct SequenceUpdate {
    pub worker: WorkerWithDpRank,
    pub request_id: String,
    pub decay_now: Instant,
}

impl<P> ActiveSequenceEvent<P> {
    /// The lifecycle key of the request that the event is about.
    pub open spec fn key(self) -> LifecycleKey {
        (self.router_id, self.request_id@)
    }
}

impl Reordered {
    /// After a request was added, or refused because it was freed before.
    pub open spec fn after_add(self, key: LifecycleKey) -> Self {
        Reordered { prefilled: self.prefilled.taken(key), ..self }
    }

    /// After a request was freed.
    pub open spec fn after_free(self, key: LifecycleKey, now: Instant) -> Self {
        Reordered { freed: self.freed.recorded(key, now), prefilled: self.prefilled.taken(key) }
    }

    /// After a prefill completed of a request that is in the request index, or
    /// that is not there yet.
    pub open spec fn after_prefill(self, key: LifecycleKey, now: Instant, found: bool) -> Self {
        Reordered {
            prefilled: if found {
                self.prefilled.taken(key)
            } else {
                self.prefilled.recorded(key, now)
            },
            ..self
        }
    }
}

/// Starts to apply an event.
///
/// An event that the router published itself changes nothing. An added request
/// that was freed before is dropped. Any other added request is registered,
/// located and inserted; if its prefill completed before it came, it is
/// inserted as completed.
pub fn apply_replica_event<P>(
    router: &ReplicaRouter,
    event: ActiveSequenceEvent<P>,
    reorder_state: &mut ReplicaLifecycleReorderState,
    decay_now: Instant,
) -> (step: ReplicaStep<P>)
    ensures
        ({
            let before = old(reorder_state)@;
            let after = final(reorder_state)@;
            let pruned = before.pruned(decay_now);
            let key = event.key();
            if event.router_id == router.router_id {
                step is Finished && after == before
            } else {
                match event.data {
                    ActiveSequenceEventData::AddRequest(request) => {
                        &&& after == pruned.after_add(key)
                        &&& pruned.freed.entries.contains_key(key) ==> step is Finished
                        &&& !pruned.freed.entries.contains_key(key) ==> step == ReplicaStep::Add(
                            ReplicaAdd {
                                register_worker: router.lazy_register,
                                insert: ReplicaInsert {
                                    request_id: event.request_id,
                                    worker: event.worker,
                                    lora_name: event.lora_name,
                                    request,
                                    prefill_completed: pruned.prefilled.entries.contains_key(key),
                                    decay_now,
                                },
                            },
                        )
                    },
                    ActiveSequenceEventData::Free => {
                        &&& after == pruned
                        &&& step == ReplicaStep::<P>::Free(
                            ReplicaFree { key: (event.router_id, event.request_id), decay_now },
                        )
                    },
                    ActiveSequenceEventData::MarkPrefillCompleted => {
                        &&& after == pruned
                        &&& step == ReplicaStep::<P>::CompletePrefill(
                            ReplicaPrefill { key: (event.router_id, event.request_id), decay_now },
                        )
                    },
                }
            }
        }),
{
    let ActiveSequenceEvent { request_id, worker, data, router_id, lora_name } = event;
    if router_id == router.router_id {
        return ReplicaStep::Finished;
    }
    reorder_state.prune(decay_now);
    match data {
        ActiveSequenceEventData::AddRequest(request) => {
            let lifecycle_key = (router_id, request_id.clone());
            let freed = reorder_state.was_freed(&lifecycle_key);
            let prefill_completed = reorder_state.take_pending_prefill_completed(&lifecycle_key);
            if freed {
                return ReplicaStep::Finished;
            }
            ReplicaStep::Add(
                ReplicaAdd {
                    register_worker: router.lazy_register,
                    insert: ReplicaInsert {
                        request_id,
                        worker,
                        lora_name,
                        request,
                        prefill_completed,
                        decay_now,
                    },
                },
            )
        },
        ActiveSequenceEventData::Free => ReplicaStep::Free(
            ReplicaFree { key: (router_id, request_id), decay_now },
        ),
        ActiveSequenceEventData::MarkPrefillCompleted => ReplicaStep::CompletePrefill(
            ReplicaPrefill { key: (router_id, request_id), decay_now },
        ),
    }
}

impl<P> ReplicaAdd<P> {
    /// Goes on once the worker is looked up: a request for a worker that is not
    /// registered is dropped.
    pub fn locate(self, worker_registered: bool) -> (insert: Option<ReplicaInsert<P>>)
        ensures
            insert == (if worker_registered {
                Some(self.insert)
            } else {
                None
            }),
    {
        if worker_registered {
            Some(self.insert)
        } else {
            None
        }
    }
}

impl ReplicaFree {
    /// Goes on once the request is out of the request index. The request counts
    /// as freed whether or not it was there.
    pub fn locate(
        self,
        worker: Option<WorkerWithDpRank>,
        reorder_state: &mut ReplicaLifecycleReorderState,
    ) -> (update: Option<SequenceUpdate>)
        ensures
            final(reorder_state)@ == old(reorder_state)@.after_free(
                key_view(self.key),
                self.decay_now,
            ),
            match worker {
                Some(w) => update == Some(
                    SequenceUpdate {
                        worker: w,
                        request_id: self.key.1,
                        decay_now: self.decay_now,
                    },
                ),
                None => update is None,
            },
    {
        let request_id = self.key.1.clone();
        reorder_state.take_pending_prefill_completed(&self.key);
        reorder_state.record_free(self.key, self.decay_now);
        match worker {
            Some(worker) => Some(
                SequenceUpdate { worker, request_id, decay_now: self.decay_now },
            ),
            None => None,
        }
    }
}

impl ReplicaPrefill {
    /// Goes on once the request is looked up. That its prefill completed is
    /// remembered if the request is not there yet.
    pub fn locate(
        self,
        worker: Option<WorkerWithDpRank>,
        reorder_state: &mut ReplicaLifecycleReorderState,
    ) -> (update: Option<SequenceUpdate>)
        ensures
            final(reorder_state)@ == old(reorder_state)@.after_prefill(
                key_view(self.key),
                self.decay_now,
                worker is Some,
            ),
            match worker {
                Some(w) => update == Some(
                    SequenceUpdate {
                        worker: w,
                        request_id: self.key.1,
                        decay_now: self.decay_now,
                    },
                ),
                None => update is None,
            },
    {
        match worker {
            Some(worker) => {
                reorder_state.take_pending_prefill_completed(&self.key);
                Some(
                    SequenceUpdate {
                        worker,
                        request_id: self.key.1,
                        decay_now: self.decay_now,
                    },
                )
            },
            None => {
                reorder_state.record_pending_prefill_completed(self.key, self.decay_now);
                None
            },
        }
    }
}

impl SequenceUpdate {
    /// Goes on once the worker is looked up: nothing changes in the sequences of
    /// a worker that is no longer registered.
    pub fn locate(self, worker_registered: bool) -> (update: Option<SequenceUpdate>)
        ensures
            update == (if worker_registered {
                Some(self)
            } else {
                None
            }),
    {
        if worker_registered {
            Some(self)
        } else {
            None
        }
    }
}

/// Ends the application of an added request, with the load of its worker.
pub fn request_added<L>(
    worker: WorkerWithDpRank,
    prefill_completed: bool,
    load: L,
    effects: &mut ReplicaBatchEffects<L>,
)
    ensures
        final(effects)@ == old(effects)@.with_load(worker, load, true).with_wake(
            prefill_completed,
        ).with_cleanup(),
{
    effects.record_worker_load(worker, load, true);
    effects.request_wake(prefill_completed);
    effects.request_cleanup();
}

/// Ends the application of a freed request, with the load of its worker.
pub fn request_freed<L>(
    worker: WorkerWithDpRank,
    load: L,
    effects: &mut ReplicaBatchEffects<L>,
)
    ensures
        final(effects)@ == old(effects)@.with_load(worker, load, true).with_wake(
            true,
        ).with_cleanup(),
{
    effects.record_worker_load(worker, load, true);
    effects.request_wake(true);
    effects.request_cleanup();
}

/// Ends the application of a completed prefill, with the load of its worker.
/// The load by itself is not published.
pub fn prefill_completed<L>(
    worker: WorkerWithDpRank,
    load: L,
    effects: &mut ReplicaBatchEffects<L>,
)
    ensures
        final(effects)@ == old(effects)@.with_load(worker, load, false).with_wake(true),
{
    effects.record_worker_load(worker, load, false);
    effects.request_wake(true);
}

} // verus!
