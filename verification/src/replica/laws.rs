//! What holds of the reorder state over any run of events.

use super::entries::{Instant, LifecycleKey};
use super::reorder::{
    REPLICA_REORDER_STATE_TTL, Remembered, Reordered, ReplicaLifecycleReorderState,
};
use super::effects::{ReplicaBatchEffects, ReplicaFlush, WorkerWithDpRank};
#[allow(unused_imports)]
use super::effects::{BatchEffects, lemma_listed, publishes, publishes_some};
use super::event::{
    ActiveSequenceEvent, ReplicaAdd, ReplicaFree, ReplicaInsert, ReplicaPrefill, ReplicaRouter,
    ReplicaStep, SequenceUpdate,
};
#[allow(unused_imports)]
use super::event::{
    ActiveSequenceEventData, apply_replica_event, prefill_completed, request_added, request_freed,
};
#[allow(unused_imports)]
use super::reorder::{
    expired, expired_prefix, law_prune_forgets_exactly_the_expired, law_record_keeps_well_formed,
    law_take_is_once, lemma_expired_front,
};
use vstd::prelude::*;

verus! {

/// What an event says of the request it is about, and what the host found.
pub enum Lifecycle {
    /// The request runs on a worker, which is registered, or gets registered,
    /// or not.
    Add { worker: WorkerWithDpRank, registered: bool },
    Free,
    /// The prefill completed; the request was found in the request index or not.
    Prefill { found: bool },
}

/// An event, with the instant at which it was applied.
pub struct Applied {
    pub key: LifecycleKey,
    pub what: Lifecycle,
    pub now: Instant,
}

/// The reorder state of the router `own` after it applied an event.
pub open spec fn reorder_after(own: u64, before: Reordered, event: Applied) -> Reordered {
    let pruned = before.pruned(event.now);
    if event.key.0 == own {
        before
    } else {
        match event.what {
            Lifecycle::Add { .. } => pruned.after_add(event.key),
            Lifecycle::Free => pruned.after_free(event.key, event.now),
            Lifecycle::Prefill { found } => pruned.after_prefill(event.key, event.now, found),
        }
    }
}

/// The reorder state of the router `own` after it applied `events` in order.
pub open spec fn reorder_run(own: u64, before: Reordered, events: Seq<Applied>) -> Reordered
    decreases events.len(),
{
    if events.len() == 0 {
        before
    } else {
        reorder_after(own, reorder_run(own, before, events.drop_last()), events.last())
    }
}

/// The events were applied one after the other, none before `start` and none
/// after `end`.
pub open spec fn in_time_order(start: Instant, events: Seq<Applied>, end: Instant) -> bool {
    &&& start <= end
    &&& forall|i: int| 0 <= i < events.len() ==> start <= (#[trigger] events[i]).now <= end
    &&& forall|i: int, j: int| 0 <= i <= j < events.len() ==> events[i].now <= events[j].now
}

/// The instant of the last event, or `start` where there is none.
pub open spec fn last_instant(start: Instant, events: Seq<Applied>) -> Instant {
    if events.len() == 0 {
        start
    } else {
        events.last().now
    }
}

pub(crate) proof fn lemma_in_time_order_drop_last(start: Instant, events: Seq<Applied>, end: Instant)
    requires
        in_time_order(start, events, end),
        events.len() > 0,
    ensures
        in_time_order(start, events.drop_last(), events.last().now),
        last_instant(start, events.drop_last()) <= events.last().now <= end,
{
    let rest = events.drop_last();
    assert(forall|i: int| 0 <= i < rest.len() ==> rest[i] == events[i]);
    assert(events[events.len() - 1] == events.last());
    assert forall|i: int| 0 <= i < rest.len() implies start <= (#[trigger] rest[i]).now
        <= events.last().now by {
        assert(events[i].now <= events[events.len() - 1].now);
    }
}

proof fn lemma_seen_later(memory: Remembered, earlier: Instant, later: Instant)
    requires
        memory.seen_by(earlier),
        earlier <= later,
    ensures
        memory.seen_by(later),
        memory.pruned(later).seen_by(later),
{
    let after = memory.pruned(later);
    lemma_expired_front(memory.order, later);
    assert forall|i: int| 0 <= i < after.order.len() implies (#[trigger] after.order[i]).0
        <= later by {
        let front = expired_prefix(memory.order, later) as int;
        assert(after.order[i] == memory.order[i + front]);
    }
}

/// One event that is no earlier than what was seen before keeps the reorder
/// state well formed.
pub(crate) proof fn lemma_event_keeps_well_formed(
    own: u64,
    before: Reordered,
    event: Applied,
    earlier: Instant,
)
    requires
        before.well_formed(),
        before.seen_by(earlier),
        earlier <= event.now,
    ensures
        reorder_after(own, before, event).well_formed(),
        reorder_after(own, before, event).seen_by(event.now),
        before.pruned(event.now).well_formed(),
        before.pruned(event.now).seen_by(event.now),
{
    let pruned = before.pruned(event.now);
    lemma_seen_later(before.freed, earlier, event.now);
    lemma_seen_later(before.prefilled, earlier, event.now);
    law_prune_forgets_exactly_the_expired(before.freed, event.now);
    law_prune_forgets_exactly_the_expired(before.prefilled, event.now);
    law_take_is_once(pruned.prefilled, event.key);
    law_record_keeps_well_formed(pruned.freed, event.key, event.now);
    law_record_keeps_well_formed(pruned.prefilled, event.key, event.now);
}

/// Applying events in the order of time keeps the reorder state well formed,
/// and it never holds an observation from the future.
pub proof fn law_run_keeps_well_formed(
    own: u64,
    before: Reordered,
    start: Instant,
    events: Seq<Applied>,
    end: Instant,
)
    requires
        before.well_formed(),
        before.seen_by(start),
        in_time_order(start, events, end),
    ensures
        reorder_run(own, before, events).well_formed(),
        reorder_run(own, before, events).seen_by(last_instant(start, events)),
    decreases events.len(),
{
    if events.len() > 0 {
        lemma_in_time_order_drop_last(start, events, end);
        let rest = events.drop_last();
        law_run_keeps_well_formed(own, before, start, rest, events.last().now);
        lemma_event_keeps_well_formed(
            own,
            reorder_run(own, before, rest),
            events.last(),
            last_instant(start, rest),
        );
    }
}

/// A reorder state in which nothing is remembered is well formed.
pub proof fn law_start_is_well_formed(now: Instant)
    ensures
        Reordered::nothing().well_formed(),
        Reordered::nothing().seen_by(now),
{
}

pub(crate) proof fn lemma_tombstone_survives(
    own: u64,
    before: Reordered,
    key: LifecycleKey,
    start: Instant,
    events: Seq<Applied>,
    end: Instant,
)
    requires
        before.well_formed(),
        before.seen_by(start),
        before.freed.knows_since(key, start),
        in_time_order(start, events, end),
        end - start <= REPLICA_REORDER_STATE_TTL,
    ensures
        reorder_run(own, before, events).freed.knows_since(key, start),
    decreases events.len(),
{
    if events.len() > 0 {
        lemma_in_time_order_drop_last(start, events, end);
        let rest = events.drop_last();
        let event = events.last();
        let middle = reorder_run(own, before, rest);
        law_run_keeps_well_formed(own, before, start, rest, event.now);
        lemma_tombstone_survives(own, before, key, start, rest, event.now);
        law_prune_forgets_exactly_the_expired(middle.freed, event.now);
    }
}

/// A request that a peer freed is not added again: whatever events came in
/// between, a request with the same key that arrives within the time to live of
/// the free is dropped.
pub proof fn law_freed_request_is_dropped(
    own: u64,
    before: Reordered,
    seen: Instant,
    key: LifecycleKey,
    freed_at: Instant,
    events: Seq<Applied>,
    now: Instant,
)
    requires
        before.well_formed(),
        before.seen_by(seen),
        seen <= freed_at,
        key.0 != own,
        in_time_order(freed_at, events, now),
        now - freed_at <= REPLICA_REORDER_STATE_TTL,
    ensures
        ({
            let freed = Applied { key, what: Lifecycle::Free, now: freed_at };
            let reached = reorder_run(own, reorder_after(own, before, freed), events);
            reached.pruned(now).freed.entries.contains_key(key)
        }),
{
    let freed = Applied { key, what: Lifecycle::Free, now: freed_at };
    let after = reorder_after(own, before, freed);
    lemma_event_keeps_well_formed(own, before, freed, seen);
    lemma_tombstone_survives(own, after, key, freed_at, events, now);
    law_run_keeps_well_formed(own, after, freed_at, events, now);
    law_prune_forgets_exactly_the_expired(reorder_run(own, after, events).freed, now);
}

/// A request that is not among the freed ones does not get there without an
/// event that frees it.
pub(crate) proof fn lemma_not_freed(
    own: u64,
    before: Reordered,
    events: Seq<Applied>,
    key: LifecycleKey,
)
    requires
        !before.freed.entries.contains_key(key),
        forall|i: int|
            0 <= i < events.len() ==> !((#[trigger] events[i]).key == key
                && events[i].what is Free),
    ensures
        !reorder_run(own, before, events).freed.entries.contains_key(key),
    decreases events.len(),
{
    if events.len() > 0 {
        let rest = events.drop_last();
        assert(forall|i: int| 0 <= i < rest.len() ==> rest[i] == events[i]);
        assert(events[events.len() - 1] == events.last());
        lemma_not_freed(own, before, rest, key);
    }
}

/// Only a request that was freed is dropped: without an event that freed it, a
/// request is not among the freed ones, at any time.
pub proof fn law_only_freed_requests_are_dropped(
    own: u64,
    events: Seq<Applied>,
    key: LifecycleKey,
    now: Instant,
)
    requires
        forall|i: int|
            0 <= i < events.len() ==> !((#[trigger] events[i]).key == key
                && events[i].what is Free),
    ensures
        !reorder_run(own, Reordered::nothing(), events).freed.entries.contains_key(key),
        !reorder_run(own, Reordered::nothing(), events).pruned(now).freed.entries.contains_key(key),
{
    lemma_not_freed(own, Reordered::nothing(), events, key);
}

pub(crate) proof fn lemma_pending_prefill_survives(
    own: u64,
    before: Reordered,
    key: LifecycleKey,
    start: Instant,
    events: Seq<Applied>,
    end: Instant,
)
    requires
        before.well_formed(),
        before.seen_by(start),
        before.prefilled.knows_since(key, start),
        in_time_order(start, events, end),
        end - start <= REPLICA_REORDER_STATE_TTL,
        forall|i: int|
            0 <= i < events.len() ==> (#[trigger] events[i]).key != key || events[i].what == (
            Lifecycle::Prefill { found: false }),
    ensures
        reorder_run(own, before, events).prefilled.knows_since(key, start),
    decreases events.len(),
{
    if events.len() > 0 {
        lemma_in_time_order_drop_last(start, events, end);
        let rest = events.drop_last();
        let event = events.last();
        let middle = reorder_run(own, before, rest);
        assert(forall|i: int| 0 <= i < rest.len() ==> rest[i] == events[i]);
        assert(events[events.len() - 1] == event);
        law_run_keeps_well_formed(own, before, start, rest, event.now);
        lemma_pending_prefill_survives(own, before, key, start, rest, event.now);
        law_prune_forgets_exactly_the_expired(middle.prefilled, event.now);
    }
}

/// A prefill that completed before its request came is not forgotten: whatever
/// happened to other requests in between, a request that arrives within the
/// time to live finds it.
pub proof fn law_early_prefill_waits_for_its_request(
    own: u64,
    before: Reordered,
    seen: Instant,
    key: LifecycleKey,
    completed_at: Instant,
    events: Seq<Applied>,
    now: Instant,
)
    requires
        before.well_formed(),
        before.seen_by(seen),
        seen <= completed_at,
        key.0 != own,
        in_time_order(completed_at, events, now),
        now - completed_at <= REPLICA_REORDER_STATE_TTL,
        forall|i: int|
            0 <= i < events.len() ==> (#[trigger] events[i]).key != key || events[i].what == (
            Lifecycle::Prefill { found: false }),
    ensures
        ({
            let completed = Applied {
                key,
                what: Lifecycle::Prefill { found: false },
                now: completed_at,
            };
            let reached = reorder_run(own, reorder_after(own, before, completed), events);
            reached.pruned(now).prefilled.entries.contains_key(key)
        }),
{
    let completed = Applied { key, what: Lifecycle::Prefill { found: false }, now: completed_at };
    let after = reorder_after(own, before, completed);
    lemma_event_keeps_well_formed(own, before, completed, seen);
    lemma_pending_prefill_survives(own, after, key, completed_at, events, now);
    law_run_keeps_well_formed(own, after, completed_at, events, now);
    law_prune_forgets_exactly_the_expired(reorder_run(own, after, events).prefilled, now);
}

/// An early prefill counts once: after the request came, it is not there for
/// another request with the same key.
pub proof fn law_early_prefill_counts_once(before: Reordered, key: LifecycleKey, now: Instant)
    ensures
        !before.after_add(key).pruned(now).prefilled.entries.contains_key(key),
{
}

/// The reorder state is short-lived: an event that comes more than the time to
/// live after everything that was seen finds nothing remembered.
pub proof fn law_everything_is_forgotten(before: Reordered, seen: Instant, now: Instant)
    requires
        before.well_formed(),
        before.seen_by(seen),
        now - seen > REPLICA_REORDER_STATE_TTL,
    ensures
        before.pruned(now) == Reordered::nothing(),
{
    lemma_all_forgotten(before.freed, seen, now);
    lemma_all_forgotten(before.prefilled, seen, now);
}

proof fn lemma_all_forgotten(memory: Remembered, seen: Instant, now: Instant)
    requires
        memory.well_formed(),
        memory.seen_by(seen),
        now - seen > REPLICA_REORDER_STATE_TTL,
    ensures
        memory.pruned(now) == Remembered::nothing(),
{
    let after = memory.pruned(now);
    law_prune_forgets_exactly_the_expired(memory, now);
    lemma_seen_later(memory, seen, now);
    lemma_expired_front(memory.order, now);
    if after.order.len() > 0 {
        let front = expired_prefix(memory.order, now) as int;
        assert(after.order[0] == memory.order[front]);
        assert(!expired(after.order[0].0, now));
    }
    assert forall|key: LifecycleKey| !after.entries.contains_key(key) by {
        if after.entries.contains_key(key) {
            assert(after.order.contains((after.entries[key], key)));
        }
    }
    assert(after.entries =~= Map::<LifecycleKey, Instant>::empty());
    assert(after.order =~= Seq::<(Instant, LifecycleKey)>::empty());
}

/// Of the loads that a batch records for one worker only the last counts, and
/// it is published if any of them was to be. The other workers' loads stay.
pub proof fn law_last_load_counts<L>(
    before: BatchEffects<L>,
    worker: WorkerWithDpRank,
    first: L,
    publish_first: bool,
    last: L,
    publish_last: bool,
)
    ensures
        before.with_load(worker, first, publish_first).with_load(worker, last, publish_last)
            == before.with_load(worker, last, publish_first || publish_last),
        forall|other: WorkerWithDpRank|
            other != worker ==> (#[trigger] before.with_load(
                worker,
                last,
                publish_last,
            ).worker_loads.get(other)) == before.worker_loads.get(other),
{
    assert(before.with_load(worker, first, publish_first).with_load(worker, last, publish_last)
        =~~= before.with_load(worker, last, publish_first || publish_last));
}

/// An event that the router published itself changes nothing and asks for
/// nothing, whatever it says.
pub proof fn law_own_events_change_nothing<P>(
    router: ReplicaRouter,
    event: ActiveSequenceEvent<P>,
    state: &mut ReplicaLifecycleReorderState,
    now: Instant,
    step: ReplicaStep<P>,
)
    requires
        event.router_id == router.router_id,
        call_ensures(apply_replica_event::<P>, (&router, event, state, now), step),
    ensures
        step is Finished,
        final(state)@ == old(state)@,
{
}

/// What a peer's event does to the reorder state is what [`reorder_after`] says,
/// for the request that is named by the router that published the event and the
/// id that it gave: nothing else of the event plays a part. That holds of an
/// added request at once, and of the others after the host's answer.
pub proof fn law_events_move_the_reorder_state<P>(
    router: ReplicaRouter,
    event: ActiveSequenceEvent<P>,
    state: &mut ReplicaLifecycleReorderState,
    now: Instant,
    step: ReplicaStep<P>,
    located: &mut ReplicaLifecycleReorderState,
    worker: Option<WorkerWithDpRank>,
    update: Option<SequenceUpdate>,
    registered: bool,
)
    requires
        event.router_id != router.router_id,
        call_ensures(apply_replica_event::<P>, (&router, event, state, now), step),
        *old(located) == *final(state),
        step matches ReplicaStep::Free(free) ==> call_ensures(
            ReplicaFree::locate,
            (free, worker, located),
            update,
        ),
        step matches ReplicaStep::CompletePrefill(prefill) ==> call_ensures(
            ReplicaPrefill::locate,
            (prefill, worker, located),
            update,
        ),
    ensures
        ({
            let key = (event.router_id, event.request_id@);
            let after = |what: Lifecycle|
                reorder_after(router.router_id, old(state)@, Applied { key, what, now });
            match event.data {
                ActiveSequenceEventData::AddRequest(_) => (step is Finished || step is Add)
                    && final(state)@ == after(Lifecycle::Add { worker: event.worker, registered }),
                ActiveSequenceEventData::Free => step is Free && final(located)@ == after(
                    Lifecycle::Free,
                ),
                ActiveSequenceEventData::MarkPrefillCompleted => step is CompletePrefill
                    && final(located)@ == after(Lifecycle::Prefill { found: worker is Some }),
            }
        }),
        event.data is AddRequest || update == (match worker {
            Some(worker) => Some(
                SequenceUpdate { worker, request_id: event.request_id, decay_now: now },
            ),
            None => None,
        }),
{
}

/// What an event leaves in the reorder state, request by request. Pruned is what
/// is older than the time to live; beyond that only the request of the event is
/// touched: a free marks it as freed now and drops its completed prefill, an
/// added request takes its completed prefill, and a completed prefill is taken or
/// remembered as the host found the request or not.
pub proof fn law_event_touches_one_request(
    own: u64,
    before: Reordered,
    event: Applied,
    key: LifecycleKey,
)
    requires
        before.well_formed(),
        event.key.0 != own,
    ensures
        ({
            let young = |at: Option<Instant>|
                match at {
                    Some(at) => if event.now - at <= 300_000_000_000 {
                        Some(at)
                    } else {
                        None
                    },
                    None => None,
                };
            let after = reorder_after(own, before, event);
            &&& after.freed.entries.get(key) == (if key == event.key && event.what is Free {
                Some(event.now)
            } else {
                young(before.freed.entries.get(key))
            })
            &&& after.prefilled.entries.get(key) == (if key != event.key {
                young(before.prefilled.entries.get(key))
            } else if event.what == (Lifecycle::Prefill { found: false }) {
                Some(event.now)
            } else {
                None
            })
        }),
{
    law_prune_forgets_exactly_the_expired(before.freed, event.now);
    law_prune_forgets_exactly_the_expired(before.prefilled, event.now);
}

/// A peer's request is dropped if and only if it is remembered as freed, under
/// the router and id that the event names. Any other is handed on as it came,
/// marked as prefilled if and only if a completed prefill of it is remembered.
/// Neither its worker nor anything else that it brings plays a part in that.
pub proof fn law_request_is_dropped_or_handed_on<P>(
    router: ReplicaRouter,
    event: ActiveSequenceEvent<P>,
    state: &mut ReplicaLifecycleReorderState,
    now: Instant,
    step: ReplicaStep<P>,
)
    requires
        event.router_id != router.router_id,
        event.data is AddRequest,
        old(state)@.well_formed(),
        call_ensures(apply_replica_event::<P>, (&router, event, state, now), step),
    ensures
        ({
            let key = (event.router_id, event.request_id@);
            let freed = old(state)@.freed.entries.get(key);
            let prefilled = old(state)@.prefilled.entries.get(key);
            let is_freed = freed matches Some(at) && now - at <= 300_000_000_000;
            let is_prefilled = prefilled matches Some(at) && now - at <= 300_000_000_000;
            &&& is_freed ==> step is Finished
            &&& !is_freed ==> (step matches ReplicaStep::Add(add) && {
                &&& add.register_worker == router.lazy_register
                &&& add.insert.request_id == event.request_id
                &&& add.insert.worker == event.worker
                &&& add.insert.lora_name == event.lora_name
                &&& event.data == ActiveSequenceEventData::AddRequest(add.insert.request)
                &&& add.insert.prefill_completed == is_prefilled
                &&& add.insert.decay_now == now
            })
        }),
{
    law_prune_forgets_exactly_the_expired(old(state)@.freed, now);
    law_prune_forgets_exactly_the_expired(old(state)@.prefilled, now);
}

/// A free that overtakes its request, call by call: the peer's free is applied,
/// then any events, then the request with the same router and id arrives within
/// the time to live. It is dropped, whatever workers, answers and payloads the
/// two events and those in between have.
pub proof fn law_overtaken_request_is_dropped<P, Q>(
    router: ReplicaRouter,
    free_event: ActiveSequenceEvent<P>,
    state: &mut ReplicaLifecycleReorderState,
    freed_at: Instant,
    free: ReplicaFree,
    located: &mut ReplicaLifecycleReorderState,
    worker: Option<WorkerWithDpRank>,
    update: Option<SequenceUpdate>,
    between: Seq<Applied>,
    add_event: ActiveSequenceEvent<Q>,
    reached: &mut ReplicaLifecycleReorderState,
    now: Instant,
    step: ReplicaStep<Q>,
)
    requires
        free_event.router_id != router.router_id,
        free_event.data is Free,
        add_event.data is AddRequest,
        add_event.router_id == free_event.router_id,
        add_event.request_id@ == free_event.request_id@,
        old(state)@.well_formed(),
        old(state)@.seen_by(freed_at),
        call_ensures(
            apply_replica_event::<P>,
            (&router, free_event, state, freed_at),
            ReplicaStep::Free(free),
        ),
        *old(located) == *final(state),
        call_ensures(ReplicaFree::locate, (free, worker, located), update),
        in_time_order(freed_at, between, now),
        now - freed_at <= 300_000_000_000,
        old(reached)@ == reorder_run(router.router_id, final(located)@, between),
        call_ensures(apply_replica_event::<Q>, (&router, add_event, reached, now), step),
    ensures
        step is Finished,
{
    let own = router.router_id;
    let key = (free_event.router_id, free_event.request_id@);
    law_freed_request_is_dropped(own, old(state)@, freed_at, key, freed_at, between, now);
    assert(final(located)@ == reorder_after(
        own,
        old(state)@,
        Applied { key, what: Lifecycle::Free, now: freed_at },
    ));
}

/// A prefill that completes before its request arrives, call by call: the peer's
/// completion is applied and the request is not there, then any events about
/// others, then the request with the same router and id arrives within the time
/// to live. It is handed on as prefilled, unless it was freed.
pub proof fn law_early_prefill_is_handed_on<P, Q>(
    router: ReplicaRouter,
    prefill_event: ActiveSequenceEvent<P>,
    state: &mut ReplicaLifecycleReorderState,
    completed_at: Instant,
    prefill: ReplicaPrefill,
    located: &mut ReplicaLifecycleReorderState,
    update: Option<SequenceUpdate>,
    between: Seq<Applied>,
    add_event: ActiveSequenceEvent<Q>,
    reached: &mut ReplicaLifecycleReorderState,
    now: Instant,
    step: ReplicaStep<Q>,
)
    requires
        prefill_event.router_id != router.router_id,
        prefill_event.data is MarkPrefillCompleted,
        add_event.data is AddRequest,
        add_event.router_id == prefill_event.router_id,
        add_event.request_id@ == prefill_event.request_id@,
        old(state)@.well_formed(),
        old(state)@.seen_by(completed_at),
        call_ensures(
            apply_replica_event::<P>,
            (&router, prefill_event, state, completed_at),
            ReplicaStep::CompletePrefill(prefill),
        ),
        *old(located) == *final(state),
        call_ensures(ReplicaPrefill::locate, (prefill, None, located), update),
        in_time_order(completed_at, between, now),
        now - completed_at <= 300_000_000_000,
        forall|i: int|
            0 <= i < between.len() ==> (#[trigger] between[i]).key != (
                prefill_event.router_id,
                prefill_event.request_id@,
            ),
        old(reached)@ == reorder_run(router.router_id, final(located)@, between),
        call_ensures(apply_replica_event::<Q>, (&router, add_event, reached, now), step),
    ensures
        update is None,
        step matches ReplicaStep::Add(add) ==> add.insert.prefill_completed,
        !old(state)@.freed.entries.contains_key(
            (prefill_event.router_id, prefill_event.request_id@),
        ) ==> step is Add,
{
    let own = router.router_id;
    let key = (prefill_event.router_id, prefill_event.request_id@);
    let completed = Applied { key, what: Lifecycle::Prefill { found: false }, now: completed_at };
    law_early_prefill_waits_for_its_request(
        own,
        old(state)@,
        completed_at,
        key,
        completed_at,
        between,
        now,
    );
    assert(final(located)@ == reorder_after(own, old(state)@, completed));
    if !old(state)@.freed.entries.contains_key(key) {
        lemma_not_freed(own, final(located)@, between, key);
    }
}

/// The lookup of a worker lets a request or a change through as it is, or not at
/// all.
pub proof fn law_lookup_changes_nothing<P>(
    add: ReplicaAdd<P>,
    registered: bool,
    insert: Option<ReplicaInsert<P>>,
    change: SequenceUpdate,
    still_registered: bool,
    update: Option<SequenceUpdate>,
)
    requires
        call_ensures(ReplicaAdd::<P>::locate, (add, registered), insert),
        call_ensures(SequenceUpdate::locate, (change, still_registered), update),
    ensures
        insert is Some <==> registered,
        insert matches Some(insert) ==> insert == add.insert,
        update is Some <==> still_registered,
        update matches Some(update) ==> update == change,
{
}

/// What an applied event adds to the flush that follows. An added or freed
/// request publishes the load of its worker and cleans up the trie; a completed
/// prefill publishes that load only where it is published anyway. The scheduler
/// is woken by a freed request, by a completed prefill, and by a request that
/// comes with its prefill completed. All else is flushed as without the event.
pub proof fn law_event_adds_to_the_flush<L>(
    without: &mut ReplicaBatchEffects<L>,
    flush_without: ReplicaFlush<L>,
    applied: &mut ReplicaBatchEffects<L>,
    what: Lifecycle,
    worker: WorkerWithDpRank,
    completed: bool,
    load: L,
    with: &mut ReplicaBatchEffects<L>,
    flush_with: ReplicaFlush<L>,
)
    requires
        call_ensures(
            ReplicaBatchEffects::<L>::flush_replica_batch_effects,
            (without,),
            flush_without,
        ),
        *old(applied) == *old(without),
        match what {
            Lifecycle::Add { .. } => call_ensures(
                request_added::<L>,
                (worker, completed, load, applied),
                (),
            ),
            Lifecycle::Free => call_ensures(request_freed::<L>, (worker, load, applied), ()),
            Lifecycle::Prefill { .. } => call_ensures(
                prefill_completed::<L>,
                (worker, load, applied),
                (),
            ),
        },
        *old(with) == *final(applied),
        call_ensures(ReplicaBatchEffects::<L>::flush_replica_batch_effects, (with,), flush_with),
    ensures
        publishes(flush_with, worker, load) <==> !(what is Prefill) || publishes_some(
            flush_without,
            worker,
        ),
        publishes_some(flush_with, worker) <==> publishes(flush_with, worker, load),
        forall|other: WorkerWithDpRank, other_load: L|
            other != worker ==> (#[trigger] publishes(flush_with, other, other_load) <==> publishes(
                flush_without,
                other,
                other_load,
            )),
        flush_with.wake_scheduler <==> flush_without.wake_scheduler || !(what is Add) || completed,
        flush_with.cleanup_prompt_trie <==> flush_without.cleanup_prompt_trie
            || !(what is Prefill),
{
    lemma_listed(flush_without, old(without)@.published());
    lemma_listed(flush_with, old(with)@.published());
    let before = old(without)@;
    let loaded = before.with_load(worker, load, !(what is Prefill));
    assert(old(with)@.worker_loads == loaded.worker_loads);
    assert(old(with)@.published() =~= loaded.published());
}

/// What an event does to the reorder state, in any state, also where the clock
/// stepped back: both memories are pruned first, and then only the request of the
/// event is recorded or taken.
pub proof fn law_event_prunes_then_records(own: u64, before: Reordered, event: Applied)
    ensures
        event.key.0 == own ==> reorder_after(own, before, event) == before,
        event.key.0 != own ==> ({
            let after = reorder_after(own, before, event);
            let freed = before.freed.pruned(event.now);
            let prefilled = before.prefilled.pruned(event.now);
            &&& after.freed == (if event.what is Free {
                freed.recorded(event.key, event.now)
            } else {
                freed
            })
            &&& after.prefilled == (if event.what == (Lifecycle::Prefill { found: false }) {
                prefilled.recorded(event.key, event.now)
            } else {
                prefilled.taken(event.key)
            })
        }),
{
}

/// A peer's request is dropped, in any state, if and only if it is still
/// remembered as freed once the reorder state is pruned; and any other is handed
/// on as prefilled if and only if its completed prefill is still remembered then.
pub proof fn law_request_is_looked_up_after_pruning<P>(
    router: ReplicaRouter,
    event: ActiveSequenceEvent<P>,
    state: &mut ReplicaLifecycleReorderState,
    now: Instant,
    step: ReplicaStep<P>,
)
    requires
        event.router_id != router.router_id,
        event.data is AddRequest,
        call_ensures(apply_replica_event::<P>, (&router, event, state, now), step),
    ensures
        ({
            let key = (event.router_id, event.request_id@);
            &&& step is Finished <==> final(state)@.freed.entries.contains_key(key)
            &&& step is Finished || step is Add
            &&& step matches ReplicaStep::Add(add) ==> add.insert.prefill_completed == old(
                state,
            )@.prefilled.pruned(now).entries.contains_key(key)
        }),
{
}

} // verus!
