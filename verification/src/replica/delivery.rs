//! What a router knows of the requests of its peers, in whatever order their
//! events arrive.
//!
//! The request index and the sequences live in the host. Here they stand as
//! what the steps of [`apply_replica_event`](super::event::apply_replica_event)
//! make of them, where every worker that was registered stays registered. Left
//! out are the requests that the host finds expired when it adds another one:
//! it drops those from its request index by itself. Each event carries what the
//! host found when it was applied; the laws hold whatever it found of other
//! requests.

use super::effects::WorkerWithDpRank;
use super::entries::{Instant, LifecycleKey};
use super::laws::{Applied, Lifecycle};
#[allow(unused_imports)]
use super::laws::{
    in_time_order, law_run_keeps_well_formed, lemma_event_keeps_well_formed,
    lemma_in_time_order_drop_last, lemma_not_freed, lemma_pending_prefill_survives,
    lemma_tombstone_survives, reorder_after, reorder_run,
};
use super::reorder::{REPLICA_REORDER_STATE_TTL, Remembered, Reordered};
#[allow(unused_imports)]
use super::reorder::law_prune_forgets_exactly_the_expired;
use vstd::prelude::*;

verus! {

/// What a router knows of the requests of its peers.
#[verifier::ext_equal]
pub struct Known {
    /// The worker of each request in the request index.
    pub index: Map<Seq<char>, WorkerWithDpRank>,
    /// The requests that are marked as prefilled.
    pub completed: Set<Seq<char>>,
    pub reorder: Reordered,
}

impl Known {
    /// What the router `own` knows after an event was applied.
    pub open spec fn after(self, own: u64, event: Applied) -> Self {
        let key = event.key;
        let id = key.1;
        let pruned = self.reorder.pruned(event.now);
        let reorder = reorder_after(own, self.reorder, event);
        if key.0 == own {
            self
        } else {
            match event.what {
                Lifecycle::Add { worker, registered } => if pruned.freed.entries.contains_key(key)
                    || !registered {
                    Known { reorder, ..self }
                } else {
                    Known {
                        index: self.index.insert(id, worker),
                        completed: if pruned.prefilled.entries.contains_key(key) {
                            self.completed.insert(id)
                        } else {
                            self.completed.remove(id)
                        },
                        reorder,
                    }
                },
                Lifecycle::Free => Known {
                    index: self.index.remove(id),
                    completed: self.completed.remove(id),
                    reorder,
                },
                Lifecycle::Prefill { found } => Known {
                    completed: if found {
                        self.completed.insert(id)
                    } else {
                        self.completed
                    },
                    reorder,
                    ..self
                },
            }
        }
    }

    /// What the router `own` knows after `events` were applied in order.
    pub open spec fn after_all(self, own: u64, events: Seq<Applied>) -> Self
        decreases events.len(),
    {
        if events.len() == 0 {
            self
        } else {
            self.after_all(own, events.drop_last()).after(own, events.last())
        }
    }

    /// The event is one that can happen here: a prefill completes of a request
    /// that the request index has, or has not, as the event says.
    pub open spec fn admits(self, event: Applied) -> bool {
        event.what matches Lifecycle::Prefill { found } ==> found == self.index.contains_key(
            event.key.1,
        )
    }

    /// The reorder state is well formed, and holds nothing later than `now`.
    pub open spec fn well_formed_at(self, now: Instant) -> bool {
        self.reorder.well_formed() && self.reorder.seen_by(now)
    }
}

/// None of the events is about the request `id`.
pub open spec fn all_elsewhere(events: Seq<Applied>, id: Seq<char>) -> bool {
    forall|i: int| 0 <= i < events.len() ==> (#[trigger] events[i]).key.1 != id
}

/// What is known of the order of events is the reorder state, event by event.
pub proof fn law_known_follows_the_reorder_state(own: u64, before: Known, events: Seq<Applied>)
    ensures
        forall|event: Applied| #[trigger]
            before.after(own, event).reorder == reorder_after(own, before.reorder, event),
        before.after_all(own, events).reorder == reorder_run(own, before.reorder, events),
    decreases events.len(),
{
    if events.len() > 0 {
        law_known_follows_the_reorder_state(own, before, events.drop_last());
    }
}

/// The same is known of every request but `id`.
spec fn agree_elsewhere(a: Known, b: Known, id: Seq<char>) -> bool {
    &&& forall|other: Seq<char>|
        other != id ==> #[trigger] a.index.get(other) == b.index.get(other)
    &&& forall|other: Seq<char>|
        other != id ==> #[trigger] a.completed.contains(other) == b.completed.contains(other)
    &&& same_elsewhere(a.reorder.freed, b.reorder.freed, id)
    &&& same_elsewhere(a.reorder.prefilled, b.reorder.prefilled, id)
}

spec fn same_elsewhere(a: Remembered, b: Remembered, id: Seq<char>) -> bool {
    forall|key: LifecycleKey| key.1 != id ==> #[trigger] a.entries.get(key) == b.entries.get(key)
}

proof fn lemma_pruned_same(a: Remembered, b: Remembered, id: Seq<char>, now: Instant)
    requires
        a.well_formed(),
        b.well_formed(),
        same_elsewhere(a, b, id),
    ensures
        same_elsewhere(a.pruned(now), b.pruned(now), id),
{
    law_prune_forgets_exactly_the_expired(a, now);
    law_prune_forgets_exactly_the_expired(b, now);
    assert forall|key: LifecycleKey| key.1 != id implies #[trigger] a.pruned(now).entries.get(key)
        == b.pruned(now).entries.get(key) by {
        assert(a.entries.get(key) == b.entries.get(key));
    }
}

/// Where the same is known of every request but `id`, it is still so after one
/// event about another request, and after any two events about `id` at one time.
/// An event about another request leaves alone what is known of `id`.
proof fn lemma_step(own: u64, a: Known, b: Known, id: Seq<char>, x: Applied, y: Applied)
    requires
        a.reorder.well_formed(),
        b.reorder.well_formed(),
        agree_elsewhere(a, b, id),
        x.now == y.now,
        x == y && x.key.1 != id || x.key.1 == id && y.key.1 == id && x.key.0 != own && y.key.0
            != own,
    ensures
        agree_elsewhere(a.after(own, x), b.after(own, y), id),
        x.key.1 != id ==> {
            &&& a.after(own, x).index.get(id) == a.index.get(id)
            &&& a.after(own, x).completed.contains(id) == a.completed.contains(id)
        },
{
    lemma_pruned_same(a.reorder.freed, b.reorder.freed, id, x.now);
    lemma_pruned_same(a.reorder.prefilled, b.reorder.prefilled, id, x.now);
    let pa = a.reorder.pruned(x.now);
    let pb = b.reorder.pruned(x.now);
    let p = a.after(own, x);
    let q = b.after(own, y);
    if x.key.1 != id {
        assert(pa.freed.entries.get(x.key) == pb.freed.entries.get(x.key));
        assert(pa.prefilled.entries.get(x.key) == pb.prefilled.entries.get(x.key));
    }
    assert forall|other: Seq<char>| other != id implies #[trigger] p.index.get(other)
        == q.index.get(other) by {
        assert(a.index.get(other) == b.index.get(other));
    }
    assert forall|other: Seq<char>| other != id implies #[trigger] p.completed.contains(other)
        == q.completed.contains(other) by {
        assert(a.completed.contains(other) == b.completed.contains(other));
    }
    assert forall|key: LifecycleKey| key.1 != id implies #[trigger] p.reorder.freed.entries.get(key)
        == q.reorder.freed.entries.get(key) by {
        assert(a.reorder.freed.entries.get(key) == b.reorder.freed.entries.get(key));
        assert(pa.freed.entries.get(key) == pb.freed.entries.get(key));
    }
    assert forall|key: LifecycleKey| key.1 != id implies #[trigger]
        p.reorder.prefilled.entries.get(key) == q.reorder.prefilled.entries.get(key) by {
        assert(a.reorder.prefilled.entries.get(key) == b.reorder.prefilled.entries.get(key));
        assert(pa.prefilled.entries.get(key) == pb.prefilled.entries.get(key));
    }
}

/// Events about other requests change what is known of those alone, and in the
/// same way wherever the same is known of them.
proof fn lemma_run_elsewhere(
    own: u64,
    a: Known,
    b: Known,
    id: Seq<char>,
    start: Instant,
    events: Seq<Applied>,
    end: Instant,
)
    requires
        a.well_formed_at(start),
        b.well_formed_at(start),
        in_time_order(start, events, end),
        all_elsewhere(events, id),
        agree_elsewhere(a, b, id),
    ensures
        agree_elsewhere(a.after_all(own, events), b.after_all(own, events), id),
        a.after_all(own, events).index.get(id) == a.index.get(id),
        a.after_all(own, events).completed.contains(id) == a.completed.contains(id),
    decreases events.len(),
{
    if events.len() > 0 {
        let event = events.last();
        let rest = events.drop_last();
        lemma_in_time_order_drop_last(start, events, end);
        assert(events[events.len() - 1] == event);
        assert(forall|i: int| 0 <= i < rest.len() ==> rest[i] == events[i]);
        lemma_run_elsewhere(own, a, b, id, start, rest, event.now);
        law_run_keeps_well_formed(own, a.reorder, start, rest, event.now);
        law_run_keeps_well_formed(own, b.reorder, start, rest, event.now);
        law_known_follows_the_reorder_state(own, a, rest);
        law_known_follows_the_reorder_state(own, b, rest);
        lemma_step(own, a.after_all(own, rest), b.after_all(own, rest), id, event, event);
    }
}

/// A request that was freed stays out of the request index: within the time to
/// live of the free, no event of the peer brings it back, whatever arrives and
/// in whatever order.
pub proof fn law_freed_request_stays_out(
    own: u64,
    before: Known,
    key: LifecycleKey,
    freed_at: Instant,
    events: Seq<Applied>,
    now: Instant,
)
    requires
        before.well_formed_at(freed_at),
        key.0 != own,
        in_time_order(freed_at, events, now),
        now - freed_at <= REPLICA_REORDER_STATE_TTL,
        forall|i: int|
            0 <= i < events.len() && (#[trigger] events[i]).key.1 == key.1 ==> events[i].key == key,
    ensures
        ({
            let freed = Applied { key, what: Lifecycle::Free, now: freed_at };
            !before.after(own, freed).after_all(own, events).index.contains_key(key.1)
        }),
{
    let freed = Applied { key, what: Lifecycle::Free, now: freed_at };
    lemma_event_keeps_well_formed(own, before.reorder, freed, freed_at);
    lemma_stays_out(own, before.after(own, freed), key, freed_at, events, now);
}

proof fn lemma_stays_out(
    own: u64,
    before: Known,
    key: LifecycleKey,
    freed_at: Instant,
    events: Seq<Applied>,
    now: Instant,
)
    requires
        before.well_formed_at(freed_at),
        !before.index.contains_key(key.1),
        before.reorder.freed.knows_since(key, freed_at),
        in_time_order(freed_at, events, now),
        now - freed_at <= REPLICA_REORDER_STATE_TTL,
        forall|i: int|
            0 <= i < events.len() && (#[trigger] events[i]).key.1 == key.1 ==> events[i].key == key,
    ensures
        !before.after_all(own, events).index.contains_key(key.1),
    decreases events.len(),
{
    if events.len() > 0 {
        let event = events.last();
        let rest = events.drop_last();
        lemma_in_time_order_drop_last(freed_at, events, now);
        assert(events[events.len() - 1] == event);
        assert(forall|i: int| 0 <= i < rest.len() ==> rest[i] == events[i]);
        lemma_stays_out(own, before, key, freed_at, rest, event.now);
        law_known_follows_the_reorder_state(own, before, rest);
        law_run_keeps_well_formed(own, before.reorder, freed_at, rest, event.now);
        lemma_tombstone_survives(own, before.reorder, key, freed_at, rest, event.now);
        law_prune_forgets_exactly_the_expired(
            before.after_all(own, rest).reorder.freed,
            event.now,
        );
    }
}

proof fn lemma_same_index(
    a: Map<Seq<char>, WorkerWithDpRank>,
    b: Map<Seq<char>, WorkerWithDpRank>,
)
    requires
        forall|id: Seq<char>| #[trigger] a.get(id) == b.get(id),
    ensures
        a == b,
{
    assert forall|id: Seq<char>| #[trigger] a.dom().contains(id) == b.dom().contains(id) by {
        assert(a.get(id) == b.get(id));
    }
    assert forall|id: Seq<char>| a.dom().contains(id) implies #[trigger] a[id] == b[id] by {
        assert(a.get(id) == b.get(id));
    }
    assert(a.dom() =~= b.dom());
    assert(a =~= b);
}

/// What is the same for `id` and for every other request is the same.
proof fn lemma_same_known(a: Known, b: Known, id: Seq<char>)
    requires
        agree_elsewhere(a, b, id),
        a.index.get(id) == b.index.get(id),
        a.completed.contains(id) == b.completed.contains(id),
    ensures
        a.index == b.index,
        a.completed == b.completed,
{
    lemma_same_index(a.index, b.index);
    assert(a.completed =~= b.completed);
}

/// Two events about one request, in either order, with events about others in
/// between: what is known of the others in the end is the same.
proof fn lemma_swapped(
    own: u64,
    before: Known,
    key: LifecycleKey,
    one: Lifecycle,
    other: Lifecycle,
    other_last: Lifecycle,
    first: Instant,
    between: Seq<Applied>,
    second: Instant,
)
    requires
        before.well_formed_at(first),
        key.0 != own,
        in_time_order(first, between, second),
        all_elsewhere(between, key.1),
    ensures
        ({
            let a1 = before.after(own, Applied { key, what: one, now: first });
            let b1 = before.after(own, Applied { key, what: other, now: first });
            let a2 = a1.after_all(own, between);
            let b2 = b1.after_all(own, between);
            &&& a1.well_formed_at(first)
            &&& b1.well_formed_at(first)
            &&& a2.reorder.well_formed()
            &&& b2.reorder.well_formed()
            &&& a2.index.get(key.1) == a1.index.get(key.1)
            &&& b2.index.get(key.1) == b1.index.get(key.1)
            &&& a2.completed.contains(key.1) == a1.completed.contains(key.1)
            &&& b2.completed.contains(key.1) == b1.completed.contains(key.1)
            &&& a2.reorder == reorder_run(own, a1.reorder, between)
            &&& b2.reorder == reorder_run(own, b1.reorder, between)
            &&& agree_elsewhere(
                a2.after(own, Applied { key, what: other_last, now: second }),
                b2.after(own, Applied { key, what: one, now: second }),
                key.1,
            )
        }),
{
    let id = key.1;
    let x = Applied { key, what: one, now: first };
    let y = Applied { key, what: other, now: first };
    let a1 = before.after(own, x);
    let b1 = before.after(own, y);
    lemma_event_keeps_well_formed(own, before.reorder, x, first);
    lemma_event_keeps_well_formed(own, before.reorder, y, first);
    assert(agree_elsewhere(before, before, id));
    lemma_step(own, before, before, id, x, y);
    lemma_step(own, before, before, id, y, x);
    lemma_run_elsewhere(own, a1, b1, id, first, between, second);
    lemma_run_elsewhere(own, b1, a1, id, first, between, second);
    law_known_follows_the_reorder_state(own, a1, between);
    law_known_follows_the_reorder_state(own, b1, between);
    law_run_keeps_well_formed(own, a1.reorder, first, between, second);
    law_run_keeps_well_formed(own, b1.reorder, first, between, second);
    lemma_step(
        own,
        a1.after_all(own, between),
        b1.after_all(own, between),
        id,
        Applied { key, what: other_last, now: second },
        Applied { key, what: one, now: second },
    );
}

/// A free that overtakes its request makes no difference: once both arrived, the
/// router knows what it would know had they arrived in order, and the request is
/// not in the request index.
pub proof fn law_free_may_overtake_its_request(
    own: u64,
    before: Known,
    key: LifecycleKey,
    worker: WorkerWithDpRank,
    registered: bool,
    first: Instant,
    between: Seq<Applied>,
    second: Instant,
)
    requires
        before.well_formed_at(first),
        key.0 != own,
        in_time_order(first, between, second),
        second - first <= REPLICA_REORDER_STATE_TTL,
        all_elsewhere(between, key.1),
    ensures
        ({
            let add = Lifecycle::Add { worker, registered };
            let in_order = before.after(own, Applied { key, what: add, now: first }).after_all(
                own,
                between,
            ).after(own, Applied { key, what: Lifecycle::Free, now: second });
            let overtaken = before.after(
                own,
                Applied { key, what: Lifecycle::Free, now: first },
            ).after_all(own, between).after(own, Applied { key, what: add, now: second });
            &&& overtaken.index == in_order.index
            &&& overtaken.completed == in_order.completed
            &&& !overtaken.index.contains_key(key.1)
        }),
{
    let add = Lifecycle::Add { worker, registered };
    let free = Lifecycle::Free;
    lemma_swapped(own, before, key, add, free, free, first, between, second);
    let b1 = before.after(own, Applied { key, what: free, now: first });
    let a2 = before.after(own, Applied { key, what: add, now: first }).after_all(own, between);
    let b2 = b1.after_all(own, between);
    lemma_tombstone_survives(own, b1.reorder, key, first, between, second);
    law_prune_forgets_exactly_the_expired(b2.reorder.freed, second);
    lemma_same_known(
        a2.after(own, Applied { key, what: free, now: second }),
        b2.after(own, Applied { key, what: add, now: second }),
        key.1,
    );
}

/// A prefill that completes before its request arrives makes no difference: once
/// both arrived, the router knows what it would know had they arrived in order,
/// and the request is in the request index, marked as prefilled.
pub proof fn law_prefill_may_overtake_its_request(
    own: u64,
    before: Known,
    key: LifecycleKey,
    worker: WorkerWithDpRank,
    first: Instant,
    between: Seq<Applied>,
    second: Instant,
)
    requires
        before.well_formed_at(first),
        key.0 != own,
        !before.index.contains_key(key.1),
        !before.reorder.pruned(first).freed.entries.contains_key(key),
        in_time_order(first, between, second),
        second - first <= REPLICA_REORDER_STATE_TTL,
        all_elsewhere(between, key.1),
    ensures
        ({
            let add = Lifecycle::Add { worker, registered: true };
            let late = Applied { key, what: Lifecycle::Prefill { found: true }, now: second };
            let early = Applied { key, what: Lifecycle::Prefill { found: false }, now: first };
            let added = before.after(own, Applied { key, what: add, now: first }).after_all(
                own,
                between,
            );
            let in_order = added.after(own, late);
            let overtaken = before.after(own, early).after_all(own, between).after(
                own,
                Applied { key, what: add, now: second },
            );
            &&& before.admits(early)
            &&& added.admits(late)
            &&& overtaken.index == in_order.index
            &&& overtaken.completed == in_order.completed
            &&& overtaken.index.get(key.1) == Some(worker)
            &&& overtaken.completed.contains(key.1)
        }),
{
    let add = Lifecycle::Add { worker, registered: true };
    let early = Lifecycle::Prefill { found: false };
    let late = Lifecycle::Prefill { found: true };
    lemma_swapped(own, before, key, add, early, late, first, between, second);
    let b1 = before.after(own, Applied { key, what: early, now: first });
    let a2 = before.after(own, Applied { key, what: add, now: first }).after_all(own, between);
    let b2 = b1.after_all(own, between);
    lemma_pending_prefill_survives(own, b1.reorder, key, first, between, second);
    lemma_not_freed(own, b1.reorder, between, key);
    law_prune_forgets_exactly_the_expired(b2.reorder.freed, second);
    law_prune_forgets_exactly_the_expired(b2.reorder.prefilled, second);
    assert(a2.index.get(key.1) == Some(worker));
    lemma_same_known(
        a2.after(own, Applied { key, what: late, now: second }),
        b2.after(own, Applied { key, what: add, now: second }),
        key.1,
    );
}

} // verus!
