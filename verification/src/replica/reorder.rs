//! Short-lived state for lifecycle events that overtake the request they are
//! about.
//!
//! A publisher sends the events of one request in order, but a transport with
//! at-least-once delivery, or with several publishers in flight, may not keep
//! that order. A request that was already freed must not be added again, and a
//! prefill that completed before its request arrived must not be forgotten.

use super::entries::{Instant, LifecycleEntries, LifecycleKey, ReplicaLifecycleKey};
#[allow(unused_imports)]
use super::entries::{key_view, same_request};
use std::collections::VecDeque;
use vstd::prelude::*;

verus! {

/// How long an event that overtook its request is remembered, in nanoseconds:
/// 300 seconds.
pub const REPLICA_REORDER_STATE_TTL: u64 = 300_000_000_000;

/// What was observed at `observed_at` is no longer remembered at `now`.
pub open spec fn expired(observed_at: Instant, now: Instant) -> bool {
    now - observed_at > REPLICA_REORDER_STATE_TTL
}

/// The observations of `order`, in contracts.
pub open spec fn order_view(order: Seq<(Instant, ReplicaLifecycleKey)>) -> Seq<
    (Instant, LifecycleKey),
> {
    order.map_values(|seen: (Instant, ReplicaLifecycleKey)| (seen.0, key_view(seen.1)))
}

/// How many observations at the front of `order` have expired.
pub open spec fn expired_prefix(order: Seq<(Instant, LifecycleKey)>, now: Instant) -> nat
    decreases order.len(),
{
    if order.len() == 0 || !expired(order[0].0, now) {
        0
    } else {
        1 + expired_prefix(order.drop_first(), now)
    }
}

/// Keys that are remembered for a while: the last instant at which each was
/// observed, and every observation in the order in which it was made.
#[verifier::ext_equal]
pub struct Remembered {
    pub entries: Map<LifecycleKey, Instant>,
    pub order: Seq<(Instant, LifecycleKey)>,
}

impl Remembered {
    /// Nothing is remembered.
    pub open spec fn nothing() -> Self {
        Remembered { entries: Map::empty(), order: Seq::empty() }
    }

    /// After `key` was observed at `now`.
    pub open spec fn recorded(self, key: LifecycleKey, now: Instant) -> Self {
        Remembered {
            entries: self.entries.insert(key, now),
            order: self.order.push((now, key)),
        }
    }

    /// After `key` was taken.
    pub open spec fn taken(self, key: LifecycleKey) -> Self {
        Remembered { entries: self.entries.remove(key), order: self.order }
    }

    /// After the expired observations at the front left, and with each the key
    /// that was not observed again since.
    pub open spec fn pruned(self, now: Instant) -> Self {
        let gone = self.order.take(expired_prefix(self.order, now) as int);
        Remembered {
            entries: self.entries.filter_keys(
                |key: LifecycleKey| !gone.contains((self.entries[key], key)),
            ),
            order: self.order.skip(expired_prefix(self.order, now) as int),
        }
    }

    /// Every remembered key has its observation in the order, and the order is
    /// by time.
    pub open spec fn well_formed(self) -> bool {
        &&& forall|key: LifecycleKey| #[trigger]
            self.entries.contains_key(key) ==> self.order.contains((self.entries[key], key))
        &&& forall|i: int, j: int|
            0 <= i <= j < self.order.len() ==> self.order[i].0 <= self.order[j].0
    }

    /// `key` is remembered, and was last observed at `since` or later.
    pub open spec fn knows_since(self, key: LifecycleKey, since: Instant) -> bool {
        self.entries.contains_key(key) && self.entries[key] >= since
    }

    /// No observation is later than `now`.
    pub open spec fn seen_by(self, now: Instant) -> bool {
        forall|i: int| 0 <= i < self.order.len() ==> (#[trigger] self.order[i]).0 <= now
    }
}

/// A run of `count` expired observations at the front of an order, with none
/// behind it, is the expired front.
proof fn lemma_expired_prefix(order: Seq<(Instant, LifecycleKey)>, now: Instant, count: nat)
    requires
        count <= order.len(),
        forall|i: int| 0 <= i < count ==> expired((#[trigger] order[i]).0, now),
        count < order.len() ==> !expired(order[count as int].0, now),
    ensures
        expired_prefix(order, now) == count,
    decreases count,
{
    if count > 0 {
        let rest = order.drop_first();
        assert forall|i: int| 0 <= i < count - 1 implies expired((#[trigger] rest[i]).0, now) by {
            assert(rest[i] == order[i + 1]);
        }
        lemma_expired_prefix(rest, now, (count - 1) as nat);
    }
}

/// The expired front of an order holds only expired observations, and in an
/// order by time it holds all of them.
pub(crate) proof fn lemma_expired_front(order: Seq<(Instant, LifecycleKey)>, now: Instant)
    ensures
        expired_prefix(order, now) <= order.len(),
        forall|i: int|
            0 <= i < expired_prefix(order, now) ==> expired((#[trigger] order[i]).0, now),
        (forall|i: int, j: int| 0 <= i <= j < order.len() ==> order[i].0 <= order[j].0)
            ==> forall|i: int|
            expired_prefix(order, now) <= i < order.len() ==> !expired(
                (#[trigger] order[i]).0,
                now,
            ),
    decreases order.len(),
{
    if order.len() > 0 && expired(order[0].0, now) {
        let rest = order.drop_first();
        lemma_expired_front(rest, now);
        let front = expired_prefix(order, now);
        assert forall|i: int| 0 <= i < front implies expired((#[trigger] order[i]).0, now) by {
            if i > 0 {
                assert(rest[i - 1] == order[i]);
            }
        }
        if forall|i: int, j: int| 0 <= i <= j < order.len() ==> order[i].0 <= order[j].0 {
            assert(forall|i: int, j: int|
                0 <= i <= j < rest.len() ==> rest[i].0 <= rest[j].0);
            assert forall|i: int| front <= i < order.len() implies !expired(
                (#[trigger] order[i]).0,
                now,
            ) by {
                assert(rest[i - 1] == order[i]);
            }
        }
    }
}

/// Pruning forgets exactly the keys whose last observation expired, and leaves
/// a state that is well formed.
pub proof fn law_prune_forgets_exactly_the_expired(memory: Remembered, now: Instant)
    requires
        memory.well_formed(),
    ensures
        memory.pruned(now).entries == memory.entries.filter_keys(
            |key: LifecycleKey| !expired(memory.entries[key], now),
        ),
        memory.pruned(now).well_formed(),
        forall|i: int|
            0 <= i < memory.pruned(now).order.len() ==> !expired(
                (#[trigger] memory.pruned(now).order[i]).0,
                now,
            ),
{
    let order = memory.order;
    let front = expired_prefix(order, now) as int;
    let gone = order.take(front);
    let after = memory.pruned(now);
    lemma_expired_front(order, now);
    assert forall|key: LifecycleKey| memory.entries.contains_key(key) implies (gone.contains(
        (memory.entries[key], key),
    ) <==> expired(memory.entries[key], now)) by {
        let seen = (memory.entries[key], key);
        let at = choose|i: int| 0 <= i < order.len() && order[i] == seen;
        assert(order.contains(seen));
        if expired(seen.0, now) {
            assert(gone[at] == seen);
        }
        if gone.contains(seen) {
            let i = choose|i: int| 0 <= i < gone.len() && gone[i] == seen;
            assert(order[i] == seen);
        }
    }
    assert(after.entries =~= memory.entries.filter_keys(
        |key: LifecycleKey| !expired(memory.entries[key], now),
    ));
    assert forall|key: LifecycleKey| #[trigger]
        after.entries.contains_key(key) implies after.order.contains((after.entries[key], key)) by {
        let seen = (memory.entries[key], key);
        assert(memory.entries.contains_key(key));
        let at = choose|i: int| 0 <= i < order.len() && order[i] == seen;
        assert(at >= front);
        assert(after.order[at - front] == seen);
    }
}

/// Recording an observation that is no earlier than the ones before it keeps
/// the memory well formed.
pub proof fn law_record_keeps_well_formed(memory: Remembered, key: LifecycleKey, now: Instant)
    requires
        memory.well_formed(),
        memory.seen_by(now),
    ensures
        memory.recorded(key, now).well_formed(),
        memory.recorded(key, now).seen_by(now),
        memory.recorded(key, now).entries.contains_key(key),
{
    let after = memory.recorded(key, now);
    assert forall|k: LifecycleKey| #[trigger]
        after.entries.contains_key(k) implies after.order.contains((after.entries[k], k)) by {
        if k == key {
            assert(after.order[memory.order.len() as int] == (now, key));
        } else {
            assert(memory.entries.contains_key(k));
            let at = choose|i: int|
                0 <= i < memory.order.len() && memory.order[i] == (memory.entries[k], k);
            assert(after.order[at] == (memory.entries[k], k));
        }
    }
}

/// Taking a key keeps the memory well formed, and a key that was taken is not
/// there to be taken again.
pub proof fn law_take_is_once(memory: Remembered, key: LifecycleKey)
    ensures
        memory.well_formed() ==> memory.taken(key).well_formed(),
        !memory.taken(key).entries.contains_key(key),
        memory.taken(key).taken(key) == memory.taken(key),
{
    let after = memory.taken(key);
    if memory.well_formed() {
        assert forall|k: LifecycleKey| #[trigger]
            after.entries.contains_key(k) implies after.order.contains((after.entries[k], k)) by {
            assert(memory.entries.contains_key(k));
        }
    }
    assert(after.taken(key) =~= after);
}

/// What was recorded is remembered for the whole time to live, and no longer:
/// a later pruning keeps it if and only if it has not expired by then.
pub proof fn law_recorded_lives_for_the_ttl(
    memory: Remembered,
    key: LifecycleKey,
    recorded_at: Instant,
    now: Instant,
)
    requires
        memory.well_formed(),
        memory.seen_by(recorded_at),
    ensures
        memory.recorded(key, recorded_at).pruned(now).entries.contains_key(key) <==> now
            - recorded_at <= REPLICA_REORDER_STATE_TTL,
{
    law_record_keeps_well_formed(memory, key, recorded_at);
    law_prune_forgets_exactly_the_expired(memory.recorded(key, recorded_at), now);
}

/// What the reorder state remembers.
#[verifier::ext_equal]
pub struct Reordered {
    /// Requests that were freed.
    pub freed: Remembered,
    /// Requests whose prefill completed before they were added.
    pub prefilled: Remembered,
}

/// The lifecycle events that overtook their request.
pub struct ReplicaLifecycleReorderState {
    free_tombstones: LifecycleEntries,
    free_tombstone_order: VecDeque<(Instant, ReplicaLifecycleKey)>,
    pending_prefill_completed: LifecycleEntries,
    pending_prefill_completed_order: VecDeque<(Instant, ReplicaLifecycleKey)>,
}

impl View for ReplicaLifecycleReorderState {
    type V = Reordered;

    closed spec fn view(&self) -> Reordered {
        Reordered {
            freed: Remembered {
                entries: self.free_tombstones@,
                order: order_view(self.free_tombstone_order@),
            },
            prefilled: Remembered {
                entries: self.pending_prefill_completed@,
                order: order_view(self.pending_prefill_completed_order@),
            },
        }
    }
}

impl Reordered {
    /// Nothing is remembered.
    pub open spec fn nothing() -> Self {
        Reordered { freed: Remembered::nothing(), prefilled: Remembered::nothing() }
    }

    /// After what expired was forgotten.
    pub open spec fn pruned(self, now: Instant) -> Self {
        Reordered { freed: self.freed.pruned(now), prefilled: self.prefilled.pruned(now) }
    }

    /// Both halves are well formed.
    pub open spec fn well_formed(self) -> bool {
        self.freed.well_formed() && self.prefilled.well_formed()
    }

    /// No observation is later than `now`.
    pub open spec fn seen_by(self, now: Instant) -> bool {
        self.freed.seen_by(now) && self.prefilled.seen_by(now)
    }
}

impl ReplicaLifecycleReorderState {
    /// Nothing is remembered.
    pub fn new() -> (state: Self)
        ensures
            state@ == Reordered::nothing(),
    {
        let state = ReplicaLifecycleReorderState {
            free_tombstones: LifecycleEntries::new(),
            free_tombstone_order: VecDeque::new(),
            pending_prefill_completed: LifecycleEntries::new(),
            pending_prefill_completed_order: VecDeque::new(),
        };
        assert(state@ =~~= Reordered::nothing());
        state
    }

    /// Forgets what expired.
    pub fn prune(&mut self, now: Instant)
        ensures
            final(self)@ == old(self)@.pruned(now),
    {
        Self::prune_entries(&mut self.free_tombstones, &mut self.free_tombstone_order, now);
        Self::prune_entries(
            &mut self.pending_prefill_completed,
            &mut self.pending_prefill_completed_order,
            now,
        );
    }

    /// Forgets the expired observations at the front of `order`, and the keys of
    /// `entries` that were not observed again since.
    fn prune_entries(
        entries: &mut LifecycleEntries,
        order: &mut VecDeque<(Instant, ReplicaLifecycleKey)>,
        now: Instant,
    )
        ensures
            (Remembered { entries: final(entries)@, order: order_view(final(order)@) })
                == (Remembered { entries: old(entries)@, order: order_view(old(order)@) }).pruned(now),
    {
        let ghost all = order_view(order@);
        let ghost mut popped: nat = 0;
        assert(order_view(order@) =~= all.skip(0));
        assert(entries@ =~= old(entries)@.filter_keys(
            |key: LifecycleKey| !all.take(0).contains((old(entries)@[key], key)),
        ));
        while order.len() > 0 && now.saturating_sub(order[0].0) > REPLICA_REORDER_STATE_TTL
            invariant
                popped + order.len() == all.len(),
                all == order_view(old(order)@),
                order_view(order@) == all.skip(popped as int),
                forall|i: int| 0 <= i < popped ==> expired((#[trigger] all[i]).0, now),
                entries@ == old(entries)@.filter_keys(
                    |key: LifecycleKey|
                        !all.take(popped as int).contains((old(entries)@[key], key)),
                ),
            decreases order.len(),
        {
            let ghost before = entries@;
            let ghost rest = order@;
            assert(order_view(order@).len() == all.len() - popped);
            assert(order_view(order@)[0] == all[popped as int]);
            if let Some((observed_at, key)) = order.pop_front() {
                proof {
                    assert(order_view(rest)[0] == (observed_at, key_view(key)));
                    assert(all.take(popped as int + 1) =~= all.take(popped as int).push(
                        all[popped as int],
                    ));
                    assert(order_view(order@) =~= order_view(rest).drop_first());
                    assert(order_view(order@) =~= all.skip(popped as int + 1));
                }
                match entries.get(&key) {
                    Some(latest) => {
                        if latest == observed_at {
                            entries.remove(&key);
                        }
                    },
                    None => {},
                }
                proof {
                    let gone = all.take(popped as int + 1);
                    let gone_before = all.take(popped as int);
                    assert forall|seen: (Instant, LifecycleKey)|
                        gone.contains(seen) <==> gone_before.contains(seen) || seen == (
                            observed_at,
                            key_view(key),
                        ) by {
                        if gone_before.contains(seen) {
                            let i = choose|i: int|
                                0 <= i < gone_before.len() && gone_before[i] == seen;
                            assert(gone[i] == seen);
                        }
                        assert(gone[popped as int] == (observed_at, key_view(key)));
                        if gone.contains(seen) && seen != (observed_at, key_view(key)) {
                            let i = choose|i: int| 0 <= i < gone.len() && gone[i] == seen;
                            assert(gone_before[i] == seen);
                        }
                    }
                    popped = popped + 1;
                    assert(entries@ =~= old(entries)@.filter_keys(
                        |key: LifecycleKey|
                            !all.take(popped as int).contains((old(entries)@[key], key)),
                    ));
                }
            }
        }
        proof {
            if popped < all.len() {
                assert(order_view(order@)[0] == all[popped as int]);
            }
            lemma_expired_prefix(all, now, popped);
        }
    }

    /// Remembers that the request was freed.
    pub fn record_free(&mut self, key: ReplicaLifecycleKey, now: Instant)
        ensures
            final(self)@ == (Reordered {
                freed: old(self)@.freed.recorded(key_view(key), now),
                ..old(self)@
            }),
    {
        let router_id = key.0;
        self.free_tombstones.insert((router_id, key.1.clone()), now);
        self.free_tombstone_order.push_back((now, key));
        assert(self@.freed.order =~= old(self)@.freed.order.push((now, key_view(key))));
    }

    /// The request is remembered as freed.
    pub fn was_freed(&self, key: &ReplicaLifecycleKey) -> (freed: bool)
        ensures
            freed == self@.freed.entries.contains_key(key_view(*key)),
    {
        self.free_tombstones.get(key).is_some()
    }

    /// Remembers that the prefill of a request that is not there yet completed.
    pub fn record_pending_prefill_completed(&mut self, key: ReplicaLifecycleKey, now: Instant)
        ensures
            final(self)@ == (Reordered {
                prefilled: old(self)@.prefilled.recorded(key_view(key), now),
                ..old(self)@
            }),
    {
        let router_id = key.0;
        self.pending_prefill_completed.insert((router_id, key.1.clone()), now);
        self.pending_prefill_completed_order.push_back((now, key));
        assert(self@.prefilled.order =~= old(self)@.prefilled.order.push((now, key_view(key))));
    }

    /// Takes the memory that the request's prefill completed, and says whether
    /// there was one.
    pub fn take_pending_prefill_completed(&mut self, key: &ReplicaLifecycleKey) -> (completed: bool)
        ensures
            final(self)@ == (Reordered {
                prefilled: old(self)@.prefilled.taken(key_view(*key)),
                ..old(self)@
            }),
            completed == old(self)@.prefilled.entries.contains_key(key_view(*key)),
    {
        self.pending_prefill_completed.remove(key).is_some()
    }
}

/// What recording and taking a key does to a memory: the key has the instant, or
/// none, and every other key is as it was. An observation goes to the end of the
/// order; taking a key leaves the order alone.
pub proof fn law_memory_changes_one_key(
    memory: Remembered,
    key: LifecycleKey,
    now: Instant,
    other: LifecycleKey,
)
    ensures
        memory.recorded(key, now).entries.get(key) == Some(now),
        memory.taken(key).entries.get(key) is None,
        other != key ==> {
            &&& memory.recorded(key, now).entries.get(other) == memory.entries.get(other)
            &&& memory.taken(key).entries.get(other) == memory.entries.get(other)
        },
        memory.recorded(key, now).order.len() == memory.order.len() + 1,
        memory.recorded(key, now).order.last() == (now, key),
        memory.recorded(key, now).order.drop_last() == memory.order,
        memory.taken(key).order == memory.order,
        Remembered::nothing().entries.get(key) is None,
        Remembered::nothing().order.len() == 0,
{
    assert(memory.recorded(key, now).order.drop_last() =~= memory.order);
}

/// What pruning takes from any memory, also from one whose clock stepped back:
/// the observations at the front that are older than the time to live, up to the
/// first that is not, and with each the key that was last observed there. Every
/// other observation and key stays.
pub proof fn law_prune_takes_the_front(memory: Remembered, now: Instant) -> (front: int)
    ensures
        0 <= front <= memory.order.len(),
        forall|i: int|
            0 <= i < front ==> now - (#[trigger] memory.order[i]).0 > 300_000_000_000,
        front < memory.order.len() ==> now - memory.order[front].0 <= 300_000_000_000,
        memory.pruned(now).order.len() == memory.order.len() - front,
        forall|i: int|
            0 <= i < memory.pruned(now).order.len() ==> #[trigger] memory.pruned(now).order[i]
                == memory.order[i + front],
        forall|key: LifecycleKey| #[trigger]
            memory.pruned(now).entries.get(key) == (if memory.entries.contains_key(key) && !(exists|
                i: int,
            |
                0 <= i < front && #[trigger] memory.order[i] == (memory.entries[key], key)) {
                Some(memory.entries[key])
            } else {
                None
            }),
{
    let order = memory.order;
    let front = expired_prefix(order, now) as int;
    lemma_expired_front(order, now);
    lemma_front_ends(order, now);
    let gone = order.take(front);
    assert forall|key: LifecycleKey| #[trigger]
        memory.pruned(now).entries.get(key) == (if memory.entries.contains_key(key) && !(exists|
            i: int,
        |
            0 <= i < front && #[trigger] memory.order[i] == (memory.entries[key], key)) {
            Some(memory.entries[key])
        } else {
            None
        }) by {
        let seen = (memory.entries[key], key);
        if gone.contains(seen) {
            let i = choose|i: int| 0 <= i < gone.len() && gone[i] == seen;
            assert(memory.order[i] == seen);
        }
        if exists|i: int| 0 <= i < front && #[trigger] memory.order[i] == seen {
            let i = choose|i: int| 0 <= i < front && #[trigger] memory.order[i] == seen;
            assert(gone[i] == seen);
        }
    }
    front
}

proof fn lemma_front_ends(order: Seq<(Instant, LifecycleKey)>, now: Instant)
    ensures
        expired_prefix(order, now) < order.len() ==> !expired(
            order[expired_prefix(order, now) as int].0,
            now,
        ),
    decreases order.len(),
{
    if order.len() > 0 && expired(order[0].0, now) {
        lemma_front_ends(order.drop_first(), now);
    }
}

/// A new reorder state knows of no request. After a request was recorded as
/// freed it counts as freed; every other request counts as it did; and what is
/// known of prefills stays.
pub proof fn law_record_free_marks_one_request(
    fresh: ReplicaLifecycleReorderState,
    state: &mut ReplicaLifecycleReorderState,
    key: ReplicaLifecycleKey,
    now: Instant,
    asked: ReplicaLifecycleKey,
    in_fresh: bool,
    before: bool,
    after: bool,
)
    requires
        call_ensures(ReplicaLifecycleReorderState::new, (), fresh),
        call_ensures(ReplicaLifecycleReorderState::was_freed, (&fresh, &asked), in_fresh),
        call_ensures(ReplicaLifecycleReorderState::was_freed, (&*old(state), &asked), before),
        call_ensures(ReplicaLifecycleReorderState::record_free, (state, key, now), ()),
        call_ensures(ReplicaLifecycleReorderState::was_freed, (&*final(state), &asked), after),
    ensures
        !in_fresh,
        after <==> same_request(asked, key) || before,
        final(state)@.freed == old(state)@.freed.recorded((key.0, key.1@), now),
        final(state)@.prefilled == old(state)@.prefilled,
{
}

/// After a prefill was recorded as completed, that request's completion can be
/// taken, and those of others as before. Taking gives it once, and leaves those
/// of others. Neither touches which requests are freed.
pub proof fn law_completed_prefill_is_taken_once(
    fresh: &mut ReplicaLifecycleReorderState,
    in_fresh: bool,
    unrecorded: &mut ReplicaLifecycleReorderState,
    before: bool,
    state: &mut ReplicaLifecycleReorderState,
    key: ReplicaLifecycleKey,
    now: Instant,
    asked: ReplicaLifecycleKey,
    recorded: &mut ReplicaLifecycleReorderState,
    after: bool,
    taken: &mut ReplicaLifecycleReorderState,
    again: ReplicaLifecycleKey,
    once_more: bool,
    still: &mut ReplicaLifecycleReorderState,
    other: bool,
)
    requires
        call_ensures(ReplicaLifecycleReorderState::new, (), *old(fresh)),
        call_ensures(
            ReplicaLifecycleReorderState::take_pending_prefill_completed,
            (fresh, &asked),
            in_fresh,
        ),
        call_ensures(
            ReplicaLifecycleReorderState::take_pending_prefill_completed,
            (unrecorded, &asked),
            before,
        ),
        *old(state) == *old(unrecorded),
        call_ensures(
            ReplicaLifecycleReorderState::record_pending_prefill_completed,
            (state, key, now),
            (),
        ),
        *old(recorded) == *final(state),
        call_ensures(
            ReplicaLifecycleReorderState::take_pending_prefill_completed,
            (recorded, &asked),
            after,
        ),
        *old(taken) == *final(recorded),
        call_ensures(
            ReplicaLifecycleReorderState::take_pending_prefill_completed,
            (taken, &again),
            once_more,
        ),
        *old(still) == *final(state),
        call_ensures(
            ReplicaLifecycleReorderState::take_pending_prefill_completed,
            (still, &again),
            other,
        ),
    ensures
        !in_fresh,
        after <==> same_request(asked, key) || before,
        same_request(asked, again) ==> !once_more,
        !same_request(asked, again) ==> once_more == other,
        final(state)@.freed == old(state)@.freed,
        final(recorded)@.freed == old(recorded)@.freed,
        final(state)@.prefilled == old(state)@.prefilled.recorded((key.0, key.1@), now),
        final(recorded)@.prefilled == old(recorded)@.prefilled.taken((asked.0, asked.1@)),
{
}

/// Pruning prunes both halves of the reorder state by themselves: each keeps
/// what is not older than the time to live.
pub proof fn law_prune_keeps_what_is_young(
    state: &mut ReplicaLifecycleReorderState,
    now: Instant,
    key: LifecycleKey,
)
    requires
        call_ensures(ReplicaLifecycleReorderState::prune, (state, now), ()),
        old(state)@.well_formed(),
    ensures
        final(state)@.freed.entries.get(key) == (match old(state)@.freed.entries.get(key) {
            Some(at) => if now - at <= 300_000_000_000 {
                Some(at)
            } else {
                None
            },
            None => None,
        }),
        final(state)@.prefilled.entries.get(key) == (match old(state)@.prefilled.entries.get(key) {
            Some(at) => if now - at <= 300_000_000_000 {
                Some(at)
            } else {
                None
            },
            None => None,
        }),
{
    law_prune_forgets_exactly_the_expired(old(state)@.freed, now);
    law_prune_forgets_exactly_the_expired(old(state)@.prefilled, now);
}

/// Pruning the reorder state is pruning what it remembers of freed requests and
/// of completed prefills, both at the same time.
pub proof fn law_prune_prunes_both(state: &mut ReplicaLifecycleReorderState, now: Instant)
    requires
        call_ensures(ReplicaLifecycleReorderState::prune, (state, now), ()),
    ensures
        final(state)@.freed == old(state)@.freed.pruned(now),
        final(state)@.prefilled == old(state)@.prefilled.pruned(now),
{
}

} // verus!
