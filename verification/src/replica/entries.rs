//! A map from the lifecycle key of a replicated request to an instant.

use std::collections::HashMap;
use vstd::hash_map::StringHashMap;
use vstd::prelude::*;

verus! {

/// A point in time on the host's monotonic clock, in nanoseconds.
pub type Instant = u64;

/// The router that published a request's events, and the id that it gave the
/// request.
pub type ReplicaLifecycleKey = (u64, String);

/// What a [`ReplicaLifecycleKey`] is in contracts.
pub type LifecycleKey = (u64, Seq<char>);

/// The key that `key` stands for in contracts.
pub open spec fn key_view(key: ReplicaLifecycleKey) -> LifecycleKey {
    (key.0, key.1@)
}

/// The requests of a map from router to request id to instant.
pub open spec fn flattened(by_router: Map<u64, StringHashMap<Instant>>) -> Map<
    LifecycleKey,
    Instant,
> {
    Map::new(
        |key: LifecycleKey|
            by_router.contains_key(key.0) && by_router[key.0]@.contains_key(key.1),
        |key: LifecycleKey| by_router[key.0]@[key.1],
    )
}

/// Instants by lifecycle key.
///
/// The requests are grouped by router. A router leaves with the last of its
/// requests.
pub struct LifecycleEntries {
    by_router: HashMap<u64, StringHashMap<Instant>>,
}

impl View for LifecycleEntries {
    type V = Map<LifecycleKey, Instant>;

    closed spec fn view(&self) -> Map<LifecycleKey, Instant> {
        flattened(self.by_router@)
    }
}

impl LifecycleEntries {
    /// No entries.
    pub fn new() -> (entries: Self)
        ensures
            entries@ == Map::<LifecycleKey, Instant>::empty(),
    {
        let entries = LifecycleEntries { by_router: HashMap::new() };
        assert(entries@ =~= Map::<LifecycleKey, Instant>::empty());
        entries
    }

    /// The instant of `key`, if it has one.
    pub fn get(&self, key: &ReplicaLifecycleKey) -> (instant: Option<Instant>)
        ensures
            instant == self@.get(key_view(*key)),
    {
        match self.by_router.get(&key.0) {
            Some(requests) => match requests.get(key.1.as_str()) {
                Some(instant) => Some(*instant),
                None => None,
            },
            None => None,
        }
    }

    /// Sets the instant of `key`.
    pub fn insert(&mut self, key: ReplicaLifecycleKey, instant: Instant)
        ensures
            final(self)@ == old(self)@.insert(key_view(key), instant),
    {
        let (router_id, request_id) = key;
        let mut requests = match self.by_router.remove(&router_id) {
            Some(requests) => requests,
            None => StringHashMap::new(),
        };
        requests.insert(request_id, instant);
        self.by_router.insert(router_id, requests);
        assert(self@ =~= old(self)@.insert(key_view(key), instant));
    }

    /// Takes out `key`, and returns the instant that it had.
    pub fn remove(&mut self, key: &ReplicaLifecycleKey) -> (instant: Option<Instant>)
        ensures
            final(self)@ == old(self)@.remove(key_view(*key)),
            instant == old(self)@.get(key_view(*key)),
    {
        let instant = self.get(key);
        if let Some(mut requests) = self.by_router.remove(&key.0) {
            let ghost before = requests@;
            requests.remove(key.1.as_str());
            if !requests.is_empty() {
                self.by_router.insert(key.0, requests);
            } else {
                assert forall|id: Seq<char>| before.contains_key(id) implies id == key.1@ by {
                    assert(id == key.1@ || requests@.dom().contains(id));
                }
            }
        }
        assert(self@ =~= old(self)@.remove(key_view(*key)));
        instant
    }
}

/// The keys are of the same request: the same router and the same id.
pub open spec fn same_request(a: ReplicaLifecycleKey, b: ReplicaLifecycleKey) -> bool {
    a.0 == b.0 && a.1@ == b.1@
}

/// Two keys are one in contracts if and only if they have the same router and
/// the same request id.
pub proof fn law_key_is_router_and_request(a: ReplicaLifecycleKey, b: ReplicaLifecycleKey)
    ensures
        key_view(a) == key_view(b) <==> same_request(a, b),
        key_view(a).0 == a.0,
        key_view(a).1 == a.1@,
{
}

/// No key has an instant in new entries. After an insert the key has that
/// instant, and every other key the one that it had.
pub proof fn law_insert_sets_one_key(
    fresh: LifecycleEntries,
    entries: &mut LifecycleEntries,
    key: ReplicaLifecycleKey,
    instant: Instant,
    asked: ReplicaLifecycleKey,
    in_fresh: Option<Instant>,
    before: Option<Instant>,
    after: Option<Instant>,
)
    requires
        call_ensures(LifecycleEntries::new, (), fresh),
        call_ensures(LifecycleEntries::get, (&fresh, &asked), in_fresh),
        call_ensures(LifecycleEntries::get, (&*old(entries), &asked), before),
        call_ensures(LifecycleEntries::insert, (entries, key, instant), ()),
        call_ensures(LifecycleEntries::get, (&*final(entries), &asked), after),
    ensures
        in_fresh is None,
        same_request(asked, key) ==> after == Some(instant),
        !same_request(asked, key) ==> after == before,
{
}

/// A remove gives the instant that the key had. Afterwards the key has none, and
/// every other key the one that it had.
pub proof fn law_remove_takes_one_key(
    entries: &mut LifecycleEntries,
    key: ReplicaLifecycleKey,
    had: Option<Instant>,
    removed: Option<Instant>,
    asked: ReplicaLifecycleKey,
    before: Option<Instant>,
    after: Option<Instant>,
)
    requires
        call_ensures(LifecycleEntries::get, (&*old(entries), &key), had),
        call_ensures(LifecycleEntries::get, (&*old(entries), &asked), before),
        call_ensures(LifecycleEntries::remove, (entries, &key), removed),
        call_ensures(LifecycleEntries::get, (&*final(entries), &asked), after),
    ensures
        removed == had,
        same_request(asked, key) ==> after is None,
        !same_request(asked, key) ==> after == before,
{
}

} // verus!
