use chat_router::replica::batch::{
    on_wait, AfterApply, AfterFlush, AfterPoll, AfterWait, PollOutcome, ReplicaBatch, WaitOutcome,
    MAX_REPLICA_BATCH_DURATION, MAX_REPLICA_BATCH_EVENTS,
};
use chat_router::replica::effects::{ReplicaBatchEffects, WorkerWithDpRank};
use chat_router::replica::entries::LifecycleEntries;
use chat_router::replica::event::{
    apply_replica_event, prefill_completed, request_added, request_freed, ActiveSequenceEvent,
    ActiveSequenceEventData, ReplicaRouter, ReplicaStep,
};
use chat_router::replica::reorder::{ReplicaLifecycleReorderState, REPLICA_REORDER_STATE_TTL};
use std::collections::{BTreeMap, BTreeSet};

const OWN: u64 = 1;
const PEER: u64 = 2;

fn key(router_id: u64, request_id: &str) -> (u64, String) {
    (router_id, request_id.to_string())
}

fn worker(worker_id: u64, dp_rank: u32) -> WorkerWithDpRank {
    WorkerWithDpRank { worker_id, dp_rank }
}

fn event(
    router_id: u64,
    request_id: &str,
    data: ActiveSequenceEventData<&'static str>,
) -> ActiveSequenceEvent<&'static str> {
    ActiveSequenceEvent {
        request_id: request_id.to_string(),
        worker: worker(7, 0),
        data,
        router_id,
        lora_name: Some("lora".to_string()),
    }
}

fn apply(
    state: &mut ReplicaLifecycleReorderState,
    event: ActiveSequenceEvent<&'static str>,
    now: u64,
) -> ReplicaStep<&'static str> {
    let router = ReplicaRouter { router_id: OWN, lazy_register: true };
    apply_replica_event(&router, event, state, now)
}

/// Applies an event that frees a request which is not in the request index.
fn free(state: &mut ReplicaLifecycleReorderState, request_id: &str, now: u64) {
    match apply(state, event(PEER, request_id, ActiveSequenceEventData::Free), now) {
        ReplicaStep::Free(step) => assert!(step.locate(None, state).is_none()),
        _ => panic!("a request of a peer is freed"),
    }
}

/// Applies the completion of a prefill of a request that is not there yet.
fn complete_early(state: &mut ReplicaLifecycleReorderState, request_id: &str, now: u64) {
    let data = ActiveSequenceEventData::MarkPrefillCompleted;
    match apply(state, event(PEER, request_id, data), now) {
        ReplicaStep::CompletePrefill(step) => assert!(step.locate(None, state).is_none()),
        _ => panic!("a prefill of a peer completes"),
    }
}

/// Applies the arrival of a request: `None` where it is dropped, else whether
/// its prefill is completed already.
fn add(state: &mut ReplicaLifecycleReorderState, request_id: &str, now: u64) -> Option<bool> {
    let data = ActiveSequenceEventData::AddRequest("tokens");
    match apply(state, event(PEER, request_id, data), now) {
        ReplicaStep::Add(step) => Some(step.insert.prefill_completed),
        ReplicaStep::Finished => None,
        _ => panic!("a request of a peer is added or dropped"),
    }
}

#[test]
fn entries_hold_the_last_instant_of_each_key() {
    let mut entries = LifecycleEntries::new();
    assert_eq!(entries.get(&key(1, "a")), None);
    entries.insert(key(1, "a"), 10);
    entries.insert(key(1, "b"), 11);
    entries.insert(key(2, "a"), 12);
    entries.insert(key(1, "a"), 13);
    assert_eq!(entries.get(&key(1, "a")), Some(13));
    assert_eq!(entries.get(&key(1, "b")), Some(11));
    assert_eq!(entries.get(&key(2, "a")), Some(12));
    assert_eq!(entries.remove(&key(1, "a")), Some(13));
    assert_eq!(entries.remove(&key(1, "a")), None);
    assert_eq!(entries.get(&key(1, "b")), Some(11));
    assert_eq!(entries.remove(&key(1, "b")), Some(11));
    assert_eq!(entries.get(&key(1, "b")), None);
    assert_eq!(entries.get(&key(2, "a")), Some(12));
}

#[test]
fn a_tombstone_lives_for_the_ttl() {
    let mut state = ReplicaLifecycleReorderState::new();
    state.record_free(key(PEER, "r"), 5);
    state.prune(5 + REPLICA_REORDER_STATE_TTL);
    assert!(state.was_freed(&key(PEER, "r")));
    state.prune(5 + REPLICA_REORDER_STATE_TTL + 1);
    assert!(!state.was_freed(&key(PEER, "r")));
    assert_eq!(REPLICA_REORDER_STATE_TTL, 300 * 1_000_000_000);
}

#[test]
fn a_key_that_is_observed_again_lives_on() {
    let mut state = ReplicaLifecycleReorderState::new();
    state.record_free(key(PEER, "again"), 0);
    state.record_free(key(PEER, "once"), 1);
    state.record_free(key(PEER, "again"), 10);
    state.prune(REPLICA_REORDER_STATE_TTL + 5);
    assert!(state.was_freed(&key(PEER, "again")));
    assert!(!state.was_freed(&key(PEER, "once")));
    state.prune(REPLICA_REORDER_STATE_TTL + 11);
    assert!(!state.was_freed(&key(PEER, "again")));
}

#[test]
fn a_clock_that_steps_back_expires_nothing() {
    let mut state = ReplicaLifecycleReorderState::new();
    state.record_free(key(PEER, "r"), REPLICA_REORDER_STATE_TTL * 2);
    state.prune(0);
    assert!(state.was_freed(&key(PEER, "r")));
}

#[test]
fn a_pending_prefill_is_taken_once() {
    let mut state = ReplicaLifecycleReorderState::new();
    state.record_pending_prefill_completed(key(PEER, "r"), 1);
    assert!(!state.take_pending_prefill_completed(&key(PEER, "other")));
    assert!(state.take_pending_prefill_completed(&key(PEER, "r")));
    assert!(!state.take_pending_prefill_completed(&key(PEER, "r")));
    assert!(!state.was_freed(&key(PEER, "r")));
}

#[test]
fn own_events_are_ignored() {
    let mut state = ReplicaLifecycleReorderState::new();
    let step = apply(&mut state, event(OWN, "r", ActiveSequenceEventData::Free), 1);
    assert!(matches!(step, ReplicaStep::Finished));
    assert!(!state.was_freed(&key(OWN, "r")));
    let step = apply(&mut state, event(OWN, "r", ActiveSequenceEventData::AddRequest("t")), 1);
    assert!(matches!(step, ReplicaStep::Finished));
}

#[test]
fn a_request_is_handed_on_as_it_came() {
    let mut state = ReplicaLifecycleReorderState::new();
    let data = ActiveSequenceEventData::AddRequest("tokens");
    match apply(&mut state, event(PEER, "r", data), 42) {
        ReplicaStep::Add(step) => {
            assert!(step.register_worker);
            let insert = step.locate(true).expect("the worker is registered");
            assert_eq!(insert.request_id, "r");
            assert_eq!(insert.worker, worker(7, 0));
            assert_eq!(insert.lora_name.as_deref(), Some("lora"));
            assert_eq!(insert.request, "tokens");
            assert!(!insert.prefill_completed);
            assert_eq!(insert.decay_now, 42);
        }
        _ => panic!("the request is added"),
    }
    let router = ReplicaRouter { router_id: OWN, lazy_register: false };
    let data = ActiveSequenceEventData::AddRequest("tokens");
    match apply_replica_event(&router, event(PEER, "s", data), &mut state, 43) {
        ReplicaStep::Add(step) => {
            assert!(!step.register_worker);
            assert!(step.locate(false).is_none());
        }
        _ => panic!("the request is added"),
    }
}

#[test]
fn a_freed_request_is_dropped_when_it_arrives() {
    let mut state = ReplicaLifecycleReorderState::new();
    free(&mut state, "r", 100);
    complete_early(&mut state, "other", 150);
    assert_eq!(add(&mut state, "r", 100 + REPLICA_REORDER_STATE_TTL), None);
    assert_eq!(add(&mut state, "s", 100 + REPLICA_REORDER_STATE_TTL), Some(false));
    assert_eq!(add(&mut state, "r", 101 + REPLICA_REORDER_STATE_TTL), Some(false));
}

#[test]
fn an_early_prefill_waits_for_its_request() {
    let mut state = ReplicaLifecycleReorderState::new();
    complete_early(&mut state, "r", 100);
    free(&mut state, "other", 110);
    assert_eq!(add(&mut state, "r", 200), Some(true));
    assert_eq!(add(&mut state, "r", 201), Some(false));
    complete_early(&mut state, "late", 300);
    assert_eq!(add(&mut state, "late", 301 + REPLICA_REORDER_STATE_TTL), Some(false));
}

#[test]
fn a_free_cancels_an_early_prefill() {
    let mut state = ReplicaLifecycleReorderState::new();
    complete_early(&mut state, "r", 100);
    free(&mut state, "r", 101);
    assert!(!state.take_pending_prefill_completed(&key(PEER, "r")));
    complete_early(&mut state, "r", 102);
    assert_eq!(add(&mut state, "r", 103), None);
    assert!(!state.take_pending_prefill_completed(&key(PEER, "r")));
}

#[test]
fn located_requests_are_updated() {
    let mut state = ReplicaLifecycleReorderState::new();
    state.record_pending_prefill_completed(key(PEER, "r"), 1);
    let data = ActiveSequenceEventData::MarkPrefillCompleted;
    match apply(&mut state, event(PEER, "r", data), 2) {
        ReplicaStep::CompletePrefill(step) => {
            let update = step.locate(Some(worker(9, 1)), &mut state).expect("found");
            assert_eq!(update.worker, worker(9, 1));
            assert_eq!(update.request_id, "r");
            assert_eq!(update.decay_now, 2);
        }
        _ => panic!("a prefill completes"),
    }
    assert!(!state.take_pending_prefill_completed(&key(PEER, "r")));
    match apply(&mut state, event(PEER, "r", ActiveSequenceEventData::Free), 3) {
        ReplicaStep::Free(step) => {
            let update = step.locate(Some(worker(9, 1)), &mut state).expect("found");
            assert_eq!(update.worker, worker(9, 1));
            assert_eq!(update.request_id, "r");
            assert_eq!(update.decay_now, 3);
        }
        _ => panic!("a request is freed"),
    }
    assert!(state.was_freed(&key(PEER, "r")));
}

#[test]
fn nothing_changes_for_a_worker_that_is_gone() {
    let updates = |state: &mut ReplicaLifecycleReorderState| {
        let freed = match apply(state, event(PEER, "r", freed()), 2) {
            ReplicaStep::Free(step) => step.locate(Some(worker(9, 1)), state),
            _ => panic!("a request is freed"),
        };
        let prefilled = match apply(state, event(PEER, "s", prefilled()), 3) {
            ReplicaStep::CompletePrefill(step) => step.locate(Some(worker(9, 1)), state),
            _ => panic!("a prefill completes"),
        };
        [freed.expect("found"), prefilled.expect("found")]
    };
    let mut state = ReplicaLifecycleReorderState::new();
    for update in updates(&mut state) {
        assert!(update.locate(false).is_none());
    }
    for update in updates(&mut state) {
        let update = update.locate(true).expect("the worker is there");
        assert_eq!(update.worker, worker(9, 1));
    }
}

/// A host with a request index and the requests that are marked as prefilled.
struct Host {
    index: BTreeMap<String, WorkerWithDpRank>,
    completed: BTreeSet<String>,
    state: ReplicaLifecycleReorderState,
}

impl Host {
    fn new() -> Self {
        Host {
            index: BTreeMap::new(),
            completed: BTreeSet::new(),
            state: ReplicaLifecycleReorderState::new(),
        }
    }

    fn deliver(&mut self, event: ActiveSequenceEvent<&'static str>, now: u64) {
        match apply(&mut self.state, event, now) {
            ReplicaStep::Finished => {}
            ReplicaStep::Add(step) => {
                let insert = step.locate(true).expect("every worker is registered");
                self.index.insert(insert.request_id.clone(), insert.worker);
                if insert.prefill_completed {
                    self.completed.insert(insert.request_id);
                }
            }
            ReplicaStep::Free(step) => {
                let worker = self.index.remove(&step.key.1);
                let update = step.locate(worker, &mut self.state);
                if let Some(update) = update.and_then(|update| update.locate(true)) {
                    self.completed.remove(&update.request_id);
                }
            }
            ReplicaStep::CompletePrefill(step) => {
                let worker = self.index.get(&step.key.1).copied();
                let update = step.locate(worker, &mut self.state);
                if let Some(update) = update.and_then(|update| update.locate(true)) {
                    self.completed.insert(update.request_id);
                }
            }
        }
    }
}

fn added() -> ActiveSequenceEventData<&'static str> {
    ActiveSequenceEventData::AddRequest("tokens")
}

fn freed() -> ActiveSequenceEventData<&'static str> {
    ActiveSequenceEventData::Free
}

fn prefilled() -> ActiveSequenceEventData<&'static str> {
    ActiveSequenceEventData::MarkPrefillCompleted
}

/// The host that got the events of one request, with events of another request
/// in between.
fn host_after(events: &[fn() -> ActiveSequenceEventData<&'static str>]) -> Host {
    let mut host = Host::new();
    let mut now = 100;
    for data in events {
        host.deliver(event(PEER, "r", data()), now);
        host.deliver(event(PEER, "other", added()), now + 1);
        now += 2;
    }
    host
}

#[test]
fn a_freed_request_stays_out_in_any_order() {
    let orders: [[fn() -> ActiveSequenceEventData<&'static str>; 3]; 6] = [
        [added, prefilled, freed],
        [added, freed, prefilled],
        [prefilled, added, freed],
        [prefilled, freed, added],
        [freed, added, prefilled],
        [freed, prefilled, added],
    ];
    for order in orders {
        let host = host_after(&order);
        assert!(!host.index.contains_key("r"));
        assert!(!host.completed.contains("r"));
        assert_eq!(host.index.get("other"), Some(&worker(7, 0)));
    }
}

#[test]
fn a_prefill_may_overtake_its_request() {
    let in_order = host_after(&[added, prefilled]);
    let overtaken = host_after(&[prefilled, added]);
    assert_eq!(overtaken.index, in_order.index);
    assert_eq!(overtaken.completed, in_order.completed);
    assert_eq!(overtaken.index.get("r"), Some(&worker(7, 0)));
    assert!(overtaken.completed.contains("r"));
}

#[test]
fn a_free_may_overtake_its_request() {
    let in_order = host_after(&[added, freed]);
    let overtaken = host_after(&[freed, added]);
    assert_eq!(overtaken.index, in_order.index);
    assert_eq!(overtaken.completed, in_order.completed);
    assert!(!overtaken.index.contains_key("r"));
}

#[test]
fn a_flush_hands_out_the_last_published_loads() {
    let mut effects: ReplicaBatchEffects<u32> = ReplicaBatchEffects::new();
    request_added(worker(1, 0), false, 10, &mut effects);
    prefill_completed(worker(1, 0), 11, &mut effects);
    prefill_completed(worker(2, 0), 20, &mut effects);
    request_freed(worker(1, 1), 30, &mut effects);
    let flush = effects.flush_replica_batch_effects();
    let mut batch = flush.load_batch.expect("two loads are published");
    batch.sort_by_key(|item| item.1);
    assert_eq!(batch, vec![(worker(1, 0), 11), (worker(1, 1), 30)]);
    assert!(flush.wake_scheduler);
    assert!(flush.cleanup_prompt_trie);

    let flush = effects.flush_replica_batch_effects();
    assert!(flush.load_batch.is_none());
    assert!(!flush.wake_scheduler);
    assert!(!flush.cleanup_prompt_trie);
}

#[test]
fn a_completed_prefill_alone_publishes_nothing() {
    let mut effects: ReplicaBatchEffects<u32> = ReplicaBatchEffects::new();
    prefill_completed(worker(1, 0), 1, &mut effects);
    let flush = effects.flush_replica_batch_effects();
    assert!(flush.load_batch.is_none());
    assert!(flush.wake_scheduler);
    assert!(!flush.cleanup_prompt_trie);
}

#[test]
fn an_added_request_wakes_the_scheduler_if_it_is_prefilled() {
    let mut effects: ReplicaBatchEffects<u32> = ReplicaBatchEffects::new();
    request_added(worker(1, 0), false, 1, &mut effects);
    let flush = effects.flush_replica_batch_effects();
    assert!(!flush.wake_scheduler);
    assert!(flush.cleanup_prompt_trie);
    request_added(worker(1, 0), true, 2, &mut effects);
    let flush = effects.flush_replica_batch_effects();
    assert!(flush.wake_scheduler);
    assert_eq!(flush.load_batch, Some(vec![(worker(1, 0), 2)]));
}

fn start() -> ReplicaBatch {
    match on_wait(WaitOutcome::Received) {
        AfterWait::StartBatch(batch) => batch,
        _ => panic!("an event starts a batch"),
    }
}

#[test]
fn a_wait_ends_in_a_batch_a_wait_or_a_stop() {
    start();
    assert!(matches!(on_wait(WaitOutcome::ReceiveFailed), AfterWait::Wait));
    assert!(matches!(on_wait(WaitOutcome::Closed), AfterWait::Stop));
    assert!(matches!(on_wait(WaitOutcome::Cancelled), AfterWait::Stop));
}

#[test]
fn a_batch_is_full_after_its_limit() {
    let mut batch = start();
    let mut applied = 0;
    let after = loop {
        applied += 1;
        match batch.on_applied(false, 0) {
            AfterApply::Poll(next) => match next.on_poll(PollOutcome::Ready) {
                AfterPoll::Apply(next) => batch = next,
                AfterPoll::Flush(_) => panic!("an event is ready"),
            },
            AfterApply::Flush(after) => break after,
        }
    };
    assert_eq!(applied, 256);
    assert_eq!(applied, MAX_REPLICA_BATCH_EVENTS);
    assert_eq!(after, AfterFlush::YieldThenWait);
}

#[test]
fn a_batch_ends_when_its_time_is_over() {
    let over = MAX_REPLICA_BATCH_DURATION;
    assert_eq!(over, 1_000_000);
    assert!(matches!(start().on_applied(false, over - 1), AfterApply::Poll(_)));
    let after = start().on_applied(false, over);
    assert!(matches!(after, AfterApply::Flush(AfterFlush::YieldThenWait)));
    let after = start().on_applied(true, over);
    assert!(matches!(after, AfterApply::Flush(AfterFlush::Stop)));
}

#[test]
fn a_poll_goes_on_or_flushes() {
    let polled = |outcome| match start().on_applied(false, 0) {
        AfterApply::Poll(batch) => match batch.on_poll(outcome) {
            AfterPoll::Apply(_) => None,
            AfterPoll::Flush(after) => Some(after),
        },
        AfterApply::Flush(_) => panic!("the batch is not full"),
    };
    assert_eq!(polled(PollOutcome::Ready), None);
    assert_eq!(polled(PollOutcome::ReceiveFailed), Some(AfterFlush::Wait));
    assert_eq!(polled(PollOutcome::Pending), Some(AfterFlush::Wait));
    assert_eq!(polled(PollOutcome::Closed), Some(AfterFlush::Stop));
}
