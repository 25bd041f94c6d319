//! The loop that receives the events of peer routers and applies them in
//! batches.
//!
//! The host waits for an event, and then applies it and every event that is
//! ready behind it, up to a limit, before it flushes what the batch leaves to be
//! done. Each function says what the host does next.

use vstd::prelude::*;

verus! {

/// The most events that one batch holds.
pub const MAX_REPLICA_BATCH_EVENTS: usize = 256;

/// How long a batch takes in further events, in nanoseconds: one millisecond.
pub const MAX_REPLICA_BATCH_DURATION: u64 = 1_000_000;

/// What ended the wait for an event.
pub enum WaitOutcome {
    /// An event came.
    Received,
    /// An event could not be received.
    ReceiveFailed,
    /// There are no more events.
    Closed,
    /// The host was told to stop.
    Cancelled,
}

/// What the host does after it waited.
pub enum AfterWait {
    /// Apply the event as the first of a batch.
    StartBatch(ReplicaBatch),
    /// Wait for the next event.
    Wait,
    /// Stop, with nothing left to flush.
    Stop,
}

/// What a look for a further event found.
pub enum PollOutcome {
    /// An event is there.
    Ready,
    /// An event could not be received.
    ReceiveFailed,
    /// There are no more events.
    Closed,
    /// No event is there yet.
    Pending,
}

/// What the host does after it applied an event.
pub enum AfterApply {
    /// Look for a further event, without waiting for one.
    Poll(ReplicaBatch),
    /// Flush the batch.
    Flush(AfterFlush),
}

/// What the host does after it looked for a further event.
pub enum AfterPoll {
    /// Apply the event as part of the batch.
    Apply(ReplicaBatch),
    /// Flush the batch.
    Flush(AfterFlush),
}

/// What the host does after it flushed a batch.
#[derive(Clone, Copy, Debug, PartialEq, Eq, Structural)]
pub enum AfterFlush {
    /// Wait for the next event.
    Wait,
    /// Let other tasks run, then wait for the next event.
    YieldThenWait,
    /// Stop.
    Stop,
}

/// A batch that takes in further events.
pub struct ReplicaBatch {
    applied: usize,
}

impl View for ReplicaBatch {
    type V = nat;

    /// How many events of the batch were applied.
    closed spec fn view(&self) -> nat {
        self.applied as nat
    }
}

/// What the host does after it applied an event, where `applied` events of the
/// batch were applied before: the batch ends when the host is cancelled, and
/// else when it is full or took its time.
pub open spec fn after_apply(applied: nat, cancelled: bool, elapsed: u64) -> Option<AfterFlush> {
    if cancelled {
        Some(AfterFlush::Stop)
    } else if applied + 1 >= MAX_REPLICA_BATCH_EVENTS || elapsed >= MAX_REPLICA_BATCH_DURATION {
        Some(AfterFlush::YieldThenWait)
    } else {
        None
    }
}

/// What the host does after it waited for an event.
pub fn on_wait(outcome: WaitOutcome) -> (after: AfterWait)
    ensures
        match outcome {
            WaitOutcome::Received => after matches AfterWait::StartBatch(batch) && batch@ == 0,
            WaitOutcome::ReceiveFailed => after is Wait,
            WaitOutcome::Closed => after is Stop,
            WaitOutcome::Cancelled => after is Stop,
        },
{
    match outcome {
        WaitOutcome::Received => AfterWait::StartBatch(ReplicaBatch { applied: 0 }),
        WaitOutcome::ReceiveFailed => AfterWait::Wait,
        WaitOutcome::Closed => AfterWait::Stop,
        WaitOutcome::Cancelled => AfterWait::Stop,
    }
}

impl ReplicaBatch {
    /// A batch that takes in further events is not full.
    #[verifier::type_invariant]
    closed spec fn not_full(self) -> bool {
        self.applied < MAX_REPLICA_BATCH_EVENTS
    }

    /// Counts the event that was applied, and says what the host does next.
    ///
    /// `cancelled` says whether the host was told to stop, `elapsed` how many
    /// nanoseconds the batch took so far.
    pub fn on_applied(self, cancelled: bool, elapsed: u64) -> (after: AfterApply)
        ensures
            match after_apply(self@, cancelled, elapsed) {
                Some(next) => after == AfterApply::Flush(next),
                None => after matches AfterApply::Poll(batch) && batch@ == self@ + 1,
            },
            after matches AfterApply::Poll(batch) ==> batch@ < MAX_REPLICA_BATCH_EVENTS,
    {
        proof {
            use_type_invariant(&self);
        }
        let applied: usize = self.applied + 1;
        if cancelled {
            return AfterApply::Flush(AfterFlush::Stop);
        }
        if applied >= MAX_REPLICA_BATCH_EVENTS || elapsed >= MAX_REPLICA_BATCH_DURATION {
            return AfterApply::Flush(AfterFlush::YieldThenWait);
        }
        AfterApply::Poll(ReplicaBatch { applied })
    }

    /// Says what the host does after it looked for a further event.
    pub fn on_poll(self, outcome: PollOutcome) -> (after: AfterPoll)
        ensures
            match outcome {
                PollOutcome::Ready => after == AfterPoll::Apply(self),
                PollOutcome::ReceiveFailed => after == AfterPoll::Flush(AfterFlush::Wait),
                PollOutcome::Closed => after == AfterPoll::Flush(AfterFlush::Stop),
                PollOutcome::Pending => after == AfterPoll::Flush(AfterFlush::Wait),
            },
    {
        match outcome {
            PollOutcome::Ready => AfterPoll::Apply(self),
            PollOutcome::ReceiveFailed => AfterPoll::Flush(AfterFlush::Wait),
            PollOutcome::Closed => AfterPoll::Flush(AfterFlush::Stop),
            PollOutcome::Pending => AfterPoll::Flush(AfterFlush::Wait),
        }
    }
}

/// What the host observed after an event of a batch was applied.
pub struct Observed {
    pub cancelled: bool,
    pub elapsed: u64,
}

/// How many events of a batch are applied, and how the batch ends, where
/// `applied` events were applied before and further events stay ready:
/// `observed` is what the host sees after each of them. The end is `None` where
/// the batch still goes on after all of them.
pub open spec fn batch_run(applied: nat, observed: Seq<Observed>) -> (nat, Option<AfterFlush>)
    decreases observed.len(),
{
    if observed.len() == 0 {
        (applied, None)
    } else {
        match after_apply(applied, observed[0].cancelled, observed[0].elapsed) {
            Some(next) => (applied + 1, Some(next)),
            None => batch_run(applied + 1, observed.drop_first()),
        }
    }
}

/// A batch holds at most as many events as the limit allows, however many are
/// ready.
pub proof fn law_batch_is_bounded(applied: nat, observed: Seq<Observed>)
    requires
        applied < MAX_REPLICA_BATCH_EVENTS,
    ensures
        batch_run(applied, observed).0 <= MAX_REPLICA_BATCH_EVENTS,
        applied + observed.len() >= MAX_REPLICA_BATCH_EVENTS ==> batch_run(applied, observed).1
            is Some,
    decreases observed.len(),
{
    if observed.len() > 0 && after_apply(
        applied,
        observed[0].cancelled,
        observed[0].elapsed,
    ) is None {
        law_batch_is_bounded(applied + 1, observed.drop_first());
    }
}

/// A batch that ends while further events are ready ends in a stop only where
/// the host was cancelled; otherwise other tasks get to run before the next
/// batch.
pub proof fn law_batch_stops_only_when_cancelled(applied: nat, observed: Seq<Observed>)
    ensures
        match batch_run(applied, observed).1 {
            Some(AfterFlush::Stop) => exists|i: int|
                0 <= i < observed.len() && (#[trigger] observed[i]).cancelled,
            Some(AfterFlush::Wait) => false,
            Some(AfterFlush::YieldThenWait) => true,
            None => forall|i: int| 0 <= i < observed.len() ==> !(#[trigger] observed[i]).cancelled,
        },
    decreases observed.len(),
{
    if observed.len() > 0 {
        let rest = observed.drop_first();
        assert(forall|i: int| 0 <= i < rest.len() ==> rest[i] == observed[i + 1]);
        if after_apply(applied, observed[0].cancelled, observed[0].elapsed) is None {
            law_batch_stops_only_when_cancelled(applied + 1, rest);
            if batch_run(applied + 1, rest).1 is None {
                assert forall|i: int| 0 <= i < observed.len() implies !(
                #[trigger] observed[i]).cancelled by {
                    if i > 0 {
                        assert(rest[i - 1] == observed[i]);
                    }
                }
            }
        }
    }
}

/// A batch starts if and only if an event came, with none applied; a failure to
/// receive is passed over; and the host stops if and only if there are no more
/// events or it was cancelled.
pub proof fn law_wait_is_answered(outcome: WaitOutcome, after: AfterWait)
    requires
        call_ensures(on_wait, (outcome,), after),
    ensures
        after is StartBatch <==> outcome is Received,
        after matches AfterWait::StartBatch(batch) ==> batch@ == 0,
        after is Wait <==> outcome is ReceiveFailed,
        after is Stop <==> outcome is Closed || outcome is Cancelled,
{
}

/// After an event is applied the batch goes on, one event longer, if and only if
/// the host was not cancelled, fewer than 256 events are applied by now, and less
/// than a millisecond passed. It ends in a stop if and only if the host was
/// cancelled.
pub proof fn law_applied_event_is_counted(
    batch: ReplicaBatch,
    cancelled: bool,
    elapsed: u64,
    after: AfterApply,
)
    requires
        call_ensures(ReplicaBatch::on_applied, (batch, cancelled, elapsed), after),
    ensures
        after is Poll <==> !cancelled && batch@ + 1 < 256 && elapsed < 1_000_000,
        after matches AfterApply::Poll(next) ==> next@ == batch@ + 1,
        after == AfterApply::Flush(AfterFlush::Stop) <==> cancelled,
        after != AfterApply::Flush(AfterFlush::Wait),
{
}

/// A batch takes in an event that is ready, and goes on as it was. Otherwise it
/// is flushed, and the host stops if and only if there are no more events.
pub proof fn law_poll_is_answered(batch: ReplicaBatch, outcome: PollOutcome, after: AfterPoll)
    requires
        call_ensures(ReplicaBatch::on_poll, (batch, outcome), after),
    ensures
        after is Apply <==> outcome is Ready,
        after matches AfterPoll::Apply(next) ==> next@ == batch@,
        after == AfterPoll::Flush(AfterFlush::Stop) <==> outcome is Closed,
        after != AfterPoll::Flush(AfterFlush::YieldThenWait),
{
}

} // verus!
