//! Sending one request through a routed engine.
//!
//! The host decodes the request, builds its context and pumps the responses of
//! the engine to the consumer. The functions here say what it does at each turn.

use std::sync::Arc;
use vstd::prelude::*;

verus! {

/// A request that is ready for the engine.
///
/// `B` is the request itself and `T` its tracker, which observes cache hits and
/// response times. A tracker does not travel with a request, so a request that
/// was decoded has none.
pub struct PreprocessedRequest<B, T> {
    pub body: B,
    pub tracker: Option<Arc<T>>,
}

/// Gives a request a tracker, made by `new_tracker`, if it has none.
pub fn ensure_request_tracker<B, T, F: FnOnce() -> Arc<T>>(
    request: &mut PreprocessedRequest<B, T>,
    new_tracker: F,
)
    requires
        new_tracker.requires(()),
    ensures
        final(request).body == old(request).body,
        match old(request).tracker {
            Some(_) => final(request).tracker == old(request).tracker,
            None => final(request).tracker matches Some(tracker) && new_tracker.ensures(
                (),
                tracker,
            ),
        },
{
    if request.tracker.is_none() {
        request.tracker = Some(new_tracker());
    }
}

/// What a request takes over from the context that it is made in.
pub struct ParentContext<M> {
    pub id: String,
    pub metadata: M,
}

/// The context in which a request runs.
pub enum RequestContext<R, M> {
    /// A context of its own.
    Fresh { request: R },
    /// A child of another context, with that context's id and metadata. The
    /// host links the child to its parent, and then passes on to it what
    /// [`inherited_signal`] says.
    Child { request: R, id: String, metadata: M },
}

/// Puts a request that was decoded into its context, with a tracker.
pub fn request_context<B, T, M, F: FnOnce() -> Arc<T>>(
    request: PreprocessedRequest<B, T>,
    parent: Option<ParentContext<M>>,
    new_tracker: F,
) -> (context: RequestContext<PreprocessedRequest<B, T>, M>)
    requires
        new_tracker.requires(()),
    ensures
        match parent {
            Some(parent) => context matches RequestContext::Child { request: sent, id, metadata }
                && id == parent.id && metadata == parent.metadata && with_tracker(
                request,
                sent,
                new_tracker,
            ),
            None => context matches RequestContext::Fresh { request: sent } && with_tracker(
                request,
                sent,
                new_tracker,
            ),
        },
{
    let mut request = request;
    ensure_request_tracker(&mut request, new_tracker);
    match parent {
        Some(parent) => RequestContext::Child { request, id: parent.id, metadata: parent.metadata },
        None => RequestContext::Fresh { request },
    }
}

/// `sent` is `request` with a tracker: its own, or else one from `new_tracker`.
pub open spec fn with_tracker<B, T, F: FnOnce() -> Arc<T>>(
    request: PreprocessedRequest<B, T>,
    sent: PreprocessedRequest<B, T>,
    new_tracker: F,
) -> bool {
    &&& sent.body == request.body
    &&& match request.tracker {
        Some(_) => sent.tracker == request.tracker,
        None => sent.tracker matches Some(tracker) && new_tracker.ensures((), tracker),
    }
}

/// What the host tells a child context.
#[derive(Clone, Copy, Debug, PartialEq, Eq, Structural)]
pub enum ChildSignal {
    Kill,
    StopGenerating,
}

/// What a child is told that was linked to its parent after the parent was
/// killed or stopped. A kill outweighs a stop.
pub fn inherited_signal(parent_killed: bool, parent_stopped: bool) -> (signal: Option<ChildSignal>)
    ensures
        signal == (if parent_killed {
            Some(ChildSignal::Kill)
        } else if parent_stopped {
            Some(ChildSignal::StopGenerating)
        } else {
            None
        }),
{
    if parent_killed {
        Some(ChildSignal::Kill)
    } else if parent_stopped {
        Some(ChildSignal::StopGenerating)
    } else {
        None
    }
}

/// What happened while responses are pumped to the consumer.
pub enum PumpEvent {
    /// The consumer went away while the pump waited for a response.
    ConsumerGone,
    /// The engine has no more responses.
    StreamEnded,
    /// The engine gave a response.
    Response,
    /// The consumer took the response.
    Delivered,
    /// The consumer went away before it took the response.
    DeliveryFailed,
}

/// What the host does next with the responses.
#[derive(Clone, Copy, Debug, PartialEq, Eq, Structural)]
pub enum PumpStep {
    /// Wait for a response, or for the consumer to go away.
    Wait,
    /// Convert the response and hand it to the consumer.
    Deliver,
    /// End the pump.
    Finish,
    /// Tell the engine to stop generating, and end the pump.
    StopAndFinish,
}

/// The pump ends when the engine has no more responses or the consumer goes
/// away. The engine is told to stop if and only if the consumer went away.
pub fn pump_step(event: PumpEvent) -> (step: PumpStep)
    ensures
        match event {
            PumpEvent::ConsumerGone => step == PumpStep::StopAndFinish,
            PumpEvent::StreamEnded => step == PumpStep::Finish,
            PumpEvent::Response => step == PumpStep::Deliver,
            PumpEvent::Delivered => step == PumpStep::Wait,
            PumpEvent::DeliveryFailed => step == PumpStep::StopAndFinish,
        },
{
    match event {
        PumpEvent::ConsumerGone => PumpStep::StopAndFinish,
        PumpEvent::StreamEnded => PumpStep::Finish,
        PumpEvent::Response => PumpStep::Deliver,
        PumpEvent::Delivered => PumpStep::Wait,
        PumpEvent::DeliveryFailed => PumpStep::StopAndFinish,
    }
}

/// A request that has a tracker keeps it. One that has none gets one that was
/// made for it. Either way it has one then, and the request itself stays.
pub proof fn law_request_gets_a_tracker<B, T, F: FnOnce() -> Arc<T>>(
    request: &mut PreprocessedRequest<B, T>,
    new_tracker: F,
)
    requires
        call_ensures(ensure_request_tracker::<B, T, F>, (request, new_tracker), ()),
    ensures
        final(request).tracker is Some,
        final(request).body == old(request).body,
        old(request).tracker is Some ==> final(request).tracker == old(request).tracker,
        old(request).tracker is None ==> call_ensures(
            new_tracker,
            (),
            final(request).tracker->0,
        ),
{
}

/// A request is a child if and only if it has a parent, with exactly the parent's
/// id and metadata. In either context it is the same request, with its own
/// tracker or with one that was made for it.
pub proof fn law_request_keeps_what_it_is<B, T, M, F: FnOnce() -> Arc<T>>(
    request: PreprocessedRequest<B, T>,
    parent: Option<ParentContext<M>>,
    new_tracker: F,
    context: RequestContext<PreprocessedRequest<B, T>, M>,
)
    requires
        call_ensures(request_context::<B, T, M, F>, (request, parent, new_tracker), context),
    ensures
        context is Child <==> parent is Some,
        context matches RequestContext::Child { id, metadata, .. } ==> id == parent->0.id
            && metadata == parent->0.metadata,
        ({
            let sent = match context {
                RequestContext::Fresh { request } => request,
                RequestContext::Child { request, .. } => request,
            };
            &&& sent.body == request.body
            &&& sent.tracker is Some
            &&& request.tracker is Some ==> sent.tracker == request.tracker
            &&& request.tracker is None ==> call_ensures(new_tracker, (), sent.tracker->0)
        }),
{
}

/// A child is told to end if and only if its parent was, and it is killed if and
/// only if its parent was killed.
pub proof fn law_child_ends_as_its_parent(
    parent_killed: bool,
    parent_stopped: bool,
    signal: Option<ChildSignal>,
)
    requires
        call_ensures(inherited_signal, (parent_killed, parent_stopped), signal),
    ensures
        signal == Some(ChildSignal::Kill) <==> parent_killed,
        signal is None <==> !parent_killed && !parent_stopped,
{
}

/// The engine is told to stop if and only if the consumer went away. The pump
/// ends without that if and only if there are no more responses, every response
/// is handed on, and a response that was taken is followed by the next wait.
pub proof fn law_engine_stops_with_its_consumer(event: PumpEvent, step: PumpStep)
    requires
        call_ensures(pump_step, (event,), step),
    ensures
        step == PumpStep::StopAndFinish <==> event is ConsumerGone || event is DeliveryFailed,
        step == PumpStep::Finish <==> event is StreamEnded,
        step == PumpStep::Deliver <==> event is Response,
        step == PumpStep::Wait <==> event is Delivered,
{
}

} // verus!
