use chat_router::engine::{
    ensure_request_tracker, inherited_signal, pump_step, request_context, ChildSignal,
    ParentContext, PreprocessedRequest, PumpEvent, PumpStep, RequestContext,
};
use std::sync::Arc;

struct RequestTracker;

fn request_with_tracker() -> PreprocessedRequest<Vec<u32>, RequestTracker> {
    PreprocessedRequest { body: vec![1, 2, 3], tracker: Some(Arc::new(RequestTracker)) }
}

/// What is left of a request that was encoded and decoded again.
fn over_the_wire(
    request: PreprocessedRequest<Vec<u32>, RequestTracker>,
) -> PreprocessedRequest<Vec<u32>, RequestTracker> {
    let encoded = serde_json::to_value(request.body).unwrap();
    PreprocessedRequest { body: serde_json::from_value(encoded).unwrap(), tracker: None }
}

#[test]
fn restores_tracker_after_serde_boundary() {
    let mut request = over_the_wire(request_with_tracker());

    assert!(request.tracker.is_none());
    ensure_request_tracker(&mut request, || Arc::new(RequestTracker));
    assert!(request.tracker.is_some());
    assert_eq!(request.body, vec![1, 2, 3]);
}

#[test]
fn preserves_existing_tracker() {
    let mut request = request_with_tracker();
    let tracker = request.tracker.as_ref().unwrap().clone();

    ensure_request_tracker(&mut request, || panic!("no tracker is needed"));

    assert!(Arc::ptr_eq(
        &tracker,
        request.tracker.as_ref().expect("tracker should remain attached")
    ));
}

#[test]
fn a_child_context_takes_over_id_and_metadata() {
    let parent = ParentContext { id: "parent".to_string(), metadata: 5 };
    let made = || Arc::new(RequestTracker);
    match request_context(over_the_wire(request_with_tracker()), Some(parent), made) {
        RequestContext::Child { request, id, metadata } => {
            assert_eq!(id, "parent");
            assert_eq!(metadata, 5);
            assert_eq!(request.body, vec![1, 2, 3]);
            assert!(request.tracker.is_some());
        }
        RequestContext::Fresh { .. } => panic!("the context has a parent"),
    }
    let none: Option<ParentContext<u8>> = None;
    match request_context(over_the_wire(request_with_tracker()), none, made) {
        RequestContext::Fresh { request } => assert!(request.tracker.is_some()),
        RequestContext::Child { .. } => panic!("the context has no parent"),
    }
}

#[test]
fn a_kill_outweighs_a_stop() {
    assert_eq!(inherited_signal(true, true), Some(ChildSignal::Kill));
    assert_eq!(inherited_signal(true, false), Some(ChildSignal::Kill));
    assert_eq!(inherited_signal(false, true), Some(ChildSignal::StopGenerating));
    assert_eq!(inherited_signal(false, false), None);
}

#[test]
fn the_engine_is_stopped_when_the_consumer_is_gone() {
    assert_eq!(pump_step(PumpEvent::ConsumerGone), PumpStep::StopAndFinish);
    assert_eq!(pump_step(PumpEvent::DeliveryFailed), PumpStep::StopAndFinish);
    assert_eq!(pump_step(PumpEvent::StreamEnded), PumpStep::Finish);
    assert_eq!(pump_step(PumpEvent::Response), PumpStep::Deliver);
    assert_eq!(pump_step(PumpEvent::Delivered), PumpStep::Wait);
}
