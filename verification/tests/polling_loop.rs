//! Tests of the polling loop's state machine: handshake, deduplication,
//! transient failures, and cooperative cancellation.

use ultraleap::polling::{LeapError, LoopAction, LoopPhase, PollEvent, PollingLoop};
use ultraleap::tracking_event::RawTrackingEvent;

fn frame(id: i64) -> RawTrackingEvent {
    RawTrackingEvent { tracking_frame_id: id, hands: vec![] }
}

/// Drives a freshly-connected loop through the given frame ids and returns
/// the ids of the events it emits.
fn emitted_ids_for(ids: &[i64]) -> Vec<i64> {
    let mut polling_loop = PollingLoop::new();
    assert!(polling_loop.connection_created(0).is_ok());
    assert!(polling_loop.connection_opened(0).is_ok());
    let mut emitted = Vec::new();
    for &id in ids {
        match polling_loop.step(PollEvent::TrackingFrame(frame(id))) {
            LoopAction::EmitEvent(event) => emitted.push(event.event_id),
            LoopAction::KeepPolling => {},
            LoopAction::StopAndClose => panic!("a tracking frame must not stop the loop"),
        }
    }
    emitted
}

#[test]
fn successful_handshake_enters_polling() {
    let mut polling_loop = PollingLoop::new();
    assert_eq!(polling_loop.phase, LoopPhase::Connecting);
    assert_eq!(polling_loop.connection_created(0), Ok(()));
    assert_eq!(polling_loop.phase, LoopPhase::Opening);
    assert_eq!(polling_loop.connection_opened(0), Ok(()));
    assert_eq!(polling_loop.phase, LoopPhase::Polling);
}

#[test]
fn failed_create_is_fatal_with_its_status() {
    let mut polling_loop = PollingLoop::new();
    assert_eq!(
        polling_loop.connection_created(0xE701_0002),
        Err(LeapError::ConnectionCreateFailed(0xE701_0002)),
    );
    assert_eq!(polling_loop.phase, LoopPhase::Closed);
}

#[test]
fn failed_open_is_fatal_with_its_status() {
    let mut polling_loop = PollingLoop::new();
    assert_eq!(polling_loop.connection_created(0), Ok(()));
    assert_eq!(
        polling_loop.connection_opened(0xE701_0006),
        Err(LeapError::ConnectionOpenFailed(0xE701_0006)),
    );
    assert_eq!(polling_loop.phase, LoopPhase::Closed);
}

#[test]
fn redelivered_frame_ids_are_suppressed() {
    assert_eq!(emitted_ids_for(&[1, 1, 2, 3, 3, 3, 4]), vec![1, 2, 3, 4]);
}

#[test]
fn non_decreasing_input_yields_strictly_increasing_ids() {
    let emitted = emitted_ids_for(&[-2, -2, -1, 0, 0, 5, 5, 5, 9]);
    assert_eq!(emitted, vec![-2, -1, 0, 5, 9]);
    for pair in emitted.windows(2) {
        assert!(pair[0] < pair[1]);
    }
}

#[test]
fn extreme_frame_ids_deduplicate_like_any_other() {
    assert_eq!(
        emitted_ids_for(&[i64::MIN, i64::MIN, 0, i64::MAX, i64::MAX]),
        vec![i64::MIN, 0, i64::MAX],
    );
}

#[test]
fn a_first_frame_with_id_zero_is_delivered() {
    assert_eq!(emitted_ids_for(&[0, 0, 1]), vec![0, 1]);
}

#[test]
fn poll_failures_are_transient_and_keep_state() {
    let mut polling_loop = PollingLoop::new();
    assert!(polling_loop.connection_created(0).is_ok());
    assert!(polling_loop.connection_opened(0).is_ok());
    match polling_loop.step(PollEvent::TrackingFrame(frame(4))) {
        LoopAction::EmitEvent(event) => assert_eq!(event.event_id, 4),
        other => panic!("expected an emitted event, got {:?}", other),
    }
    assert_eq!(
        polling_loop.step(PollEvent::PollFailed(0xE701_0004)),
        LoopAction::KeepPolling,
    );
    assert_eq!(polling_loop.phase, LoopPhase::Polling);
    // The deduplication state survived the failure: the same id stays suppressed.
    assert_eq!(
        polling_loop.step(PollEvent::TrackingFrame(frame(4))),
        LoopAction::KeepPolling,
    );
}

#[test]
fn device_and_other_messages_do_not_affect_events() {
    let mut polling_loop = PollingLoop::new();
    assert!(polling_loop.connection_created(0).is_ok());
    assert!(polling_loop.connection_opened(0).is_ok());
    assert_eq!(polling_loop.step(PollEvent::DeviceConnected), LoopAction::KeepPolling);
    assert_eq!(polling_loop.step(PollEvent::OtherMessage), LoopAction::KeepPolling);
    match polling_loop.step(PollEvent::TrackingFrame(frame(11))) {
        LoopAction::EmitEvent(event) => assert_eq!(event.event_id, 11),
        other => panic!("expected an emitted event, got {:?}", other),
    }
}

#[test]
fn stop_request_closes_the_loop_at_once() {
    let mut polling_loop = PollingLoop::new();
    assert!(polling_loop.connection_created(0).is_ok());
    assert!(polling_loop.connection_opened(0).is_ok());
    // A fixture that never acknowledges: only tracking frames arrive before
    // the stop. The very first stop observation ends the loop.
    assert!(matches!(
        polling_loop.step(PollEvent::TrackingFrame(frame(1))),
        LoopAction::EmitEvent(_)
    ));
    assert_eq!(polling_loop.step(PollEvent::StopRequested), LoopAction::StopAndClose);
    assert_eq!(polling_loop.phase, LoopPhase::Closed);
}

#[test]
fn process_frames_deduplicates_a_whole_run() {
    let mut polling_loop = PollingLoop::new();
    assert!(polling_loop.connection_created(0).is_ok());
    assert!(polling_loop.connection_opened(0).is_ok());
    let frames = vec![frame(0), frame(1), frame(1), frame(2), frame(2), frame(7)];
    let events = polling_loop.process_frames(&frames);
    let ids: Vec<i64> = events.iter().map(|event| event.event_id).collect();
    assert_eq!(ids, vec![0, 1, 2, 7]);
    assert_eq!(polling_loop.phase, LoopPhase::Polling);
}
