//! The consumer-facing connection lifecycle.
//!
//! A `LeapController` owns the consumer side of the two channels that
//! connect it to its polling loop: it sends stop signals and receives
//! decoded events, never blocking and never sharing mutable state across
//! threads. The loop-side endpoints come back from `open_connection` for
//! the caller to move onto the dedicated thread it spawns; joining that
//! thread after `close_connection` is likewise the caller's part, since the
//! library does not touch threads itself.

use std::sync::mpsc::{Receiver, Sender};
use vstd::prelude::*;

use crate::channel::{channel_send, channel_try_recv};
use crate::polling::LeapError;
use crate::tracking_event::TrackingEvent;

verus! {

/// One message from the polling loop to the controller: a decoded tracking
/// event, or the report that the native handshake failed and the loop has
/// exited without ever polling.
#[derive(Debug)]
pub enum LoopReport {
    Tracking(TrackingEvent),
    HandshakeFailed(LeapError),
}

/// The loop-side endpoints of the two channels a controller creates when it
/// opens: the stop receiver and the event sender. They are handed to
/// whoever runs the polling loop on its background thread.
pub struct LoopEndpoints {
    pub stop_receiver: Receiver<bool>,
    pub report_sender: Sender<LoopReport>,
}

/// The public-facing lifecycle object. Exactly one live polling loop
/// belongs to a running controller; both channel endpoints on this side are
/// owned here and dropped on close.
pub struct LeapController {
    running: bool,
    stop_sender: Option<Sender<bool>>,
    report_receiver: Option<Receiver<LoopReport>>,
    failed: Option<LeapError>,
}

impl LeapController {
    /// Whether a polling loop is currently considered live.
    pub closed spec fn is_running(&self) -> bool {
        self.running
    }

    /// Whether the data channel is still held, i.e. events can still come
    /// in. Closing the connection gives it up, after which retrieval
    /// returns nothing forever.
    pub closed spec fn can_receive(&self) -> bool {
        self.report_receiver is Some
    }

    /// The handshake failure reported by the loop, if one has been
    /// observed: the explicit state that tells a device that never
    /// connected apart from one that merely sees no hands.
    pub closed spec fn failure(&self) -> Option<LeapError> {
        self.failed
    }

    /// A controller holds its two channel endpoints exactly while it is
    /// running.
    pub closed spec fn wf(&self) -> bool {
        &&& self.running <==> self.stop_sender is Some
        &&& self.running <==> self.report_receiver is Some
    }

    /// Constructs a controller and immediately opens its connection; the
    /// returned endpoints belong to the polling loop the caller spawns.
    /// Opening is fire-and-forget: nothing here waits for the device.
    pub fn new() -> (controller_and_endpoints: (LeapController, LoopEndpoints))
        ensures
            controller_and_endpoints.0.wf(),
            controller_and_endpoints.0.is_running(),
            controller_and_endpoints.0.can_receive(),
            controller_and_endpoints.0.failure() is None,
    {
        let mut controller = LeapController {
            running: false,
            stop_sender: None,
            report_receiver: None,
            failed: None,
        };
        let endpoints = controller.open_connection();
        (controller, endpoints.unwrap())
    }

    /// Idempotent open. On an already-running controller this is a no-op
    /// that hands out no endpoints — so no second loop can be spawned — and
    /// leaves every field, the live loop's state included, exactly as it
    /// was; a duplicate open attempt is not an error. Otherwise it creates
    /// the stop channel and the data channel, keeps the consumer-side
    /// endpoints, marks the controller running, and returns the loop-side
    /// endpoints for the caller to move onto the polling thread.
    pub fn open_connection(&mut self) -> (endpoints: Option<LoopEndpoints>)
        ensures
            old(self).wf() ==> final(self).wf(),
            !old(self).is_running() ==> final(self).wf(),
            old(self).is_running() ==> endpoints is None && *final(self) == *old(self),
            !old(self).is_running() ==> {
                &&& endpoints is Some
                &&& final(self).is_running()
                &&& final(self).can_receive()
                &&& final(self).failure() is None
            },
    {
        if self.running {
            return None;
        }
        self.running = true;
        self.failed = None;
        let (stop_sender, stop_receiver) = std::sync::mpsc::channel::<bool>();
        let (report_sender, report_receiver) = std::sync::mpsc::channel::<LoopReport>();
        self.stop_sender = Some(stop_sender);
        self.report_receiver = Some(report_receiver);
        Some(LoopEndpoints { stop_receiver, report_sender })
    }

    /// Sends the stop signal, gives up both endpoints, and marks the
    /// controller stopped. When it returns true a loop was live and the
    /// caller must join its thread, which the stop signal ends within one
    /// poll timeout. Closing a controller that is not running is guarded:
    /// it changes nothing and returns false. A failed send (the loop
    /// already exited, e.g. after a failed handshake) is deliberately
    /// ignored: shutdown must never crash the consumer's thread.
    pub fn close_connection(&mut self) -> (was_running: bool)
        ensures
            old(self).wf() ==> final(self).wf() && !final(self).can_receive(),
            was_running == old(self).is_running(),
            !final(self).is_running(),
            old(self).is_running() ==> !final(self).can_receive(),
            final(self).failure() == old(self).failure(),
            !old(self).is_running() ==> *final(self) == *old(self),
    {
        if !self.running {
            return false;
        }
        self.running = false;
        match &self.stop_sender {
            Some(sender) => {
                let _ = channel_send(sender, true);
            },
            None => {},
        }
        self.stop_sender = None;
        self.report_receiver = None;
        true
    }

    /// Non-blocking retrieval of the next queued decoded event: the next
    /// not-yet-consumed event if one is queued, and nothing otherwise —
    /// in particular, always nothing once the connection has been closed.
    /// The underlying channel read is the non-blocking one, so this never
    /// blocks or sleeps at any cadence, on an empty queue as on a closed
    /// channel; being verified, it never panics. A handshake failure
    /// reported by the loop is recorded for `connection_error` and yields
    /// no event.
    pub fn get_tracking_event(&mut self) -> (event: Option<TrackingEvent>)
        ensures
            final(self).wf() == old(self).wf(),
            final(self).is_running() == old(self).is_running(),
            final(self).can_receive() == old(self).can_receive(),
            !old(self).can_receive() ==> event is None && *final(self) == *old(self),
            event is Some ==> old(self).can_receive(),
            old(self).failure() is Some ==> final(self).failure() is Some,
    {
        let report = match &self.report_receiver {
            None => return None,
            Some(receiver) => channel_try_recv(receiver),
        };
        self.handle_report(report)
    }

    /// Turns one channel read into the consumer-facing outcome: a tracking
    /// report yields its event, a handshake-failure report is recorded and
    /// yields nothing, and an empty read yields and changes nothing. Exact
    /// for every possible report, so retrieval depends on the channel only
    /// for which report arrived.
    pub fn handle_report(&mut self, report: Option<LoopReport>) -> (event: Option<TrackingEvent>)
        ensures
            final(self).is_running() == old(self).is_running(),
            final(self).can_receive() == old(self).can_receive(),
            final(self).wf() == old(self).wf(),
            report matches Some(LoopReport::Tracking(delivered)) ==> {
                &&& event == Some(delivered)
                &&& final(self).failure() == old(self).failure()
            },
            report matches Some(LoopReport::HandshakeFailed(error)) ==> {
                &&& event is None
                &&& final(self).failure() == Some(error)
            },
            report is None ==> event is None && *final(self) == *old(self),
    {
        match report {
            None => None,
            Some(LoopReport::Tracking(event)) => Some(event),
            Some(LoopReport::HandshakeFailed(error)) => {
                self.failed = Some(error);
                None
            },
        }
    }

    /// The handshake failure the loop has reported, if any: how a consumer
    /// tells "the device never connected" from "connected, no data yet".
    pub fn connection_error(&self) -> (error: Option<LeapError>)
        ensures
            error == self.failure(),
    {
        self.failed
    }
}

} // verus!
