//! The polling loop's decision logic.
//!
//! The loop itself runs on a dedicated background thread and alternates
//! blocking native calls with decisions; the decisions are all here, as a
//! state machine from (state, observed event) to (next state, action). The
//! runner performs the native create/open/poll/close calls and the channel
//! sends, feeds each outcome in, and carries each returned action out, so
//! every rule — fatal handshake failures, retried transient poll failures,
//! frame deduplication, cooperative cancellation — is verified even though
//! the native calls are not.

use vstd::prelude::*;

use crate::tracking_event::{RawTrackingEvent, TrackingEvent, tracking_event_decodes};

verus! {

/// The status code with which the native interface reports success; any
/// other code names a failure condition.
pub const LEAP_RS_SUCCESS: u32 = 0;

/// The fatal failures of the connection handshake, each carrying the native
/// status code. Only these abort the polling loop; every failure after the
/// handshake is transient and retried.
#[derive(Clone, Copy, Debug, PartialEq, Eq, Structural)]
pub enum LeapError {
    ConnectionCreateFailed(u32),
    ConnectionOpenFailed(u32),
}

/// Where the polling loop stands in its lifecycle.
#[derive(Clone, Copy, Debug, PartialEq, Eq, Structural)]
pub enum LoopPhase {
    /// Waiting for the result of the native create-connection call.
    Connecting,
    /// Connection created; waiting for the result of the native
    /// open-connection call.
    Opening,
    /// Handshake done; polling until a stop request arrives.
    Polling,
    /// The loop is over; the native connection must be closed (on the
    /// cancellation path the returned action says so explicitly).
    Closed,
}

/// What one poll iteration observed, as handed to `step` by the runner.
#[derive(Clone, Debug, PartialEq, Eq)]
pub enum PollEvent {
    /// The stop channel held a message.
    StopRequested,
    /// The native poll call returned this non-success status.
    PollFailed(u32),
    /// The native poll call delivered a tracking message, already copied
    /// out of the short-lived native buffer.
    TrackingFrame(RawTrackingEvent),
    /// The native poll call delivered a device message (diagnostics only).
    DeviceConnected,
    /// The native poll call delivered a message of any other type.
    OtherMessage,
}

/// What the runner must do after one `step`.
#[derive(Clone, Debug, PartialEq, Eq)]
pub enum LoopAction {
    /// Push this decoded event onto the data channel, then keep polling.
    EmitEvent(TrackingEvent),
    /// Nothing to deliver; keep polling.
    KeepPolling,
    /// Close the native connection and let the thread return.
    StopAndClose,
}

/// The deduplicating polling-loop state machine.
pub struct PollingLoop {
    /// The phase of the lifecycle the loop is in.
    pub phase: LoopPhase,
    /// The frame id of the last tracking frame handled, or nothing before
    /// the first frame; a frame whose id equals it is a redelivery and is
    /// suppressed. "Nothing seen yet" is distinct from every id, so the
    /// first frame is always delivered, whatever id it carries.
    pub last_frame_id: Option<i64>,
}

/// The frame ids of a sequence of raw frames, in order.
pub open spec fn frame_ids(frames: Seq<RawTrackingEvent>) -> Seq<i64> {
    frames.map_values(|frame: RawTrackingEvent| frame.tracking_frame_id)
}

/// The event ids of a sequence of decoded events, in order.
pub open spec fn event_ids(events: Seq<TrackingEvent>) -> Seq<i64> {
    events.map_values(|event: TrackingEvent| event.event_id)
}

/// The ids that deduplication lets through: an incoming id is emitted
/// exactly when it differs from the id seen most recently before it, where
/// `last` is the id last seen before the run began — `None` when no frame
/// has been seen at all, which no incoming id equals.
pub open spec fn emitted_ids(last: Option<i64>, ids: Seq<i64>) -> Seq<i64>
    decreases ids.len(),
{
    if ids.len() == 0 {
        Seq::empty()
    } else if last != Some(ids[0]) {
        seq![ids[0]] + emitted_ids(Some(ids[0]), ids.drop_first())
    } else {
        emitted_ids(last, ids.drop_first())
    }
}

/// The frames that deduplication lets through, in order: the same filter as
/// `emitted_ids`, keeping the whole frame rather than its id alone.
pub open spec fn emitted_frames(last: Option<i64>, frames: Seq<RawTrackingEvent>) -> Seq<
    RawTrackingEvent,
>
    decreases frames.len(),
{
    if frames.len() == 0 {
        Seq::empty()
    } else if last != Some(frames[0].tracking_frame_id) {
        seq![frames[0]] + emitted_frames(Some(frames[0].tracking_frame_id), frames.drop_first())
    } else {
        emitted_frames(last, frames.drop_first())
    }
}

/// No later id is smaller than an earlier one.
pub open spec fn non_decreasing(ids: Seq<i64>) -> bool {
    forall|i: int, j: int| 0 <= i <= j < ids.len() ==> ids[i] <= ids[j]
}

/// Every later id is larger than every earlier one.
pub open spec fn strictly_increasing(ids: Seq<i64>) -> bool {
    forall|i: int, j: int| 0 <= i < j < ids.len() ==> ids[i] < ids[j]
}

proof fn lemma_emitted_ids_increase(last: Option<i64>, ids: Seq<i64>)
    requires
        non_decreasing(ids),
    ensures
        strictly_increasing(emitted_ids(last, ids)),
        emitted_ids(last, ids).len() > 0 ==> {
            &&& Some(emitted_ids(last, ids)[0]) != last
            &&& ids.len() > 0
            &&& emitted_ids(last, ids)[0] >= ids[0]
        },
    decreases ids.len(),
{
    if ids.len() == 0 {
    } else {
        let rest = ids.drop_first();
        assert(non_decreasing(rest)) by {
            assert(forall|i: int, j: int|
                0 <= i <= j < rest.len() ==> rest[i] == ids[i + 1] && rest[j] == ids[j + 1]);
        }
        if last != Some(ids[0]) {
            lemma_emitted_ids_increase(Some(ids[0]), rest);
            let emitted = emitted_ids(last, ids);
            let emitted_rest = emitted_ids(Some(ids[0]), rest);
            assert(emitted == seq![ids[0]] + emitted_rest);
            if emitted_rest.len() > 0 {
                assert(emitted_rest[0] >= rest[0]);
                assert(rest[0] == ids[1] && ids[0] <= ids[1]);
                assert(emitted_rest[0] > ids[0]);
            }
            assert forall|i: int, j: int| 0 <= i < j < emitted.len() implies emitted[i] < emitted[j] by {
                assert(emitted[j] == emitted_rest[j - 1]);
                if i == 0 {
                    if j > 1 {
                        assert(emitted_rest[0] < emitted_rest[j - 1]);
                    }
                    assert(emitted[0] == ids[0] < emitted_rest[j - 1]);
                } else {
                    assert(emitted[i] == emitted_rest[i - 1]);
                    assert(emitted_rest[i - 1] < emitted_rest[j - 1]);
                }
            }
        } else {
            lemma_emitted_ids_increase(last, rest);
            if emitted_ids(last, ids).len() > 0 {
                assert(emitted_ids(last, ids)[0] >= rest[0] && rest[0] >= ids[0]);
            }
        }
    }
}

/// Law: over any run of frames whose ids are non-decreasing (redeliveries
/// of the same id included), the ids let through by deduplication — and so
/// the event ids delivered to the consumer — are strictly increasing, with
/// no id ever repeated, whatever the last-seen id was when the run began.
pub proof fn lemma_delivered_ids_strictly_increase(last: Option<i64>, ids: Seq<i64>)
    requires
        non_decreasing(ids),
    ensures
        strictly_increasing(emitted_ids(last, ids)),
        forall|i: int, j: int|
            0 <= i < j < emitted_ids(last, ids).len()
                ==> emitted_ids(last, ids)[i] != emitted_ids(last, ids)[j],
{
    lemma_emitted_ids_increase(last, ids);
}

/// The frames deduplication lets through carry exactly the ids it lets
/// through: filtering and then taking ids is taking ids and then filtering.
pub proof fn lemma_emitted_frames_carry_emitted_ids(
    last: Option<i64>,
    frames: Seq<RawTrackingEvent>,
)
    ensures
        frame_ids(emitted_frames(last, frames)) == emitted_ids(last, frame_ids(frames)),
    decreases frames.len(),
{
    if frames.len() == 0 {
        assert(frame_ids(emitted_frames(last, frames)) =~= emitted_ids(last, frame_ids(frames)));
    } else {
        let rest = frames.drop_first();
        let ids = frame_ids(frames);
        assert(ids.drop_first() =~= frame_ids(rest));
        if last != Some(frames[0].tracking_frame_id) {
            lemma_emitted_frames_carry_emitted_ids(Some(frames[0].tracking_frame_id), rest);
            assert(frame_ids(seq![frames[0]] + emitted_frames(
                Some(frames[0].tracking_frame_id),
                rest,
            )) =~= seq![ids[0]] + frame_ids(emitted_frames(
                Some(frames[0].tracking_frame_id),
                rest,
            )));
        } else {
            lemma_emitted_frames_carry_emitted_ids(last, rest);
        }
    }
}

impl PollingLoop {
    /// A loop about to attempt the native handshake. No frame has been seen
    /// yet, so the first tracking frame is delivered whatever id it
    /// carries, id zero included.
    pub fn new() -> (polling_loop: PollingLoop)
        ensures
            polling_loop.phase is Connecting,
            polling_loop.last_frame_id is None,
    {
        PollingLoop { phase: LoopPhase::Connecting, last_frame_id: None }
    }

    /// Decides on the result of the native create-connection call: success
    /// moves on to opening, any other status is fatal and ends the loop
    /// before it ever polls.
    pub fn connection_created(&mut self, status: u32) -> (outcome: Result<(), LeapError>)
        requires
            old(self).phase is Connecting,
        ensures
            final(self).last_frame_id == old(self).last_frame_id,
            outcome is Ok <==> status == LEAP_RS_SUCCESS,
            outcome is Ok ==> final(self).phase is Opening,
            status != LEAP_RS_SUCCESS ==> {
                &&& outcome == Result::<(), LeapError>::Err(LeapError::ConnectionCreateFailed(status))
                &&& final(self).phase is Closed
            },
    {
        if status == LEAP_RS_SUCCESS {
            self.phase = LoopPhase::Opening;
            Ok(())
        } else {
            self.phase = LoopPhase::Closed;
            Err(LeapError::ConnectionCreateFailed(status))
        }
    }

    /// Decides on the result of the native open-connection call: success
    /// enters the polling phase, any other status is fatal and ends the
    /// loop before it ever polls.
    pub fn connection_opened(&mut self, status: u32) -> (outcome: Result<(), LeapError>)
        requires
            old(self).phase is Opening,
        ensures
            final(self).last_frame_id == old(self).last_frame_id,
            outcome is Ok <==> status == LEAP_RS_SUCCESS,
            outcome is Ok ==> final(self).phase is Polling,
            status != LEAP_RS_SUCCESS ==> {
                &&& outcome == Result::<(), LeapError>::Err(LeapError::ConnectionOpenFailed(status))
                &&& final(self).phase is Closed
            },
    {
        if status == LEAP_RS_SUCCESS {
            self.phase = LoopPhase::Polling;
            Ok(())
        } else {
            self.phase = LoopPhase::Closed;
            Err(LeapError::ConnectionOpenFailed(status))
        }
    }

    /// Handles one tracking frame while polling: a frame whose id differs
    /// from the last-seen id — the first frame always does — is decoded and
    /// handed back for delivery and becomes the new last-seen id; a
    /// redelivered id is suppressed and changes nothing.
    pub fn handle_frame(&mut self, raw: &RawTrackingEvent) -> (emitted: Option<TrackingEvent>)
        requires
            old(self).phase is Polling,
        ensures
            final(self).phase is Polling,
            old(self).last_frame_id != Some(raw.tracking_frame_id) ==> {
                &&& emitted matches Some(event) && tracking_event_decodes(*raw, event)
                &&& final(self).last_frame_id == Some(raw.tracking_frame_id)
            },
            old(self).last_frame_id == Some(raw.tracking_frame_id) ==> {
                &&& emitted is None
                &&& *final(self) == *old(self)
            },
    {
        let fresh = match self.last_frame_id {
            Some(last) => raw.tracking_frame_id != last,
            None => true,
        };
        if fresh {
            self.last_frame_id = Some(raw.tracking_frame_id);
            Some(TrackingEvent::from_raw(raw))
        } else {
            None
        }
    }

    /// One polling iteration's decision. A stop request ends the loop at
    /// once — cancellation is observed every iteration, so shutdown waits
    /// for at most one poll timeout — and the returned action makes the
    /// runner close the native connection before the thread returns. A
    /// failed poll is a transient failure: it is retried, never fatal.
    /// Device and other non-tracking messages have no effect on the emitted
    /// events. A tracking frame is deduplicated and decoded as in
    /// `handle_frame`.
    pub fn step(&mut self, event: PollEvent) -> (action: LoopAction)
        requires
            old(self).phase is Polling,
        ensures
            event is StopRequested ==> {
                &&& action is StopAndClose
                &&& final(self).phase is Closed
                &&& final(self).last_frame_id == old(self).last_frame_id
            },
            !(event is StopRequested) ==> final(self).phase is Polling,
            event is PollFailed || event is DeviceConnected || event is OtherMessage ==> {
                &&& action is KeepPolling
                &&& *final(self) == *old(self)
            },
            event matches PollEvent::TrackingFrame(raw) ==> {
                &&& (old(self).last_frame_id != Some(raw.tracking_frame_id) ==> {
                    &&& action matches LoopAction::EmitEvent(emitted)
                        && tracking_event_decodes(raw, emitted)
                    &&& final(self).last_frame_id == Some(raw.tracking_frame_id)
                })
                &&& (old(self).last_frame_id == Some(raw.tracking_frame_id) ==> {
                    &&& action is KeepPolling
                    &&& *final(self) == *old(self)
                })
            },
    {
        match event {
            PollEvent::StopRequested => {
                self.phase = LoopPhase::Closed;
                LoopAction::StopAndClose
            },
            PollEvent::TrackingFrame(raw) => {
                match self.handle_frame(&raw) {
                    Some(emitted) => LoopAction::EmitEvent(emitted),
                    None => LoopAction::KeepPolling,
                }
            },
            PollEvent::PollFailed(_) => LoopAction::KeepPolling,
            PollEvent::DeviceConnected => LoopAction::KeepPolling,
            PollEvent::OtherMessage => LoopAction::KeepPolling,
        }
    }

    /// Runs the polling phase over a whole run of tracking frames at once:
    /// exactly the frames that deduplication lets through come back, each
    /// decoded field for field, in poll order — no event invented,
    /// reordered, or dropped for any reason but a redelivered id. Together
    /// with `lemma_delivered_ids_strictly_increase`, the events of any
    /// non-decreasing run carry strictly increasing ids.
    pub fn process_frames(&mut self, frames: &Vec<RawTrackingEvent>) -> (events: Vec<TrackingEvent>)
        requires
            old(self).phase is Polling,
        ensures
            final(self).phase is Polling,
            events@.len() == emitted_frames(old(self).last_frame_id, frames@).len(),
            forall|k: int|
                0 <= k < events@.len() ==> tracking_event_decodes(
                    emitted_frames(old(self).last_frame_id, frames@)[k],
                    #[trigger] events@[k],
                ),
            event_ids(events@) == emitted_ids(old(self).last_frame_id, frame_ids(frames@)),
    {
        let ghost initial_last: Option<i64> = self.last_frame_id;
        let ghost total = emitted_frames(initial_last, frames@);
        let mut events: Vec<TrackingEvent> = Vec::new();
        let mut i: usize = 0;
        proof {
            assert(frames@.skip(0) =~= frames@);
            assert(total.skip(0) =~= total);
        }
        while i < frames.len()
            invariant
                self.phase is Polling,
                i <= frames@.len(),
                total == emitted_frames(initial_last, frames@),
                events@.len() <= total.len(),
                forall|k: int|
                    0 <= k < events@.len() ==> tracking_event_decodes(
                        total[k],
                        #[trigger] events@[k],
                    ),
                emitted_frames(self.last_frame_id, frames@.skip(i as int)) == total.skip(
                    events@.len() as int,
                ),
            decreases frames@.len() - i,
        {
            let ghost remaining = frames@.skip(i as int);
            let ghost last_before: Option<i64> = self.last_frame_id;
            let ghost done = events@.len() as int;
            proof {
                assert(remaining[0] == frames@[i as int]);
                assert(remaining.drop_first() =~= frames@.skip(i + 1));
            }
            match self.handle_frame(&frames[i]) {
                Some(event) => {
                    proof {
                        let rest_emitted = emitted_frames(
                            Some(remaining[0].tracking_frame_id),
                            remaining.drop_first(),
                        );
                        assert(emitted_frames(last_before, remaining) == seq![remaining[0]]
                            + rest_emitted);
                        assert(total.skip(done)[0] == remaining[0]);
                        assert(total[done] == frames@[i as int]);
                        assert(rest_emitted.len() == total.skip(done + 1).len());
                        assert forall|k: int| 0 <= k < rest_emitted.len() implies rest_emitted[k]
                            == total.skip(done + 1)[k] by {
                            assert(rest_emitted[k] == (seq![remaining[0]] + rest_emitted)[k + 1]);
                            assert(total.skip(done)[k + 1] == total[done + 1 + k]);
                            assert(total.skip(done + 1)[k] == total[done + 1 + k]);
                        }
                        assert(rest_emitted =~= total.skip(done + 1));
                    }
                    events.push(event);
                    proof {
                        assert(forall|k: int|
                            0 <= k < events@.len() ==> tracking_event_decodes(
                                total[k],
                                #[trigger] events@[k],
                            ));
                    }
                },
                None => {
                    proof {
                        assert(emitted_frames(last_before, remaining) == emitted_frames(
                            last_before,
                            remaining.drop_first(),
                        ));
                    }
                },
            }
            i = i + 1;
        }
        proof {
            assert(frames@.skip(i as int) =~= Seq::<RawTrackingEvent>::empty());
            assert(emitted_frames(self.last_frame_id, Seq::<RawTrackingEvent>::empty())
                =~= Seq::<RawTrackingEvent>::empty());
            assert(events@.len() == total.len());
            lemma_emitted_frames_carry_emitted_ids(initial_last, frames@);
            assert(event_ids(events@) =~= frame_ids(total));
        }
        events
    }
}

} // verus!
