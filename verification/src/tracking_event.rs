//! Decoding of raw tracking frames into owned geometry.
//!
//! The native sensor hands out short-lived buffers with a fixed layout; the
//! caller copies them field by field into the `Raw*` mirror types below and
//! the decoder turns those into the owned `Bone`/`Digit`/`Palm`/`Hand`/
//! `TrackingEvent` values. Decoding copies every field verbatim: no unit
//! conversion and no filtering. Geometric scalars are carried as the raw
//! 32-bit encodings the sensor delivers; consumers interpret them downstream,
//! so the decoder itself never does arithmetic on them.

use vstd::prelude::*;

verus! {

/// A 3-vector of sensor-space scalars, each carried as its raw 32-bit
/// encoding.
#[derive(Clone, Copy, Debug, PartialEq, Eq, Structural)]
pub struct Vector3 {
    pub x: u32,
    pub y: u32,
    pub z: u32,
}

/// A 4-component quaternion, each component carried as its raw 32-bit
/// encoding.
#[derive(Clone, Copy, Debug, PartialEq, Eq, Structural)]
pub struct Quaternion {
    pub x: u32,
    pub y: u32,
    pub z: u32,
    pub w: u32,
}

/// One bone record exactly as it sits in a raw frame.
#[derive(Clone, Copy, Debug, PartialEq, Eq, Structural)]
pub struct RawBone {
    pub prev_joint: Vector3,
    pub next_joint: Vector3,
    pub width: u32,
    pub rotation: Quaternion,
}

/// One digit record exactly as it sits in a raw frame.
#[derive(Clone, Copy, Debug, PartialEq, Eq, Structural)]
pub struct RawDigit {
    pub finger_id: i32,
    pub metacarpal: RawBone,
    pub proximal: RawBone,
    pub intermediate: RawBone,
    pub distal: RawBone,
    pub is_extended: u32,
}

/// One palm record exactly as it sits in a raw frame.
#[derive(Clone, Copy, Debug, PartialEq, Eq, Structural)]
pub struct RawPalm {
    pub position: Vector3,
    pub orientation: Quaternion,
}

/// One hand record exactly as it sits in a raw frame.
#[derive(Clone, Copy, Debug, PartialEq, Eq, Structural)]
pub struct RawHand {
    pub id: u32,
    pub palm: RawPalm,
    pub thumb: RawDigit,
    pub index: RawDigit,
    pub middle: RawDigit,
    pub ring: RawDigit,
    pub pinky: RawDigit,
}

/// One raw tracking frame: its frame id and the hand records it carries.
#[derive(Clone, Debug, PartialEq, Eq)]
pub struct RawTrackingEvent {
    pub tracking_frame_id: i64,
    pub hands: Vec<RawHand>,
}

/// A rigid segment between two joints, owned by the consumer.
#[derive(Clone, Copy, Debug, PartialEq, Eq, Structural)]
pub struct Bone {
    pub prev_joint: Vector3,
    pub next_joint: Vector3,
    pub width: u32,
    pub rotation: Quaternion,
}

/// One finger: four connected bones plus an extended/flexed flag. The distal
/// bone's next joint is the fingertip.
#[derive(Clone, Copy, Debug, PartialEq, Eq, Structural)]
pub struct Digit {
    pub finger_id: i32,
    pub metacarpal: Bone,
    pub proximal: Bone,
    pub intermediate: Bone,
    pub distal: Bone,
    pub is_extended: u32,
}

/// The palm's position and orientation.
#[derive(Clone, Copy, Debug, PartialEq, Eq, Structural)]
pub struct Palm {
    pub position: Vector3,
    pub orientation: Quaternion,
}

/// One tracked hand: its id, its palm, and its five digits.
#[derive(Clone, Copy, Debug, PartialEq, Eq, Structural)]
pub struct Hand {
    pub id: u32,
    pub palm: Palm,
    pub thumb: Digit,
    pub index: Digit,
    pub middle: Digit,
    pub ring: Digit,
    pub pinky: Digit,
}

/// One decoded tracking sample: a monotonic frame identifier and zero or
/// more hands.
#[derive(Clone, Debug, PartialEq, Eq)]
pub struct TrackingEvent {
    pub event_id: i64,
    pub hands: Vec<Hand>,
}

/// The bone holds exactly the fields of the raw record.
pub open spec fn bone_decodes(raw: RawBone, bone: Bone) -> bool {
    &&& bone.prev_joint == raw.prev_joint
    &&& bone.next_joint == raw.next_joint
    &&& bone.width == raw.width
    &&& bone.rotation == raw.rotation
}

/// The digit holds exactly the fields of the raw record, bone by bone.
pub open spec fn digit_decodes(raw: RawDigit, digit: Digit) -> bool {
    &&& digit.finger_id == raw.finger_id
    &&& bone_decodes(raw.metacarpal, digit.metacarpal)
    &&& bone_decodes(raw.proximal, digit.proximal)
    &&& bone_decodes(raw.intermediate, digit.intermediate)
    &&& bone_decodes(raw.distal, digit.distal)
    &&& digit.is_extended == raw.is_extended
}

/// The palm holds exactly the fields of the raw record.
pub open spec fn palm_decodes(raw: RawPalm, palm: Palm) -> bool {
    &&& palm.position == raw.position
    &&& palm.orientation == raw.orientation
}

/// The hand holds exactly the fields of the raw record, digit by digit.
pub open spec fn hand_decodes(raw: RawHand, hand: Hand) -> bool {
    &&& hand.id == raw.id
    &&& palm_decodes(raw.palm, hand.palm)
    &&& digit_decodes(raw.thumb, hand.thumb)
    &&& digit_decodes(raw.index, hand.index)
    &&& digit_decodes(raw.middle, hand.middle)
    &&& digit_decodes(raw.ring, hand.ring)
    &&& digit_decodes(raw.pinky, hand.pinky)
}

/// The event carries the raw frame id and one decoded hand per raw hand
/// record, in the raw order.
pub open spec fn tracking_event_decodes(raw: RawTrackingEvent, event: TrackingEvent) -> bool {
    &&& event.event_id == raw.tracking_frame_id
    &&& event.hands@.len() == raw.hands@.len()
    &&& forall|i: int|
        0 <= i < raw.hands@.len() ==> hand_decodes(raw.hands@[i], #[trigger] event.hands@[i])
}

impl Bone {
    /// Copies one raw bone record verbatim.
    pub fn from_raw(raw_bone: &RawBone) -> (bone: Bone)
        ensures
            bone_decodes(*raw_bone, bone),
    {
        Bone {
            prev_joint: raw_bone.prev_joint,
            next_joint: raw_bone.next_joint,
            width: raw_bone.width,
            rotation: raw_bone.rotation,
        }
    }
}

impl Digit {
    /// Copies one raw digit record verbatim, bone by bone.
    pub fn from_raw(raw_digit: &RawDigit) -> (digit: Digit)
        ensures
            digit_decodes(*raw_digit, digit),
    {
        Digit {
            finger_id: raw_digit.finger_id,
            metacarpal: Bone::from_raw(&raw_digit.metacarpal),
            proximal: Bone::from_raw(&raw_digit.proximal),
            intermediate: Bone::from_raw(&raw_digit.intermediate),
            distal: Bone::from_raw(&raw_digit.distal),
            is_extended: raw_digit.is_extended,
        }
    }
}

impl Palm {
    /// Copies one raw palm record verbatim.
    pub fn from_raw(raw_palm: &RawPalm) -> (palm: Palm)
        ensures
            palm_decodes(*raw_palm, palm),
    {
        Palm {
            position: raw_palm.position,
            orientation: raw_palm.orientation,
        }
    }
}

impl Hand {
    /// Copies one raw hand record verbatim: id, palm, and all five digits.
    pub fn from_raw(raw_hand: &RawHand) -> (hand: Hand)
        ensures
            hand_decodes(*raw_hand, hand),
    {
        Hand {
            id: raw_hand.id,
            palm: Palm::from_raw(&raw_hand.palm),
            thumb: Digit::from_raw(&raw_hand.thumb),
            index: Digit::from_raw(&raw_hand.index),
            middle: Digit::from_raw(&raw_hand.middle),
            ring: Digit::from_raw(&raw_hand.ring),
            pinky: Digit::from_raw(&raw_hand.pinky),
        }
    }
}

impl TrackingEvent {
    /// Decodes one raw tracking frame. A frame with zero hand records yields
    /// an event with an empty hand sequence, not an error.
    pub fn from_raw(raw_tracking_event: &RawTrackingEvent) -> (event: TrackingEvent)
        ensures
            tracking_event_decodes(*raw_tracking_event, event),
    {
        let mut hands: Vec<Hand> = Vec::new();
        let mut i: usize = 0;
        while i < raw_tracking_event.hands.len()
            invariant
                i <= raw_tracking_event.hands@.len(),
                hands@.len() == i,
                forall|j: int|
                    0 <= j < i ==> hand_decodes(
                        raw_tracking_event.hands@[j],
                        #[trigger] hands@[j],
                    ),
            decreases raw_tracking_event.hands@.len() - i,
        {
            hands.push(Hand::from_raw(&raw_tracking_event.hands[i]));
            i = i + 1;
        }
        TrackingEvent { event_id: raw_tracking_event.tracking_frame_id, hands }
    }
}

} // verus!
