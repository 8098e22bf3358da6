//! Tests of the raw-frame decoder: verbatim copies, field by field.

use ultraleap::tracking_event::{
    Bone, Digit, Hand, Palm, Quaternion, RawBone, RawDigit, RawHand, RawPalm, RawTrackingEvent,
    TrackingEvent, Vector3,
};

/// A vector whose components are three consecutive values from `seed`.
fn vector_fixture(seed: u32) -> Vector3 {
    Vector3 { x: seed, y: seed + 1, z: seed + 2 }
}

/// A quaternion whose components are four consecutive values from `seed`.
fn quaternion_fixture(seed: u32) -> Quaternion {
    Quaternion { x: seed, y: seed + 1, z: seed + 2, w: seed + 3 }
}

/// A raw bone whose every field is derived from `seed`, each distinct.
fn raw_bone_fixture(seed: u32) -> RawBone {
    RawBone {
        prev_joint: vector_fixture(seed),
        next_joint: vector_fixture(seed + 10),
        width: seed + 20,
        rotation: quaternion_fixture(seed + 30),
    }
}

/// A raw digit whose four bones and flags are derived from `seed`.
fn raw_digit_fixture(finger_id: i32, seed: u32) -> RawDigit {
    RawDigit {
        finger_id,
        metacarpal: raw_bone_fixture(seed),
        proximal: raw_bone_fixture(seed + 100),
        intermediate: raw_bone_fixture(seed + 200),
        distal: raw_bone_fixture(seed + 300),
        is_extended: seed % 2,
    }
}

/// A raw hand with known, pairwise distinct field values.
fn raw_hand_fixture(id: u32, seed: u32) -> RawHand {
    RawHand {
        id,
        palm: RawPalm {
            position: vector_fixture(seed),
            orientation: quaternion_fixture(seed + 5),
        },
        thumb: raw_digit_fixture(0, seed + 1000),
        index: raw_digit_fixture(1, seed + 2000),
        middle: raw_digit_fixture(2, seed + 3000),
        ring: raw_digit_fixture(3, seed + 4000),
        pinky: raw_digit_fixture(4, seed + 5000),
    }
}

fn assert_bone_matches(raw: &RawBone, bone: &Bone) {
    assert_eq!(bone.prev_joint, raw.prev_joint);
    assert_eq!(bone.next_joint, raw.next_joint);
    assert_eq!(bone.width, raw.width);
    assert_eq!(bone.rotation, raw.rotation);
}

fn assert_digit_matches(raw: &RawDigit, digit: &Digit) {
    assert_eq!(digit.finger_id, raw.finger_id);
    assert_bone_matches(&raw.metacarpal, &digit.metacarpal);
    assert_bone_matches(&raw.proximal, &digit.proximal);
    assert_bone_matches(&raw.intermediate, &digit.intermediate);
    assert_bone_matches(&raw.distal, &digit.distal);
    assert_eq!(digit.is_extended, raw.is_extended);
}

fn assert_hand_matches(raw: &RawHand, hand: &Hand) {
    assert_eq!(hand.id, raw.id);
    assert_eq!(hand.palm.position, raw.palm.position);
    assert_eq!(hand.palm.orientation, raw.palm.orientation);
    assert_digit_matches(&raw.thumb, &hand.thumb);
    assert_digit_matches(&raw.index, &hand.index);
    assert_digit_matches(&raw.middle, &hand.middle);
    assert_digit_matches(&raw.ring, &hand.ring);
    assert_digit_matches(&raw.pinky, &hand.pinky);
}

#[test]
fn bone_from_raw_copies_every_field() {
    let raw = raw_bone_fixture(42);
    let bone = Bone::from_raw(&raw);
    assert_bone_matches(&raw, &bone);
    assert_eq!(bone.prev_joint, Vector3 { x: 42, y: 43, z: 44 });
    assert_eq!(bone.next_joint, Vector3 { x: 52, y: 53, z: 54 });
    assert_eq!(bone.width, 62);
    assert_eq!(bone.rotation, Quaternion { x: 72, y: 73, z: 74, w: 75 });
}

#[test]
fn digit_from_raw_copies_all_four_bones() {
    let raw = raw_digit_fixture(3, 500);
    let digit = Digit::from_raw(&raw);
    assert_digit_matches(&raw, &digit);
}

#[test]
fn palm_from_raw_copies_position_and_orientation() {
    let raw = RawPalm {
        position: vector_fixture(7),
        orientation: quaternion_fixture(90),
    };
    let palm = Palm::from_raw(&raw);
    assert_eq!(palm.position, Vector3 { x: 7, y: 8, z: 9 });
    assert_eq!(palm.orientation, Quaternion { x: 90, y: 91, z: 92, w: 93 });
}

#[test]
fn hand_from_raw_round_trips_every_field() {
    let raw = raw_hand_fixture(17, 10_000);
    let hand = Hand::from_raw(&raw);
    assert_hand_matches(&raw, &hand);
}

#[test]
fn tracking_event_from_raw_copies_frame_id_and_hands_in_order() {
    let raw = RawTrackingEvent {
        tracking_frame_id: -3_000_000_000,
        hands: vec![raw_hand_fixture(1, 100), raw_hand_fixture(2, 20_000)],
    };
    let event = TrackingEvent::from_raw(&raw);
    assert_eq!(event.event_id, -3_000_000_000);
    assert_eq!(event.hands.len(), 2);
    assert_hand_matches(&raw.hands[0], &event.hands[0]);
    assert_hand_matches(&raw.hands[1], &event.hands[1]);
}

#[test]
fn tracking_event_with_zero_hands_is_empty_not_an_error() {
    let raw = RawTrackingEvent { tracking_frame_id: 55, hands: vec![] };
    let event = TrackingEvent::from_raw(&raw);
    assert_eq!(event.event_id, 55);
    assert!(event.hands.is_empty());
}
