//! A verified core for a hand-tracking sensor controller.
//!
//! The library decodes raw tracking frames delivered by a native sensor
//! interface into owned hand/finger/bone geometry, deduplicates frames by
//! their id, and manages the connection lifecycle of a background polling
//! loop. The blocking native calls and the thread itself live outside the
//! library; every decision they depend on is made here, under contract.

pub mod channel;
pub mod leap_controller;
pub mod polling;
pub mod tracking_event;
