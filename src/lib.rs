//! Sensing and actuation of garage doors: the door registry, ultrasonic
//! ranging and its classification, the button-press protocol, command
//! dispatch and status reports. The caller drives the pins, clocks and
//! transports; this crate decides what to do with what they report.

use vstd::prelude::*;

pub mod door;
pub mod registry;
pub mod ranging;
pub mod actuator;
pub mod dispatch;
pub mod status;

verus! {

} // verus!
