//! Decoding of environmental beacon advertisements and routing of the readings.
//!
//! - `measurement`: the format-5 payload decoder, with sentinel fields as `None`.
//! - `ruuvitag`: readings of a device, parsed through the protocol crate.
//! - `controller`: the per-event decision of each run mode, and the fan-out of
//!   forwarded readings to independent sink queues.
use vstd::prelude::*;

pub mod controller;
pub mod measurement;
pub mod ruuvitag;

verus! {

} // verus!
