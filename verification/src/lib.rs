//! Verified core of a one-shot sleep timer.
//!
//! The library covers the logic of the timer: resolving a user's raw input
//! into an absolute target time of day, the countdown state machine that is
//! driven by a periodic tick, and the ordered pipeline of platform actions
//! that runs exactly once when the timer fires. The host process owns the
//! clock, the user interface and the operating-system calls; it hands the
//! library plain values and performs the actions the library decides on.

pub mod autostart;
pub mod clock;
pub mod display;
pub mod engine;
pub mod pipeline;
pub mod resolver;
pub mod simple;
pub mod text;

use vstd::prelude::*;

verus! {

} // verus!
