//! Timing core for a bare-metal AArch64 board: a free-running hardware
//! counter, exact conversions between its ticks and wall-clock durations,
//! and the decisions of a busy-wait on that counter.

pub mod duration;
mod registers;
pub mod timer;
