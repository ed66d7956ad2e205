//! Parking for idle worker threads.
//!
//! A worker that finds nothing to do calls [`Sleepers::wait`]; whoever makes
//! work available calls [`Sleepers::notify_one`]. A notification that arrives
//! while nobody sleeps is remembered, once, for the next thread that tries to
//! sleep, so that the gap between "no work found" and "asleep" loses nothing.
//!
//! The decisions of the two operations are the pure step functions of
//! [`protocol`]; [`model`] follows whole runs of them and states what holds of
//! every run; [`sleepers`] carries the steps out on a lock, a condition
//! variable and an atomic flag.

pub mod model;
pub mod protocol;
pub mod sleepers;
pub mod sync;

pub use protocol::{NotifyAction, Park, ParkState, WaitAction};
pub use sleepers::Sleepers;
