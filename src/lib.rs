//! A terminal productivity timer: a stopwatch, a countdown timer and a
//! Pomodoro work/break cycler. Time is measured in milliseconds on a
//! monotonic clock that the caller reads and hands in as `now`.
use vstd::prelude::*;

pub mod alert;
pub mod command;
pub mod pomodoro;
pub mod progress;
pub mod stopwatch;
pub mod text;
pub mod timer;

verus! {

} // verus!
