//! Verified decision core of a periodic timer.
//!
//! A periodic timer invokes a callback on a background worker at a fixed
//! interval. Threads, clocks and sleeping belong to the program that drives
//! the timer; every decision that program takes is made here:
//!
//! * [`schedule`]: how long to sleep after a callback so that invocation
//!   starts stay one period apart, and what that means for the timeline;
//! * [`worker`]: the interval loop as a state machine that is told what
//!   happened and answers with what to do next;
//! * [`timer`]: the owner's side: start, stop and the single worker a timer
//!   may have;
//! * [`system`]: both sides together, and what holds however their steps
//!   interleave.
//!
//! All times are whole nanoseconds.

pub mod schedule;
pub mod system;
pub mod timer;
pub mod worker;
