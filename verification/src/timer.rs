//! The owner's side of a periodic timer: its running flag and its one
//! worker.
//!
//! A [`Timer`] never touches a thread. Its owner asks it what to do, does
//! it, and reports back:
//!
//! * [`Timer::start`] either hands out the [`Worker`] to run on a new
//!   thread, or refuses because a worker is still there;
//! * [`Timer::spawn_failed`] takes a start back when no thread could be
//!   created;
//! * [`Timer::stop`] clears the running flag and says whether a worker is
//!   left to be joined;
//! * [`Timer::joined`] records that the worker is gone, and how it ended.

use crate::worker::Stage;
use crate::worker::Worker;
use crate::worker::WorkerView;
use vstd::prelude::*;

verus! {

/// What a timer is doing.
#[derive(Clone, Copy, Debug, PartialEq, Eq, Structural)]
pub enum Phase {
    /// Not running, and no worker exists.
    Idle,
    /// Running: the worker is in its loop.
    Running,
    /// Asked to stop: the flag is cleared, the worker is not joined yet.
    Draining,
}

/// Why a request to a timer failed.
#[derive(Clone, Copy, Debug, PartialEq, Eq, Structural)]
pub enum TimerError {
    /// `start` was called while a worker still exists.
    AlreadyRunning,
    /// No thread could be created for the worker.
    SpawnFailed,
    /// The worker ended abnormally, inside the callback.
    WorkerPanicked,
}

/// What a [`Timer`] is: its period in nanoseconds and its phase.
pub struct TimerView {
    pub period: u64,
    pub phase: Phase,
}

impl TimerView {
    /// A timer as it is constructed.
    pub open spec fn fresh(period: u64) -> TimerView {
        TimerView { period, phase: Phase::Idle }
    }

    /// The running flag.
    pub open spec fn running(self) -> bool {
        self.phase == Phase::Running
    }

    /// Whether a worker exists, running or not yet joined.
    pub open spec fn has_worker(self) -> bool {
        self.phase != Phase::Idle
    }

    /// The timer after a request to start: running if it was idle,
    /// unchanged otherwise.
    pub open spec fn started(self) -> TimerView {
        if self.phase == Phase::Idle {
            TimerView { period: self.period, phase: Phase::Running }
        } else {
            self
        }
    }

    /// The timer after a start whose thread could not be created: idle
    /// again if it was running, unchanged otherwise.
    pub open spec fn unstarted(self) -> TimerView {
        if self.phase == Phase::Running {
            TimerView { period: self.period, phase: Phase::Idle }
        } else {
            self
        }
    }

    /// The timer after a request to stop: the flag is cleared, a worker
    /// that exists is still to be joined.
    pub open spec fn stopped(self) -> TimerView {
        if self.phase == Phase::Running {
            TimerView { period: self.period, phase: Phase::Draining }
        } else {
            self
        }
    }

    /// The timer after its worker has been joined: idle if it was asked to
    /// stop before, unchanged otherwise.
    pub open spec fn joined(self) -> TimerView {
        if self.phase == Phase::Draining {
            TimerView { period: self.period, phase: Phase::Idle }
        } else {
            self
        }
    }
}

/// The owner's record of a periodic timer.
#[derive(Debug)]
pub struct Timer {
    period: u64,
    phase: Phase,
}

impl View for Timer {
    type V = TimerView;

    closed spec fn view(&self) -> TimerView {
        TimerView { period: self.period, phase: self.phase }
    }
}

impl Timer {
    /// A stopped timer with the given period in nanoseconds. A period of
    /// zero asks for back-to-back invocations.
    pub fn new(period: u64) -> (t: Timer)
        ensures
            t@ == TimerView::fresh(period),
    {
        Timer { period, phase: Phase::Idle }
    }

    /// The period in nanoseconds, as given at construction.
    pub fn period(&self) -> (p: u64)
        ensures
            p == self@.period,
    {
        self.period
    }

    /// The phase the timer is in.
    pub fn phase(&self) -> (p: Phase)
        ensures
            p == self@.phase,
    {
        self.phase
    }

    /// Whether the timer is running: true from a successful `start` until
    /// the next `stop`.
    pub fn has_started(&self) -> (r: bool)
        ensures
            r == self@.running(),
    {
        self.phase == Phase::Running
    }

    /// Whether a worker exists that has not been joined.
    pub fn has_worker(&self) -> (r: bool)
        ensures
            r == self@.has_worker(),
    {
        self.phase != Phase::Idle
    }

    /// Starts the timer.
    ///
    /// On an idle timer this sets the running flag and returns the worker
    /// that the owner has to run on a new thread: at the top of its loop,
    /// with the timer's period. While a worker exists the request is
    /// refused with [`TimerError::AlreadyRunning`] and nothing changes, so
    /// a timer never has two workers.
    pub fn start(&mut self) -> (r: Result<Worker, TimerError>)
        ensures
            final(self)@ == old(self)@.started(),
            match r {
                Ok(w) => !old(self)@.has_worker() && w@ == (WorkerView {
                    period: old(self)@.period,
                    stage: Stage::Ready,
                }),
                Err(e) => old(self)@.has_worker() && e == TimerError::AlreadyRunning,
            },
    {
        match self.phase {
            Phase::Idle => {
                self.phase = Phase::Running;
                Ok(Worker::new(self.period))
            },
            _ => Err(TimerError::AlreadyRunning),
        }
    }

    /// Takes back a `start` for which no thread could be created: a running
    /// timer is idle again. Returns the error to report,
    /// [`TimerError::SpawnFailed`].
    pub fn spawn_failed(&mut self) -> (e: TimerError)
        ensures
            final(self)@ == old(self)@.unstarted(),
            e == TimerError::SpawnFailed,
    {
        if self.phase == Phase::Running {
            self.phase = Phase::Idle;
        }
        TimerError::SpawnFailed
    }

    /// Stops the timer: clears the running flag. Returns whether a worker
    /// exists, which the owner then has to join and report with `joined`.
    pub fn stop(&mut self) -> (join: bool)
        ensures
            final(self)@ == old(self)@.stopped(),
            join == old(self)@.has_worker(),
    {
        match self.phase {
            Phase::Idle => false,
            Phase::Running => {
                self.phase = Phase::Draining;
                true
            },
            Phase::Draining => true,
        }
    }

    /// Records that the worker of a timer that was asked to stop has been
    /// joined: the timer is idle and can be started again. A worker that
    /// ended abnormally is reported as [`TimerError::WorkerPanicked`].
    ///
    /// A timer that was not asked to stop has no worker to join yet:
    /// nothing changes and nothing is reported.
    pub fn joined(&mut self, panicked: bool) -> (r: Result<(), TimerError>)
        ensures
            final(self)@ == old(self)@.joined(),
            r == if panicked && old(self)@.phase == Phase::Draining {
                Err::<(), TimerError>(TimerError::WorkerPanicked)
            } else {
                Ok::<(), TimerError>(())
            },
    {
        match self.phase {
            Phase::Draining => {
                self.phase = Phase::Idle;
                if panicked {
                    Err(TimerError::WorkerPanicked)
                } else {
                    Ok(())
                }
            },
            _ => Ok(()),
        }
    }
}

/// A timer that is running has a worker, and it has never more than the
/// one its phase stands for.
pub proof fn lemma_running_has_worker(t: TimerView)
    ensures
        t.running() ==> t.has_worker(),
        t.started().running() ==> t.started().has_worker(),
        t.stopped().has_worker() == t.has_worker(),
{
}

/// The running flag over a timer's life: cleared at construction, set by a
/// start on an idle timer, and cleared again by `stop`. Neither a start,
/// accepted or refused, nor a join clears it: only `stop` does, and a start
/// that is taken back.
pub proof fn lemma_running_flag(period: u64, t: TimerView)
    ensures
        !TimerView::fresh(period).running(),
        TimerView::fresh(period).started().running(),
        !t.has_worker() ==> t.started().running(),
        t.running() ==> t.started().running(),
        t.running() ==> t.joined().running(),
        !t.stopped().running(),
        !t.unstarted().running(),
{
}

/// No request but a start on an idle timer sets the running flag.
pub proof fn lemma_only_start_sets_running(t: TimerView)
    requires
        !t.running(),
    ensures
        !t.stopped().running(),
        !t.joined().running(),
        !t.unstarted().running(),
        t.started().running() <==> !t.has_worker(),
{
}

/// A start while a worker exists changes nothing.
pub proof fn lemma_second_start_changes_nothing(t: TimerView)
    requires
        t.has_worker(),
    ensures
        t.started() == t,
        t.started().started() == t.started(),
{
}

/// Stopping and joining leaves no worker behind, from whatever state, and
/// the timer can then be started again with the same period.
pub proof fn lemma_stop_and_join_leave_no_worker(t: TimerView)
    ensures
        !t.stopped().joined().running(),
        !t.stopped().joined().has_worker(),
        t.stopped().joined() == TimerView::fresh(t.period),
        t.stopped().joined().started().running(),
{
}

/// The period is fixed at construction: no request changes it.
pub proof fn lemma_period_is_fixed(t: TimerView)
    ensures
        t.started().period == t.period,
        t.unstarted().period == t.period,
        t.stopped().period == t.period,
        t.joined().period == t.period,
{
}

/// A start that is taken back because no thread could be created leaves
/// the timer as it was before the start.
pub proof fn lemma_failed_start_changes_nothing(t: TimerView)
    requires
        !t.has_worker(),
    ensures
        t.started().unstarted() == t,
{
}

} // verus!
