//! The interval loop of the worker, as a state machine.
//!
//! The program that drives a timer owns the thread, the clock and the
//! callback. It performs one [`Action`] at a time and reports what came of
//! it as an [`Event`]; [`Worker::step`] answers with the next action. The
//! first action of a new worker is always [`Action::ReadFlag`].

use crate::schedule::cycle_len;
use crate::schedule::remaining_sleep;
use vstd::prelude::*;

verus! {

/// Where the worker stands in its loop.
#[derive(Clone, Copy, Debug, PartialEq, Eq, Structural)]
pub enum Stage {
    /// At the top of the loop, about to read the running flag.
    Ready,
    /// Inside the callback.
    Calling,
    /// Asleep for the rest of the period.
    Sleeping,
    /// Out of the loop for good.
    Finished,
}

/// What the driver reports back to the worker.
#[derive(Clone, Copy, Debug, PartialEq, Eq, Structural)]
pub enum Event {
    /// The running flag was read and held this value.
    Flag(bool),
    /// The callback returned after this many nanoseconds.
    Returned(u64),
    /// The sleep is over.
    Woke,
}

/// What the driver has to do next.
#[derive(Clone, Copy, Debug, PartialEq, Eq, Structural)]
pub enum Action {
    /// Read the running flag and report it.
    ReadFlag,
    /// Take the time, run the callback once and report how long it ran.
    Invoke,
    /// Sleep for this many nanoseconds and report when done.
    Sleep(u64),
    /// Leave the loop and let the thread end.
    Exit,
}

/// The loop's rule: the stage and action that follow `event` in `stage`,
/// or `None` where `event` does not answer what the worker last asked for.
///
/// * A flag read as true starts a callback; read as false it ends the loop.
/// * A callback that returned within the period is followed by a sleep for
///   the rest of it; one that did not, by the next read of the flag.
/// * After a sleep the flag is read again.
pub open spec fn react(period: u64, stage: Stage, event: Event) -> Option<(Stage, Action)> {
    match (stage, event) {
        (Stage::Ready, Event::Flag(true)) => Some((Stage::Calling, Action::Invoke)),
        (Stage::Ready, Event::Flag(false)) => Some((Stage::Finished, Action::Exit)),
        (Stage::Calling, Event::Returned(elapsed)) => if elapsed < period {
            Some((Stage::Sleeping, Action::Sleep((period - elapsed) as u64)))
        } else {
            Some((Stage::Ready, Action::ReadFlag))
        },
        (Stage::Sleeping, Event::Woke) => Some((Stage::Ready, Action::ReadFlag)),
        _ => None,
    }
}

/// The stage reached from `stage` once `events` have been reported in
/// order; an event that is not accepted changes nothing.
pub open spec fn stage_after(period: u64, stage: Stage, events: Seq<Event>) -> Stage
    decreases events.len(),
{
    if events.len() == 0 {
        stage
    } else {
        let before = stage_after(period, stage, events.drop_last());
        match react(period, before, events.last()) {
            Some((next, _)) => next,
            None => before,
        }
    }
}

/// How often the callback is invoked while `events` are reported in order,
/// starting in `stage`.
pub open spec fn invocations(period: u64, stage: Stage, events: Seq<Event>) -> nat
    decreases events.len(),
{
    if events.len() == 0 {
        0
    } else {
        let before = stage_after(period, stage, events.drop_last());
        let earlier = invocations(period, stage, events.drop_last());
        match react(period, before, events.last()) {
            Some((_, Action::Invoke)) => earlier + 1,
            _ => earlier,
        }
    }
}

/// How often `events` report the running flag as set.
pub open spec fn true_flags(events: Seq<Event>) -> nat
    decreases events.len(),
{
    if events.len() == 0 {
        0
    } else if events.last() == Event::Flag(true) {
        true_flags(events.drop_last()) + 1
    } else {
        true_flags(events.drop_last())
    }
}

/// What a [`Worker`] is: its period in nanoseconds and its stage.
pub struct WorkerView {
    pub period: u64,
    pub stage: Stage,
}

/// The state of one worker's interval loop.
#[derive(Clone, Copy, Debug)]
pub struct Worker {
    period: u64,
    stage: Stage,
}

impl View for Worker {
    type V = WorkerView;

    closed spec fn view(&self) -> WorkerView {
        WorkerView { period: self.period, stage: self.stage }
    }
}

impl Worker {
    /// A worker at the top of its loop, with the given period in
    /// nanoseconds.
    pub fn new(period: u64) -> (w: Worker)
        ensures
            w@ == (WorkerView { period, stage: Stage::Ready }),
    {
        Worker { period, stage: Stage::Ready }
    }

    /// The period in nanoseconds.
    pub fn period(&self) -> (p: u64)
        ensures
            p == self@.period,
    {
        self.period
    }

    /// The stage the worker is in.
    pub fn stage(&self) -> (s: Stage)
        ensures
            s == self@.stage,
    {
        self.stage
    }

    /// Takes in what the driver reports and says what to do next.
    ///
    /// Returns `None`, and changes nothing, exactly when `event` does not
    /// answer the action that the worker last asked for. The period never
    /// changes.
    pub fn step(&mut self, event: Event) -> (r: Option<Action>)
        ensures
            final(self)@.period == old(self)@.period,
            match react(old(self)@.period, old(self)@.stage, event) {
                Some((stage, action)) => final(self)@.stage == stage && r == Some(action),
                None => final(self)@ == old(self)@ && r is None,
            },
    {
        match (self.stage, event) {
            (Stage::Ready, Event::Flag(true)) => {
                self.stage = Stage::Calling;
                Some(Action::Invoke)
            },
            (Stage::Ready, Event::Flag(false)) => {
                self.stage = Stage::Finished;
                Some(Action::Exit)
            },
            (Stage::Calling, Event::Returned(elapsed)) => {
                match remaining_sleep(self.period, elapsed) {
                    Some(rest) => {
                        self.stage = Stage::Sleeping;
                        Some(Action::Sleep(rest))
                    },
                    None => {
                        self.stage = Stage::Ready;
                        Some(Action::ReadFlag)
                    },
                }
            },
            (Stage::Sleeping, Event::Woke) => {
                self.stage = Stage::Ready;
                Some(Action::ReadFlag)
            },
            _ => None,
        }
    }
}

/// The callback is invoked only when the flag has just been read as set,
/// and while it runs nothing but its return is accepted: invocations never
/// overlap.
pub proof fn lemma_invoke_only_on_set_flag(period: u64, stage: Stage, event: Event)
    ensures
        (react(period, stage, event) matches Some((_, Action::Invoke))) <==> (stage == Stage::Ready
            && event == Event::Flag(true)),
        (react(period, stage, event) matches Some((Stage::Calling, _))) <==> (stage == Stage::Ready
            && event == Event::Flag(true)),
        stage == Stage::Calling && react(period, stage, event) is Some ==> event is Returned,
{
}

/// The loop ends only when the flag has just been read as cleared, at the
/// top of an iteration.
pub proof fn lemma_exit_only_on_cleared_flag(period: u64, stage: Stage, event: Event)
    ensures
        (react(period, stage, event) matches Some((_, Action::Exit))) <==> (stage == Stage::Ready
            && event == Event::Flag(false)),
        (react(period, stage, event) matches Some((Stage::Finished, _))) <==> (stage
            == Stage::Ready && event == Event::Flag(false)),
{
}

/// A worker that has left its loop accepts no further event.
pub proof fn lemma_finished_accepts_nothing(period: u64, event: Event)
    ensures
        react(period, Stage::Finished, event) is None,
{
}

/// Callback and sleep together fill the period exactly; a callback that
/// overran is followed by the next read of the flag at once.
pub proof fn lemma_cycle_fills_period(period: u64, elapsed: u64)
    ensures
        match react(period, Stage::Calling, Event::Returned(elapsed)) {
            Some((Stage::Sleeping, Action::Sleep(rest))) => elapsed < period && elapsed + rest
                == period,
            Some((Stage::Ready, Action::ReadFlag)) => elapsed >= period,
            _ => false,
        },
        match react(period, Stage::Calling, Event::Returned(elapsed)) {
            Some((_, Action::Sleep(rest))) => elapsed + rest == cycle_len(
                period as nat,
                elapsed as nat,
            ),
            _ => elapsed == cycle_len(period as nat, elapsed as nat),
        },
{
}

/// Once the loop has ended, whatever is reported, the worker stays
/// finished and the callback is never invoked again.
pub proof fn lemma_no_invocation_after_exit(period: u64, events: Seq<Event>)
    ensures
        stage_after(period, Stage::Finished, events) == Stage::Finished,
        invocations(period, Stage::Finished, events) == 0,
    decreases events.len(),
{
    if events.len() > 0 {
        lemma_no_invocation_after_exit(period, events.drop_last());
    }
}

/// The callback is invoked at most once for each time the flag is read as
/// set: while every read finds it cleared, there is no invocation.
pub proof fn lemma_invocations_need_set_flags(period: u64, stage: Stage, events: Seq<Event>)
    ensures
        invocations(period, stage, events) <= true_flags(events),
    decreases events.len(),
{
    if events.len() > 0 {
        lemma_invocations_need_set_flags(period, stage, events.drop_last());
    }
}

/// How many accepted events a worker is away from the end of its loop at
/// most, once the flag is cleared: the return of the callback in flight,
/// the end of its sleep, and the read that finds the flag cleared.
pub open spec fn steps_to_exit(stage: Stage) -> nat {
    match stage {
        Stage::Calling => 3,
        Stage::Sleeping => 2,
        Stage::Ready => 1,
        Stage::Finished => 0,
    }
}

/// Once the flag is cleared, every accepted event brings the worker closer
/// to the end of its loop and none starts the callback: the worker ends
/// after the cycle in flight, within three events.
pub proof fn lemma_cleared_flag_drains_worker(period: u64, stage: Stage, event: Event)
    requires
        event != Event::Flag(true),
    ensures
        match react(period, stage, event) {
            Some((next, action)) => steps_to_exit(next) < steps_to_exit(stage) && action
                != Action::Invoke,
            None => true,
        },
        stage == Stage::Ready && event == Event::Flag(false) ==> react(period, stage, event)
            == Some((Stage::Finished, Action::Exit)),
{
}

/// A worker that has not left its loop always has an event it accepts,
/// whatever the flag: it cannot get stuck.
pub proof fn lemma_worker_never_stuck(period: u64, stage: Stage, flag: bool, elapsed: u64)
    requires
        stage != Stage::Finished,
    ensures
        react(
            period,
            stage,
            match stage {
                Stage::Ready => Event::Flag(flag),
                Stage::Calling => Event::Returned(elapsed),
                _ => Event::Woke,
            },
        ) is Some,
{
}

} // verus!
