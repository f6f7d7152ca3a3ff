//! Owner and workers together: what can happen, in any order, to a timer
//! and the threads started for it.
//!
//! The owner's requests change the timer as [`TimerView`] says; a thread
//! moves as [`react`] says, reads the running flag as the timer holds it at
//! that moment, and can be joined only once it has left its loop. Nothing
//! here is executable: the model states what the two state machines
//! guarantee when they run side by side.

use crate::timer::Phase;
use crate::timer::TimerView;
use crate::worker::lemma_cleared_flag_drains_worker;
use crate::worker::react;
use crate::worker::steps_to_exit;
use crate::worker::Action;
use crate::worker::Event;
use crate::worker::Stage;
use vstd::prelude::*;

verus! {

/// A timer and the stage of every thread that was started for it and has
/// not been joined.
pub struct System {
    pub timer: TimerView,
    pub threads: Seq<Stage>,
}

/// One thing that happens to a [`System`].
pub enum Turn {
    /// The owner asks to start; a thread is created if the timer accepts.
    Start,
    /// The owner asks to stop.
    Stop,
    /// The owner's join of the oldest thread returns.
    Join,
    /// The thread with this index reports this event.
    Work(int, Event),
}

impl System {
    /// A newly constructed timer: idle, and no thread.
    pub open spec fn fresh(period: u64) -> System {
        System { timer: TimerView::fresh(period), threads: Seq::empty() }
    }

    /// Whether thread `i` may report `event`: it exists, the event answers
    /// what it asked for, and a flag is reported as the timer holds it.
    pub open spec fn accepts(self, i: int, event: Event) -> bool {
        &&& 0 <= i < self.threads.len()
        &&& react(self.timer.period, self.threads[i], event) is Some
        &&& event is Flag ==> event == Event::Flag(self.timer.running())
    }

    /// Whether `turn` can happen now. A join returns only for a timer that
    /// was asked to stop, and only once the thread has left its loop.
    pub open spec fn allows(self, turn: Turn) -> bool {
        match turn {
            Turn::Start => true,
            Turn::Stop => true,
            Turn::Join => self.timer.phase == Phase::Draining && self.threads.len() > 0
                && self.threads[0] == Stage::Finished,
            Turn::Work(i, event) => self.accepts(i, event),
        }
    }

    /// The system after `turn`.
    pub open spec fn after(self, turn: Turn) -> System
        recommends
            self.allows(turn),
    {
        match turn {
            Turn::Start => System {
                timer: self.timer.started(),
                threads: if self.timer.started() != self.timer {
                    self.threads.push(Stage::Ready)
                } else {
                    self.threads
                },
            },
            Turn::Stop => System { timer: self.timer.stopped(), threads: self.threads },
            Turn::Join => System { timer: self.timer.joined(), threads: self.threads.drop_first() },
            Turn::Work(i, event) => System {
                timer: self.timer,
                threads: self.threads.update(
                    i,
                    react(self.timer.period, self.threads[i], event).unwrap().0,
                ),
            },
        }
    }

    /// Whether `turn` starts the callback.
    pub open spec fn invokes(self, turn: Turn) -> bool {
        match turn {
            Turn::Work(i, event) => self.accepts(i, event) && react(
                self.timer.period,
                self.threads[i],
                event,
            ).unwrap().1 == Action::Invoke,
            _ => false,
        }
    }

    /// The system after `turns`, one after the other; a turn that cannot
    /// happen is passed over.
    pub open spec fn after_all(self, turns: Seq<Turn>) -> System
        decreases turns.len(),
    {
        if turns.len() == 0 {
            self
        } else {
            let before = self.after_all(turns.drop_last());
            if before.allows(turns.last()) {
                before.after(turns.last())
            } else {
                before
            }
        }
    }

    /// What holds of every system that a fresh one can become:
    /// there is a thread exactly while the timer has a worker, never a
    /// second one, and the thread of a running timer is in its loop.
    pub open spec fn sound(self) -> bool {
        &&& self.threads.len() == if self.timer.has_worker() { 1nat } else { 0nat }
        &&& self.timer.running() ==> self.threads[0] != Stage::Finished
    }
}

/// A fresh system is sound, and every turn keeps a sound system sound.
pub proof fn lemma_turn_keeps_sound(period: u64, sys: System, turn: Turn)
    requires
        sys.sound(),
        sys.allows(turn),
    ensures
        System::fresh(period).sound(),
        sys.after(turn).sound(),
        sys.after(turn).timer.period == sys.timer.period,
{
}

/// Whatever the owner and the threads do, in whatever order, a timer never
/// has two threads, has one exactly while it has a worker, and while it
/// runs that thread is in its loop.
pub proof fn lemma_always_sound(period: u64, turns: Seq<Turn>)
    ensures
        System::fresh(period).after_all(turns).sound(),
        System::fresh(period).after_all(turns).threads.len() <= 1,
        System::fresh(period).after_all(turns).timer.period == period,
    decreases turns.len(),
{
    if turns.len() > 0 {
        lemma_always_sound(period, turns.drop_last());
        let before = System::fresh(period).after_all(turns.drop_last());
        if before.allows(turns.last()) {
            lemma_turn_keeps_sound(period, before, turns.last());
        }
    }
}

/// The callback starts only while the timer is running: never before a
/// start, and never between a stop and the next start.
pub proof fn lemma_invocation_needs_running(sys: System, turn: Turn)
    requires
        sys.invokes(turn),
    ensures
        sys.timer.running(),
        turn matches Turn::Work(i, _) && sys.threads[i] == Stage::Ready,
{
}

/// When the join after a stop has returned, the timer is idle and no
/// thread is left: nothing can run the callback until the next start.
pub proof fn lemma_join_leaves_nothing_running(sys: System, turn: Turn)
    requires
        sys.sound(),
        sys.allows(Turn::Join),
    ensures
        sys.after(Turn::Join).timer.phase == Phase::Idle,
        sys.after(Turn::Join).threads.len() == 0,
        !sys.after(Turn::Join).invokes(turn),
        turn is Work ==> !sys.after(Turn::Join).allows(turn),
{
}

/// A start while a worker exists creates no thread.
pub proof fn lemma_refused_start_creates_no_thread(sys: System)
    requires
        sys.timer.has_worker(),
    ensures
        sys.after(Turn::Start) == sys,
{
}

/// While the timer is not running, every step of a thread brings it closer
/// to the end of its loop and none starts the callback: a stop is followed
/// by at most the rest of the cycle in flight.
pub proof fn lemma_stopped_timer_drains(sys: System, i: int, event: Event)
    requires
        !sys.timer.running(),
        sys.accepts(i, event),
    ensures
        steps_to_exit(sys.after(Turn::Work(i, event)).threads[i]) < steps_to_exit(sys.threads[i]),
        !sys.invokes(Turn::Work(i, event)),
{
    lemma_cleared_flag_drains_worker(sys.timer.period, sys.threads[i], event);
}

} // verus!
