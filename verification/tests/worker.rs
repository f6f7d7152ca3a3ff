use periodic_timer::timer::Timer;
use periodic_timer::worker::Action;
use periodic_timer::worker::Event;
use periodic_timer::worker::Stage;
use periodic_timer::worker::Worker;

/// Runs a worker on a clock that only the run itself advances. The flag is
/// set until the clock reaches `stop_at`; callback `i` runs for
/// `elapsed[i % elapsed.len()]`. Returns the time at which each invocation
/// started and the time at which the worker left its loop.
fn run(period: u64, stop_at: u64, elapsed: &[u64]) -> (Vec<u64>, u64) {
    let mut worker: Worker = Worker::new(period);
    let mut clock: u64 = 0;
    let mut starts: Vec<u64> = Vec::new();
    let mut action: Action = Action::ReadFlag;
    loop {
        let event: Event = match action {
            Action::ReadFlag => Event::Flag(clock < stop_at),
            Action::Invoke => {
                let took: u64 = elapsed[starts.len() % elapsed.len()];
                starts.push(clock);
                clock += took;
                Event::Returned(took)
            }
            Action::Sleep(rest) => {
                clock += rest;
                Event::Woke
            }
            Action::Exit => return (starts, clock),
        };
        action = worker.step(event).expect("the event answers the action");
    }
}

#[test]
fn new_worker_is_ready() {
    let worker = Worker::new(100);
    assert_eq!(worker.period(), 100);
    assert_eq!(worker.stage(), Stage::Ready);
}

#[test]
fn set_flag_starts_the_callback() {
    let mut worker = Worker::new(100);
    assert_eq!(worker.step(Event::Flag(true)), Some(Action::Invoke));
    assert_eq!(worker.stage(), Stage::Calling);
}

#[test]
fn cleared_flag_ends_the_loop() {
    let mut worker = Worker::new(100);
    assert_eq!(worker.step(Event::Flag(false)), Some(Action::Exit));
    assert_eq!(worker.stage(), Stage::Finished);
}

#[test]
fn quick_callback_is_followed_by_the_rest_of_the_period() {
    let mut worker = Worker::new(100_000_000);
    assert_eq!(worker.step(Event::Flag(true)), Some(Action::Invoke));
    assert_eq!(worker.step(Event::Returned(30_000_000)), Some(Action::Sleep(70_000_000)));
    assert_eq!(worker.stage(), Stage::Sleeping);
    assert_eq!(worker.step(Event::Woke), Some(Action::ReadFlag));
    assert_eq!(worker.stage(), Stage::Ready);
    assert_eq!(worker.period(), 100_000_000);
}

#[test]
fn slow_callback_is_followed_by_no_sleep() {
    let mut worker = Worker::new(100);
    assert_eq!(worker.step(Event::Flag(true)), Some(Action::Invoke));
    assert_eq!(worker.step(Event::Returned(100)), Some(Action::ReadFlag));
    assert_eq!(worker.stage(), Stage::Ready);
    assert_eq!(worker.step(Event::Flag(true)), Some(Action::Invoke));
    assert_eq!(worker.step(Event::Returned(350)), Some(Action::ReadFlag));
    assert_eq!(worker.stage(), Stage::Ready);
}

#[test]
fn event_that_answers_nothing_is_refused() {
    let mut ready = Worker::new(100);
    assert_eq!(ready.step(Event::Woke), None);
    assert_eq!(ready.step(Event::Returned(5)), None);
    assert_eq!(ready.stage(), Stage::Ready);

    let mut calling = Worker::new(100);
    assert!(calling.step(Event::Flag(true)).is_some());
    assert_eq!(calling.step(Event::Flag(true)), None);
    assert_eq!(calling.step(Event::Flag(false)), None);
    assert_eq!(calling.step(Event::Woke), None);
    assert_eq!(calling.stage(), Stage::Calling);

    let mut sleeping = calling;
    assert!(sleeping.step(Event::Returned(1)).is_some());
    assert_eq!(sleeping.step(Event::Flag(false)), None);
    assert_eq!(sleeping.step(Event::Returned(1)), None);
    assert_eq!(sleeping.stage(), Stage::Sleeping);
    assert_eq!(sleeping.period(), 100);
}

#[test]
fn finished_worker_accepts_nothing() {
    let mut worker = Worker::new(100);
    assert_eq!(worker.step(Event::Flag(false)), Some(Action::Exit));
    assert_eq!(worker.step(Event::Flag(true)), None);
    assert_eq!(worker.step(Event::Flag(false)), None);
    assert_eq!(worker.step(Event::Returned(0)), None);
    assert_eq!(worker.step(Event::Woke), None);
    assert_eq!(worker.stage(), Stage::Finished);
}

#[test]
fn tenth_of_a_second_for_a_second_and_a_bit() {
    let (starts, _) = run(100_000_000, 1_050_000_000, &[2_000_000]);
    let count: usize = starts.len();
    assert!(count >= 9 && count <= 11);
    assert_eq!(count, 11);
    assert_eq!(starts[10], 1_000_000_000);
}

#[test]
fn starts_are_a_period_apart_whatever_the_callback_takes() {
    let (starts, _) = run(1_000, 20_000, &[0, 1, 250, 999, 1_000, 500]);
    assert_eq!(starts.len(), 20);
    for i in 1..starts.len() {
        assert_eq!(starts[i] - starts[i - 1], 1_000);
    }
    assert_eq!(starts[19], 19_000);
}

#[test]
fn overrun_shifts_later_starts_once() {
    let (starts, _) = run(1_000, 5_000, &[100, 2_500, 100, 100, 100, 100, 100, 100]);
    assert_eq!(starts, vec![0, 1_000, 3_500, 4_500]);
    for i in 1..starts.len() {
        assert!(starts[i] - starts[i - 1] >= 1_000);
    }
}

#[test]
fn zero_period_runs_back_to_back() {
    let (starts, end) = run(0, 10, &[3]);
    assert_eq!(starts, vec![0, 3, 6, 9]);
    assert_eq!(end, 12);
}

#[test]
fn stop_before_the_first_read_means_no_invocation() {
    let (starts, end) = run(100, 0, &[10]);
    assert_eq!(starts.len(), 0);
    assert_eq!(end, 0);
}

#[test]
fn stop_during_the_first_cycle_means_one_invocation() {
    let (starts, end) = run(100, 1, &[10]);
    assert_eq!(starts, vec![0]);
    assert_eq!(end, 100);
}

#[test]
fn stop_waits_out_the_cycle_in_flight() {
    let (starts, end) = run(100, 250, &[10]);
    assert_eq!(starts, vec![0, 100, 200]);
    assert_eq!(end, 300);
}

#[test]
fn worker_of_a_started_timer_runs_with_its_period() {
    let mut timer = Timer::new(40);
    let mut worker = timer.start().expect("an idle timer starts");
    assert_eq!(worker.step(Event::Flag(timer.has_started())), Some(Action::Invoke));
    assert_eq!(worker.step(Event::Returned(15)), Some(Action::Sleep(25)));
    assert!(timer.stop());
    assert_eq!(worker.step(Event::Woke), Some(Action::ReadFlag));
    assert_eq!(worker.step(Event::Flag(timer.has_started())), Some(Action::Exit));
    assert_eq!(timer.joined(false), Ok(()));
    assert!(!timer.has_worker());
}
