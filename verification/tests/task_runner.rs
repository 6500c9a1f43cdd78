use std::cell::Cell;
use std::rc::Rc;

use wayvern::task_runner::{EngineClock, FlutterTask, TaskRunner, TimeSource};

/// A time source that always reads the same time.
struct Fixed(u64);

impl TimeSource for Fixed {
    fn current_time(&mut self) -> u64 {
        self.0
    }
}

/// A time source that advances by `step` after each reading, counting them.
struct Ticking {
    now: u64,
    step: u64,
    reads: Rc<Cell<usize>>,
}

impl TimeSource for Ticking {
    fn current_time(&mut self) -> u64 {
        let now = self.now;
        self.now += self.step;
        self.reads.set(self.reads.get() + 1);
        now
    }
}

fn fixed(now: u64) -> EngineClock<Fixed> {
    EngineClock::new(Fixed(now))
}

fn task(id: u64) -> FlutterTask {
    FlutterTask { runner: 0x1000, task: id }
}

#[test]
fn enqueue_returns_time_until_first_task() {
    let mut runner = TaskRunner::new();
    assert_eq!(runner.timer_duration(100), None);
    assert_eq!(runner.enqueue_task(task(1), 500, 100), 400);
    // An earlier task moves the timer forward.
    assert_eq!(runner.enqueue_task(task(2), 300, 100), 200);
    // A later one does not.
    assert_eq!(runner.enqueue_task(task(3), 900, 100), 200);
    assert_eq!(runner.timer_duration(100), Some(200));
}

#[test]
fn timer_duration_is_zero_once_target_passed() {
    let mut runner = TaskRunner::new();
    assert_eq!(runner.enqueue_task(task(7), 50, 80), 0);
    assert_eq!(runner.timer_duration(80), Some(0));
    assert_eq!(runner.timer_duration(50), Some(0));
    assert_eq!(runner.timer_duration(49), Some(1));
}

#[test]
fn expired_tasks_come_out_by_target_time() {
    let mut runner = TaskRunner::new();
    runner.enqueue_task(task(1), 300, 0);
    runner.enqueue_task(task(2), 100, 0);
    runner.enqueue_task(task(3), 200, 0);
    runner.enqueue_task(task(4), 400, 0);
    let expired = runner.execute_expired_tasks(&mut fixed(250));
    assert_eq!(expired, vec![task(2), task(3)]);
    assert_eq!(runner.timer_duration(250), Some(50));
    let expired = runner.execute_expired_tasks(&mut fixed(1000));
    assert_eq!(expired, vec![task(1), task(4)]);
    assert_eq!(runner.timer_duration(1000), None);
}

#[test]
fn ties_run_larger_task_number_first() {
    let mut runner = TaskRunner::new();
    runner.enqueue_task(task(5), 100, 0);
    runner.enqueue_task(task(9), 100, 0);
    runner.enqueue_task(task(7), 100, 0);
    assert_eq!(runner.execute_expired_tasks(&mut fixed(100)), vec![task(9), task(7), task(5)]);
}

#[test]
fn task_due_exactly_now_runs() {
    let mut runner = TaskRunner::new();
    runner.enqueue_task(task(1), 100, 0);
    assert_eq!(runner.execute_expired_tasks(&mut fixed(99)), vec![]);
    assert_eq!(runner.execute_expired_tasks(&mut fixed(100)), vec![task(1)]);
}

#[test]
fn no_task_lost_or_duplicated() {
    let mut runner = TaskRunner::new();
    let targets = [30u64, 10, 20, 10, 40, 0, 25];
    for (i, t) in targets.iter().enumerate() {
        runner.enqueue_task(task(i as u64), *t, 0);
    }
    let mut seen = runner.execute_expired_tasks(&mut fixed(20));
    assert_eq!(seen.len(), 4);
    seen.extend(runner.execute_expired_tasks(&mut fixed(u64::MAX)));
    let mut ids: Vec<u64> = seen.iter().map(|t| t.task).collect();
    ids.sort();
    assert_eq!(ids, vec![0, 1, 2, 3, 4, 5, 6]);
}

#[test]
fn runner_address_is_kept() {
    let mut runner = TaskRunner::new();
    runner.enqueue_task(FlutterTask { runner: 42, task: 3 }, 1, 0);
    let expired = runner.execute_expired_tasks(&mut fixed(1));
    assert_eq!(expired.len(), 1);
    assert_eq!(expired[0].runner, 42);
    assert_eq!(expired[0].task, 3);
}

#[test]
fn tasks_are_equal_by_task_number() {
    assert_eq!(FlutterTask { runner: 1, task: 3 }, FlutterTask { runner: 2, task: 3 });
    assert_ne!(FlutterTask { runner: 1, task: 3 }, FlutterTask { runner: 1, task: 4 });
}

#[test]
fn clock_is_read_before_each_task() {
    let mut runner = TaskRunner::new();
    runner.enqueue_task(task(1), 100, 0);
    runner.enqueue_task(task(2), 105, 0);
    runner.enqueue_task(task(3), 110, 0);
    runner.enqueue_task(task(4), 200, 0);
    // Readings 100, 105, 110, 115: the second task comes due while the
    // first is taken out, the third while the second is.
    let reads = Rc::new(Cell::new(0));
    let mut clock = EngineClock::new(Ticking { now: 100, step: 5, reads: reads.clone() });
    assert_eq!(runner.execute_expired_tasks(&mut clock), vec![task(1), task(2), task(3)]);
    assert_eq!(reads.get(), 4);
    assert_eq!(clock.current_time(), 120);
    assert_eq!(runner.timer_duration(115), Some(85));
}

#[test]
fn empty_queue_reads_no_clock() {
    let mut runner = TaskRunner::new();
    let reads = Rc::new(Cell::new(0));
    let mut clock = EngineClock::new(Ticking { now: 0, step: 1, reads: reads.clone() });
    assert_eq!(runner.execute_expired_tasks(&mut clock), vec![]);
    assert_eq!(reads.get(), 0);
}

#[test]
fn pop_takes_only_a_due_first_task() {
    let mut runner = TaskRunner::new();
    runner.enqueue_task(task(1), 100, 0);
    runner.enqueue_task(task(2), 50, 0);
    assert_eq!(runner.pop_expired_task(49), None);
    assert_eq!(runner.pop_expired_task(50), Some(task(2)));
    assert_eq!(runner.pop_expired_task(99), None);
    assert_eq!(runner.pop_expired_task(100), Some(task(1)));
    assert_eq!(runner.pop_expired_task(1000), None);
}
