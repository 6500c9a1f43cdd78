//! The queue of Flutter engine tasks waiting for their target time.
use vstd::prelude::*;

verus! {

broadcast use vstd::seq_lib::group_seq_properties, vstd::seq_lib::group_to_multiset_ensures;

/// A task handed over by the Flutter engine: the runner it belongs to (the
/// address of the engine's runner object) and the engine's task number.
#[derive(Debug, Clone, Copy)]
pub struct FlutterTask {
    pub runner: usize,
    pub task: u64,
}

/// Two tasks are the same task when their task numbers are equal.
impl PartialEq for FlutterTask {
    fn eq(&self, other: &Self) -> (r: bool) {
        self.task == other.task
    }
}

impl vstd::std_specs::cmp::PartialEqSpecImpl for FlutterTask {
    open spec fn obeys_eq_spec() -> bool {
        true
    }

    open spec fn eq_spec(&self, other: &Self) -> bool {
        self.task == other.task
    }
}

impl Eq for FlutterTask {}

/// A pending task together with its target time (engine clock, nanoseconds).
#[derive(Debug, Clone, Copy, PartialEq, Eq)]
pub struct Task(pub FlutterTask, pub u64);

/// `a` is run strictly before `b`: it has an earlier target time, or the same
/// target time and a larger task number.
pub open spec fn runs_before(a: Task, b: Task) -> bool {
    a.1 < b.1 || (a.1 == b.1 && a.0.task > b.0.task)
}

/// The sequence lists the tasks in the order in which they are run.
pub open spec fn is_run_order(s: Seq<Task>) -> bool {
    forall|i: int, j: int| 0 <= i < j < s.len() ==> !runs_before(#[trigger] s[j], #[trigger] s[i])
}

/// The time left until `target`, zero once it has passed.
pub open spec fn time_until(target: u64, now: u64) -> u64 {
    if target > now { (target - now) as u64 } else { 0 }
}

/// Tasks posted by the Flutter engine, kept until their target time has come.
pub struct TaskRunner {
    tasks: Vec<Task>,
}

impl View for TaskRunner {
    type V = Seq<Task>;

    /// The pending tasks, in the order in which they will run.
    closed spec fn view(&self) -> Seq<Task> {
        self.tasks@
    }
}

impl TaskRunner {
    /// The pending tasks are always kept in run order.
    #[verifier::type_invariant]
    spec fn inv(self) -> bool {
        is_run_order(self.tasks@)
    }

    pub fn new() -> (r: Self)
        ensures
            is_run_order(r@),
            r@ == Seq::<Task>::empty(),
    {
        TaskRunner { tasks: Vec::new() }
    }

    fn runs_before_exec(a: &Task, b: &Task) -> (r: bool)
        ensures
            r == runs_before(*a, *b),
    {
        a.1 < b.1 || (a.1 == b.1 && a.0.task > b.0.task)
    }

    /// Adds a task and returns the time, from `now`, after which the timer
    /// must fire for the first pending task.
    pub fn enqueue_task(&mut self, task: FlutterTask, target_time: u64, now: u64) -> (timeout: u64)
        ensures
            is_run_order(final(self)@),
            final(self)@.len() == old(self)@.len() + 1,
            final(self)@.to_multiset() == old(self)@.to_multiset().insert(Task(task, target_time)),
            exists|i: int| 0 <= i <= old(self)@.len() && final(self)@ == old(self)@.insert(i, Task(task, target_time)),
            timeout == time_until(final(self)@[0].1, now),
    {
        proof {
            use_type_invariant(&*self);
        }
        let mut tasks: Vec<Task> = Vec::new();
        std::mem::swap(&mut tasks, &mut self.tasks);
        let new_task = Task(task, target_time);
        let mut i: usize = 0;
        while i < tasks.len() && !Self::runs_before_exec(&new_task, &tasks[i])
            invariant
                0 <= i <= tasks@.len(),
                tasks@ == old(self)@,
                is_run_order(tasks@),
                forall|j: int| 0 <= j < i ==> !runs_before(new_task, #[trigger] tasks@[j]),
            decreases tasks@.len() - i,
        {
            i = i + 1;
        }
        let ghost before = tasks@;
        tasks.insert(i, new_task);
        assert(tasks@ == before.insert(i as int, new_task));
        assert(is_run_order(tasks@)) by {
            assert forall|a: int, b: int| 0 <= a < b < tasks@.len() implies !runs_before(
                #[trigger] tasks@[b],
                #[trigger] tasks@[a],
            ) by {
                if b < i {
                    assert(tasks@[a] == before[a] && tasks@[b] == before[b]);
                } else if b == i {
                    assert(tasks@[a] == before[a]);
                } else if a == i {
                    assert(tasks@[b] == before[b - 1]);
                    assert(!runs_before(before[b - 1], before[i as int]) || b - 1 == i);
                } else if a < i {
                    assert(tasks@[a] == before[a] && tasks@[b] == before[b - 1]);
                } else {
                    assert(tasks@[a] == before[a - 1] && tasks@[b] == before[b - 1]);
                }
            }
        }
        self.tasks = tasks;
        self.timer_duration(now).unwrap()
    }

    /// The time, from `now`, after which the timer must fire: `None` when
    /// nothing is pending.
    pub fn timer_duration(&self, now: u64) -> (d: Option<u64>)
        ensures
            self@.len() == 0 ==> d is None,
            self@.len() > 0 ==> d == Some(time_until(self@[0].1, now)),
    {
        if self.tasks.len() == 0 {
            None
        } else {
            Some(self.tasks[0].1.saturating_sub(now))
        }
    }

    /// Takes out the first pending task if its target time is not after
    /// `now`.
    pub fn pop_expired_task(&mut self, now: u64) -> (r: Option<FlutterTask>)
        ensures
            is_run_order(final(self)@),
            (old(self)@.len() > 0 && old(self)@[0].1 <= now) ==> {
                &&& r == Some(old(self)@[0].0)
                &&& final(self)@ == old(self)@.drop_first()
            },
            !(old(self)@.len() > 0 && old(self)@[0].1 <= now) ==> {
                &&& r is None
                &&& final(self)@ == old(self)@
            },
    {
        proof {
            use_type_invariant(&*self);
        }
        if self.tasks.len() > 0 && self.tasks[0].1 <= now {
            let mut tasks: Vec<Task> = Vec::new();
            std::mem::swap(&mut tasks, &mut self.tasks);
            let task = tasks.remove(0);
            assert(is_run_order(tasks@)) by {
                assert forall|a: int, b: int| 0 <= a < b < tasks@.len() implies !runs_before(
                    #[trigger] tasks@[b],
                    #[trigger] tasks@[a],
                ) by {
                    assert(tasks@[a] == old(self)@[a + 1]);
                    assert(tasks@[b] == old(self)@[b + 1]);
                }
            }
            self.tasks = tasks;
            Some(task.0)
        } else {
            None
        }
    }

    /// Takes out, in the order in which they must run, the tasks that are
    /// due: the clock is read before each task, and the first task whose
    /// target time is after that reading stays, with all after it.
    pub fn execute_expired_tasks<S: TimeSource>(
        &mut self,
        clock: &mut EngineClock<S>,
    ) -> (expired: Vec<FlutterTask>)
        ensures
            is_run_order(final(self)@),
            expired@.len() <= old(self)@.len(),
            forall|i: int| 0 <= i < expired@.len() ==> #[trigger] expired@[i] == old(self)@[i].0,
            final(self)@ == old(self)@.skip(expired@.len() as int),
            final(clock).readings().len() >= old(clock).readings().len(),
            final(clock).readings().take(old(clock).readings().len() as int) == old(clock).readings(),
            readings_explain(
                old(self)@,
                expired@.len(),
                final(clock).readings().skip(old(clock).readings().len() as int),
            ),
    {
        proof {
            use_type_invariant(&*self);
        }
        let ghost all = self@;
        let ghost start = clock.readings();
        let ghost mut readings: Seq<u64> = Seq::empty();
        let mut expired: Vec<FlutterTask> = Vec::new();
        loop
            invariant_except_break
                readings.len() == expired@.len(),
                forall|i: int| 0 <= i < expired@.len() ==> all[i].1 <= #[trigger] readings[i],
            invariant
                is_run_order(self@),
                expired@.len() <= all.len(),
                self@ == all.skip(expired@.len() as int),
                forall|i: int| 0 <= i < expired@.len() ==> #[trigger] expired@[i] == all[i].0,
                clock.readings() == start + readings,
            ensures
                clock.readings() == start + readings,
                is_run_order(self@),
                expired@.len() <= all.len(),
                self@ == all.skip(expired@.len() as int),
                forall|i: int| 0 <= i < expired@.len() ==> #[trigger] expired@[i] == all[i].0,
                readings_explain(all, expired@.len(), readings),
            decreases all.len() - expired@.len(),
        {
            if self.tasks.len() == 0 {
                assert(expired@.len() == all.len());
                break;
            }
            let now = clock.current_time();
            let ghost k = expired@.len() as int;
            proof {
                readings = readings.push(now);
            }
            match self.pop_expired_task(now) {
                Some(task) => {
                    assert(all.skip(k).drop_first() =~= all.skip(k + 1));
                    expired.push(task);
                },
                None => {
                    break;
                },
            }
        }
        assert(clock.readings().take(start.len() as int) =~= start);
        assert(clock.readings().skip(start.len() as int) =~= readings);
        expired
    }
}

/// Where the engine's time (nanoseconds) comes from.
pub trait TimeSource {
    fn current_time(&mut self) -> u64;
}

/// The engine's clock, with a record of what it has read.
pub struct EngineClock<S: TimeSource> {
    source: S,
    readings: Ghost<Seq<u64>>,
}

impl<S: TimeSource> EngineClock<S> {
    /// The times read so far, oldest first.
    pub closed spec fn readings(&self) -> Seq<u64> {
        self.readings@
    }

    /// A clock over `source` that has read nothing yet.
    pub fn new(source: S) -> (r: Self)
        ensures
            r.readings() == Seq::<u64>::empty(),
    {
        EngineClock { source, readings: Ghost(Seq::empty()) }
    }

    /// Reads the time, and records the reading.
    pub fn current_time(&mut self) -> (t: u64)
        ensures
            final(self).readings() == old(self).readings().push(t),
    {
        let t = self.source.current_time();
        proof {
            self.readings@ = self.readings@.push(t);
        }
        t
    }
}

/// Clock readings under which exactly the first `taken` tasks of `pending`
/// were due: one reading per task taken, each not before its task's target
/// time, and, when a task is left, one more reading before the first task
/// left.
pub open spec fn readings_explain(pending: Seq<Task>, taken: nat, readings: Seq<u64>) -> bool {
    &&& taken <= pending.len()
    &&& readings.len() == (if taken < pending.len() { taken + 1 } else { taken })
    &&& forall|i: int| 0 <= i < taken ==> pending[i].1 <= #[trigger] readings[i]
    &&& taken < pending.len() ==> pending[taken as int].1 > readings[taken as int]
}

/// Under a clock that reads `now` throughout, the tasks taken out are
/// exactly those due at `now`: every task taken is not after `now`, and
/// every task left is after it.
pub proof fn lemma_steady_clock_takes_exactly_due_tasks(
    pending: Seq<Task>,
    taken: nat,
    readings: Seq<u64>,
    now: u64,
)
    requires
        is_run_order(pending),
        readings_explain(pending, taken, readings),
        forall|i: int| 0 <= i < readings.len() ==> #[trigger] readings[i] == now,
    ensures
        forall|i: int| 0 <= i < taken ==> #[trigger] pending[i].1 <= now,
        forall|i: int| taken <= i < pending.len() ==> #[trigger] pending[i].1 > now,
{
    assert forall|i: int| 0 <= i < taken implies #[trigger] pending[i].1 <= now by {
        assert(readings[i] == now);
    }
    assert forall|i: int| taken <= i < pending.len() implies #[trigger] pending[i].1 > now by {
        assert(readings[taken as int] == now);
        if i > taken {
            assert(!runs_before(pending[i], pending[taken as int]));
        }
    }
}

/// The timer waits exactly until the target time: from `now` on, the time
/// left brings the clock to the target, and to no later time (none is left
/// once the target has passed), whatever the distance.
pub proof fn lemma_timer_reaches_target_exactly(target: u64, now: u64)
    ensures
        target >= now ==> now + time_until(target, now) == target,
        target <= now ==> time_until(target, now) == 0,
{
}

/// Tasks run in order of target time: in a queue in run order, no task
/// comes after one with a later target time, and among tasks with the same
/// target time the larger task number comes first.
pub proof fn lemma_run_order_is_by_target_time(s: Seq<Task>, i: int, j: int)
    requires
        is_run_order(s),
        0 <= i < j < s.len(),
    ensures
        s[i].1 <= s[j].1,
        s[i].1 == s[j].1 ==> s[i].0.task >= s[j].0.task,
{
    assert(!runs_before(s[j], s[i]));
}

/// Taking the expired tasks out loses and duplicates nothing: the tasks
/// taken out and the tasks left are, together, the tasks that were pending.
pub proof fn lemma_expired_and_pending_are_all_tasks(pending: Seq<Task>, taken: nat)
    requires
        taken <= pending.len(),
    ensures
        pending.take(taken as int).to_multiset().add(pending.skip(taken as int).to_multiset())
            == pending.to_multiset(),
{
    vstd::seq_lib::lemma_multiset_commutative(pending.take(taken as int), pending.skip(taken as int));
    assert(pending.take(taken as int) + pending.skip(taken as int) =~= pending);
}

/// A task whose target time has come is among those taken out: when the
/// queue splits into tasks not after `now` and tasks after it, every pending
/// task not after `now` is in the first part.
pub proof fn lemma_due_task_is_taken(pending: Seq<Task>, now: u64, taken: int, t: Task)
    requires
        0 <= taken <= pending.len(),
        forall|i: int| 0 <= i < taken ==> #[trigger] pending[i].1 <= now,
        forall|i: int| taken <= i < pending.len() ==> #[trigger] pending[i].1 > now,
        pending.contains(t),
        t.1 <= now,
    ensures
        pending.take(taken).contains(t),
{
    let i = choose|i: int| 0 <= i < pending.len() && pending[i] == t;
    assert(i < taken);
    assert(pending.take(taken)[i] == t);
}

} // verus!
