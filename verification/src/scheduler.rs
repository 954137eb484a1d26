//! Running a queue of tasks with a ceiling on how many run at once.
//!
//! The tasks are numbered by their place in the queue and are started in
//! that order. While fewer tasks run than the limit allows and the queue is
//! not empty, the next task is started. Otherwise the scheduler waits for
//! any running task to end, hands its result on, and looks at the queue
//! again. It is done when the queue is empty and nothing runs.
//!
//! The tasks themselves are not held here. A [`Scheduler`] says whether to
//! start a task, to wait or to stop, and is told which running task ended.

use vstd::prelude::*;

verus! {

/// What the driver of the tasks does next.
#[derive(Clone, Copy, Debug, PartialEq, Eq, Structural)]
pub enum Turn {
    /// Start the task with this place in the queue; it takes the last slot.
    Start(usize),
    /// Wait until one of the running tasks ends.
    Wait,
    /// The queue is empty and nothing runs.
    Done,
}

/// One move of the driver of the tasks.
pub enum Move {
    /// The driver asks what to do next.
    Turn,
    /// The task in this slot ends.
    End(int),
}

/// The state of a scheduler as plain values.
pub struct SchedulerView {
    /// How many tasks the queue held at first.
    pub total: nat,
    /// How many tasks may run at once.
    pub limit: nat,
    /// How many tasks were started: the tasks from here on are still queued.
    pub started: nat,
    /// The tasks that run, by slot.
    pub running: Seq<nat>,
    /// The tasks whose result was handed on, in the order in which they ended.
    pub handled: Seq<nat>,
}

impl SchedulerView {
    /// What the state of a scheduler always satisfies: no more tasks run
    /// than the limit allows, and every task that was started either runs or
    /// was handled, and is counted once.
    pub open spec fn wf(self) -> bool {
        &&& self.started <= self.total
        &&& self.running.len() <= self.limit
        &&& self.handled.len() + self.running.len() == self.started
        &&& forall|i: int| 0 <= i < self.running.len() ==> #[trigger] self.running[i] < self.started
        &&& forall|i: int| 0 <= i < self.handled.len() ==> #[trigger] self.handled[i] < self.started
        &&& self.running.no_duplicates()
        &&& self.handled.no_duplicates()
        &&& forall|i: int, j: int|
            0 <= i < self.running.len() && 0 <= j < self.handled.len() ==> #[trigger] self.running[i]
                != #[trigger] self.handled[j]
        &&& forall|task: nat|
            task < self.started ==> self.running.contains(task) || self.handled.contains(task)
    }

    /// A scheduler for a queue of `total` tasks of which `limit` may run at once.
    pub open spec fn init(total: nat, limit: nat) -> SchedulerView {
        SchedulerView { total, limit, started: 0, running: Seq::empty(), handled: Seq::empty() }
    }

    /// What to do next, and the state after it was decided.
    pub open spec fn turn(self) -> (SchedulerView, Turn) {
        if self.running.len() < self.limit && self.started < self.total {
            (
                SchedulerView {
                    started: self.started + 1,
                    running: self.running.push(self.started),
                    ..self
                },
                Turn::Start(self.started as usize),
            )
        } else if self.running.len() == 0 {
            (self, Turn::Done)
        } else {
            (self, Turn::Wait)
        }
    }

    /// The state after the task in `slot` ended: its result is handed on, and
    /// the task of the last slot moves into its slot.
    pub open spec fn ended(self, slot: int) -> SchedulerView {
        SchedulerView {
            running: self.running.update(slot, self.running.last()).drop_last(),
            handled: self.handled.push(self.running[slot]),
            ..self
        }
    }

    /// Whether nothing is left to do.
    pub open spec fn is_done(self) -> bool {
        self.turn().1 is Done
    }

    /// The state after one move of the driver. The end of a task that does
    /// not run changes nothing.
    pub open spec fn moved(self, m: Move) -> SchedulerView {
        match m {
            Move::Turn => self.turn().0,
            Move::End(slot) => if 0 <= slot < self.running.len() {
                self.ended(slot)
            } else {
                self
            },
        }
    }

    /// The state after the moves `moves`, in their order.
    pub open spec fn after(self, moves: Seq<Move>) -> SchedulerView
        decreases moves.len(),
    {
        if moves.len() == 0 {
            self
        } else {
            self.after(moves.drop_last()).moved(moves.last())
        }
    }
}

/// A scheduler begins well-formed.
pub proof fn lemma_init_is_wf(total: nat, limit: nat)
    ensures
        SchedulerView::init(total, limit).wf(),
{
}

/// Deciding what to do next keeps the state well-formed; so at no time do
/// more tasks run than the limit allows.
pub proof fn lemma_turn_keeps_wf(s: SchedulerView)
    requires
        s.wf(),
    ensures
        s.turn().0.wf(),
        s.turn().0.running.len() <= s.limit,
{
    let t = s.turn().0;
    if s.running.len() < s.limit && s.started < s.total {
        assert forall|task: nat| task < t.started implies t.running.contains(task)
            || t.handled.contains(task) by {
            if task < s.started {
                if s.running.contains(task) {
                    let k = choose|k: int| 0 <= k < s.running.len() && s.running[k] == task;
                    assert(t.running[k] == task);
                }
            } else {
                assert(t.running[s.running.len() as int] == task);
            }
        }
    }
}

/// The end of a running task keeps the state well-formed: the task is
/// handed on once, and no other task is lost or handed on with it.
pub proof fn lemma_ended_keeps_wf(s: SchedulerView, slot: int)
    requires
        s.wf(),
        0 <= slot < s.running.len(),
    ensures
        s.ended(slot).wf(),
        s.ended(slot).handled.len() == s.handled.len() + 1,
        s.ended(slot).running.len() + 1 == s.running.len(),
{
    let t = s.ended(slot);
    let last = s.running.len() - 1;
    assert forall|i: int| 0 <= i < t.running.len() implies #[trigger] t.running[i] < t.started by {
        if i == slot {
            assert(t.running[i] == s.running[last]);
        } else {
            assert(t.running[i] == s.running[i]);
        }
    }
    assert forall|i: int, j: int| 0 <= i < t.running.len() && 0 <= j < t.running.len() && i
        != j implies t.running[i] != t.running[j] by {
        let a = if i == slot {
            last
        } else {
            i
        };
        let b = if j == slot {
            last
        } else {
            j
        };
        assert(t.running[i] == s.running[a]);
        assert(t.running[j] == s.running[b]);
    }
    assert forall|i: int, j: int| 0 <= i < t.handled.len() && 0 <= j < t.handled.len() && i
        != j implies t.handled[i] != t.handled[j] by {
        if i == s.handled.len() {
            assert(t.handled[j] == s.handled[j]);
        } else if j == s.handled.len() {
            assert(t.handled[i] == s.handled[i]);
        } else {
            assert(t.handled[i] == s.handled[i] && t.handled[j] == s.handled[j]);
        }
    }
    assert forall|i: int, j: int| 0 <= i < t.running.len() && 0 <= j < t.handled.len() implies (
    #[trigger] t.running[i]) != (#[trigger] t.handled[j]) by {
        let a = if i == slot {
            last
        } else {
            i
        };
        assert(t.running[i] == s.running[a]);
        if j == s.handled.len() {
            assert(t.handled[j] == s.running[slot]);
        } else {
            assert(t.handled[j] == s.handled[j]);
        }
    }
    assert forall|task: nat| task < t.started implies t.running.contains(task)
        || t.handled.contains(task) by {
        if s.handled.contains(task) {
            let k = choose|k: int| 0 <= k < s.handled.len() && s.handled[k] == task;
            assert(t.handled[k] == task);
        } else {
            let k = choose|k: int| 0 <= k < s.running.len() && s.running[k] == task;
            if k == slot {
                assert(t.handled[s.handled.len() as int] == task);
            } else if k == last {
                assert(t.running[slot] == task);
            } else {
                assert(t.running[k] == task);
            }
        }
    }
}

/// When a scheduler with a limit of at least one is done, the result of
/// every task of the queue was handed on exactly once: as many results as
/// there were tasks, no task twice, no task left out.
pub proof fn lemma_done_means_all_handled_once(s: SchedulerView)
    requires
        s.wf(),
        s.limit >= 1,
        s.is_done(),
    ensures
        s.handled.len() == s.total,
        s.handled.no_duplicates(),
        forall|task: nat| task < s.total ==> s.handled.contains(task),
        s.running.len() == 0,
{
    assert forall|task: nat| task < s.total implies s.handled.contains(task) by {
        if s.running.contains(task) {
            let k = choose|k: int| 0 <= k < s.running.len() && s.running[k] == task;
        }
    }
}

/// A scheduler that is not done has something to do: it starts a task, or
/// it waits while at least one task runs. Fewer results than tasks were
/// handed on so far.
pub proof fn lemma_not_done_means_work_left(s: SchedulerView)
    requires
        s.wf(),
        s.limit >= 1,
        !s.is_done(),
    ensures
        s.handled.len() < s.total,
        s.turn().1 is Wait ==> s.running.len() > 0,
{
}

/// Whatever the driver does and in whatever order the tasks end, no more
/// tasks run at any time than the limit allows and no result is handed on
/// twice. With a limit of at least one, the scheduler is done exactly when
/// the result of every task of the queue was handed on: as many results as
/// there were tasks, none left out.
pub proof fn lemma_every_run_is_bounded_and_complete(total: nat, limit: nat, moves: Seq<Move>)
    ensures
        ({
            let s = SchedulerView::init(total, limit).after(moves);
            &&& s.wf()
            &&& s.total == total && s.limit == limit
            &&& s.running.len() <= limit
            &&& s.handled.no_duplicates()
            &&& s.handled.len() <= total
            &&& limit >= 1 ==> (s.is_done() <==> s.handled.len() == total)
            &&& limit >= 1 && s.is_done() ==> forall|task: nat|
                task < total ==> s.handled.contains(task)
        }),
    decreases moves.len(),
{
    let start = SchedulerView::init(total, limit);
    if moves.len() > 0 {
        let before = start.after(moves.drop_last());
        lemma_every_run_is_bounded_and_complete(total, limit, moves.drop_last());
        match moves.last() {
            Move::Turn => {
                lemma_turn_keeps_wf(before);
            },
            Move::End(slot) => {
                if 0 <= slot < before.running.len() {
                    lemma_ended_keeps_wf(before, slot);
                }
            },
        }
    }
    let s = start.after(moves);
    if limit >= 1 {
        if s.is_done() {
            lemma_done_means_all_handled_once(s);
        } else {
            lemma_not_done_means_work_left(s);
        }
    }
}

/// A queue of tasks that is worked off with a ceiling on how many run at once.
pub struct Scheduler {
    total: usize,
    limit: usize,
    started: usize,
    running: Vec<usize>,
    finished: usize,
    handled: Ghost<Seq<nat>>,
}

impl View for Scheduler {
    type V = SchedulerView;

    closed spec fn view(&self) -> SchedulerView {
        SchedulerView {
            total: self.total as nat,
            limit: self.limit as nat,
            started: self.started as nat,
            running: Seq::new(self.running@.len(), |i: int| self.running@[i] as nat),
            handled: self.handled@,
        }
    }
}

impl Scheduler {
    /// What holds of every scheduler that this module hands out.
    pub closed spec fn wf(&self) -> bool {
        &&& self@.wf()
        &&& self.finished == self.handled@.len()
    }

    /// A scheduler for a queue of `total` tasks of which `limit` may run at
    /// once.
    pub fn new(total: usize, limit: usize) -> (s: Scheduler)
        ensures
            s.wf(),
            s@ == SchedulerView::init(total as nat, limit as nat),
    {
        let s = Scheduler {
            total,
            limit,
            started: 0,
            running: Vec::new(),
            finished: 0,
            handled: Ghost(Seq::empty()),
        };
        assert(s@.running =~= Seq::empty());
        s
    }

    /// Says what to do next. A task that is to be started counts as running
    /// from now on.
    pub fn next_turn(&mut self) -> (turn: Turn)
        requires
            old(self).wf(),
        ensures
            final(self).wf(),
            (final(self)@, turn) == old(self)@.turn(),
    {
        proof {
            lemma_turn_keeps_wf(self@);
        }
        if self.running.len() < self.limit && self.started < self.total {
            let task: usize = self.started;
            let ghost before = self@.running;
            self.running.push(task);
            self.started = self.started + 1;
            assert(self@.running =~= before.push(task as nat));
            Turn::Start(task)
        } else if self.running.len() == 0 {
            Turn::Done
        } else {
            Turn::Wait
        }
    }

    /// Records that the task in `slot` ended and gives its place in the
    /// queue; the task of the last slot moves into the free slot. Where no
    /// task runs in `slot`, nothing changes.
    pub fn complete(&mut self, slot: usize) -> (task: Option<usize>)
        requires
            old(self).wf(),
        ensures
            final(self).wf(),
            slot < old(self)@.running.len() ==> task == Some(old(self)@.running[slot as int] as usize)
                && final(self)@ == old(self)@.ended(slot as int),
            slot >= old(self)@.running.len() ==> task is None && final(self)@ == old(self)@,
    {
        if slot >= self.running.len() {
            return None;
        }
        proof {
            lemma_ended_keeps_wf(self@, slot as int);
        }
        let ghost before = self@;
        let task: usize = self.running.swap_remove(slot);
        self.finished = self.finished + 1;
        proof {
            self.handled@ = self.handled@.push(task as nat);
        }
        assert(self@.running =~= before.running.update(slot as int, before.running.last()).drop_last());
        Some(task)
    }

    /// How many tasks run.
    pub fn running(&self) -> (n: usize)
        ensures
            n == self@.running.len(),
    {
        self.running.len()
    }

    /// How many results were handed on.
    pub fn handled(&self) -> (n: usize)
        requires
            self.wf(),
        ensures
            n == self@.handled.len(),
    {
        self.finished
    }
}

} // verus!
