use vstd::prelude::*;
use std::collections::VecDeque;

verus! {

/// Stable handle of a spawned task: its slot in the executor's arena.
#[derive(Debug, Clone, Copy, PartialEq, Eq, Structural)]
pub struct TaskId(pub u64);

/// Where a task stands in the scheduler.
#[derive(Debug, Clone, Copy, PartialEq, Eq, Structural)]
pub enum TaskState {
    /// Runnable, waiting in the ready queue.
    Queued,
    /// Taken from the ready queue and being polled.
    Running,
    /// Being polled, and woken meanwhile: it goes back to the ready queue if it suspends.
    RunningWoken,
    /// Suspended until a wake signal.
    Suspended,
    /// Finished; its slot is never reused.
    Completed,
}

impl TaskState {
    pub open spec fn is_runnable(self) -> bool {
        self == TaskState::Queued || self == TaskState::Running || self == TaskState::RunningWoken
    }
}

/// Single-threaded cooperative scheduler: an arena of task states indexed by handle,
/// and a FIFO of the handles that are ready to be polled.
pub struct Executor {
    states: Vec<TaskState>,
    ready: VecDeque<u64>,
}

/// The states after a wake signal for `id`: a suspended task is queued, a task being
/// polled is marked to be polled again, and any other wake changes nothing.
pub open spec fn woken_state(s: TaskState) -> TaskState {
    match s {
        TaskState::Suspended => TaskState::Queued,
        TaskState::Running => TaskState::RunningWoken,
        _ => s,
    }
}

impl Executor {
    pub closed spec fn states(&self) -> Seq<TaskState> {
        self.states@
    }

    pub closed spec fn ready(&self) -> Seq<u64> {
        self.ready@
    }

    /// The ready queue holds exactly the queued tasks, each once.
    pub open spec fn wf(&self) -> bool {
        &&& forall|i: int| 0 <= i < self.ready().len() ==>
            (#[trigger] self.ready()[i]) < self.states().len()
            && self.states()[self.ready()[i] as int] == TaskState::Queued
        &&& forall|i: int, j: int| 0 <= i < j < self.ready().len() ==>
            self.ready()[i] != self.ready()[j]
        &&& forall|id: int| 0 <= id < self.states().len()
            && #[trigger] self.states()[id] == TaskState::Queued ==> self.ready().contains(id as u64)
        &&& self.states().len() <= u64::MAX
    }

    /// An executor with no tasks.
    pub fn new() -> (e: Executor)
        ensures
            e.wf(),
            e.states() == Seq::<TaskState>::empty(),
            e.ready() == Seq::<u64>::empty(),
    {
        Executor { states: Vec::new(), ready: VecDeque::new() }
    }

    /// Adds a task; it is runnable and queued behind those already ready.
    pub fn spawn(&mut self) -> (id: TaskId)
        requires
            old(self).wf(),
            old(self).states().len() < u64::MAX,
        ensures
            final(self).wf(),
            id.0 == old(self).states().len(),
            final(self).states() == old(self).states().push(TaskState::Queued),
            final(self).ready() == old(self).ready().push(id.0),
    {
        let id = self.states.len() as u64;
        self.states.push(TaskState::Queued);
        self.ready.push_back(id);
        assert forall|k: int| 0 <= k < self.states().len()
            && #[trigger] self.states()[k] == TaskState::Queued implies self.ready().contains(k as u64) by {
            if k < old(self).states().len() {
                let i = choose|i: int| 0 <= i < old(self).ready().len() && old(self).ready()[i] == k as u64;
                assert(self.ready()[i] == k as u64);
            } else {
                assert(self.ready()[self.ready().len() - 1] == k as u64);
            }
        }
        TaskId(id)
    }

    /// Whether no task is ready: the caller may then wait for the next interrupt.
    pub fn is_idle(&self) -> (r: bool)
        ensures
            r == (self.ready().len() == 0),
    {
        self.ready.len() == 0
    }

    /// The state of task `id`, if it was spawned here.
    pub fn state(&self, id: TaskId) -> (r: Option<TaskState>)
        ensures
            id.0 < self.states().len() ==> r == Some(self.states()[id.0 as int]),
            id.0 >= self.states().len() ==> r is None,
    {
        if id.0 < self.states.len() as u64 {
            Some(self.states[id.0 as usize])
        } else {
            None
        }
    }

    /// Takes the oldest ready task to be polled.
    pub fn next_ready(&mut self) -> (r: Option<TaskId>)
        requires
            old(self).wf(),
        ensures
            final(self).wf(),
            old(self).ready().len() == 0 ==> r is None && final(self).states() == old(self).states()
                && final(self).ready() == old(self).ready(),
            old(self).ready().len() > 0 ==> r == Some(TaskId(old(self).ready()[0]))
                && final(self).ready() == old(self).ready().drop_first()
                && final(self).states() == old(self).states().update(
                    old(self).ready()[0] as int,
                    TaskState::Running,
                ),
    {
        match self.ready.pop_front() {
            None => None,
            Some(id) => {
                assert(old(self).ready()[0] == id);
                let n = self.states.len();
                assert(id < n);
                self.states.set(id as usize, TaskState::Running);
                assert(self.ready@ =~= old(self).ready@.drop_first());
                assert forall|k: int| 0 <= k < self.states().len()
                    && #[trigger] self.states()[k] == TaskState::Queued implies self.ready().contains(k as u64) by {
                    assert(k != id as int);
                    assert(old(self).states()[k] == TaskState::Queued);
                    let i = choose|i: int| 0 <= i < old(self).ready().len() && old(self).ready()[i] == k as u64;
                    assert(i != 0);
                    assert(self.ready()[i - 1] == k as u64);
                }
                assert forall|i: int| 0 <= i < self.ready().len() implies
                    (#[trigger] self.ready()[i]) < self.states().len()
                    && self.states()[self.ready()[i] as int] == TaskState::Queued by {
                    assert(self.ready()[i] == old(self).ready()[i + 1]);
                    assert(old(self).ready()[0] != old(self).ready()[i + 1]);
                }
                Some(TaskId(id))
            }
        }
    }

    /// Wake signal for task `id`. Waking a task that is already runnable, finished or
    /// unknown schedules nothing, so a task is never queued twice.
    pub fn wake(&mut self, id: TaskId)
        requires
            old(self).wf(),
        ensures
            final(self).wf(),
            id.0 >= old(self).states().len() ==> final(self).states() == old(self).states()
                && final(self).ready() == old(self).ready(),
            id.0 < old(self).states().len() ==> final(self).states() == old(self).states().update(
                id.0 as int,
                woken_state(old(self).states()[id.0 as int]),
            ),
            id.0 < old(self).states().len() && old(self).states()[id.0 as int] == TaskState::Suspended
                ==> final(self).ready() == old(self).ready().push(id.0),
            !(id.0 < old(self).states().len() && old(self).states()[id.0 as int] == TaskState::Suspended)
                ==> final(self).ready() == old(self).ready(),
    {
        if id.0 < self.states.len() as u64 {
            let i = id.0 as usize;
            match self.states[i] {
                TaskState::Suspended => {
                    self.states.set(i, TaskState::Queued);
                    self.ready.push_back(id.0);
                    proof { self.lemma_queued_after_push(*old(self), id.0); }
                },
                TaskState::Running => {
                    self.states.set(i, TaskState::RunningWoken);
                    proof { self.lemma_unqueued_update(*old(self), id.0); }
                },
                _ => {
                    assert(self.states() =~= old(self).states().update(i as int, self.states()[i as int]));
                },
            }
        }
    }

    /// Records the result of polling task `id`: finished, or suspended at a wait.
    pub fn finish_poll(&mut self, id: TaskId, done: bool)
        requires
            old(self).wf(),
            id.0 < old(self).states().len(),
            old(self).states()[id.0 as int] == TaskState::Running
                || old(self).states()[id.0 as int] == TaskState::RunningWoken,
        ensures
            final(self).wf(),
            done ==> final(self).states() == old(self).states().update(id.0 as int, TaskState::Completed)
                && final(self).ready() == old(self).ready(),
            !done && old(self).states()[id.0 as int] == TaskState::Running ==>
                final(self).states() == old(self).states().update(id.0 as int, TaskState::Suspended)
                && final(self).ready() == old(self).ready(),
            !done && old(self).states()[id.0 as int] == TaskState::RunningWoken ==>
                final(self).states() == old(self).states().update(id.0 as int, TaskState::Queued)
                && final(self).ready() == old(self).ready().push(id.0),
    {
        let n = self.states.len();
        assert(id.0 < n);
        let i = id.0 as usize;
        if done {
            self.states.set(i, TaskState::Completed);
            proof { self.lemma_unqueued_update(*old(self), id.0); }
        } else {
            match self.states[i] {
                TaskState::RunningWoken => {
                    self.states.set(i, TaskState::Queued);
                    self.ready.push_back(id.0);
                    proof { self.lemma_queued_after_push(*old(self), id.0); }
                },
                _ => {
                    self.states.set(i, TaskState::Suspended);
                    proof { self.lemma_unqueued_update(*old(self), id.0); }
                },
            }
        }
    }

    proof fn lemma_unqueued_update(&self, before: Executor, id: u64)
        requires
            before.wf(),
            id < before.states().len(),
            before.states()[id as int] != TaskState::Queued,
            self.states() == before.states().update(id as int, self.states()[id as int]),
            self.states()[id as int] != TaskState::Queued,
            self.ready() == before.ready(),
        ensures
            self.wf(),
    {
        assert forall|i: int| 0 <= i < self.ready().len() implies
            (#[trigger] self.ready()[i]) < self.states().len()
            && self.states()[self.ready()[i] as int] == TaskState::Queued by {
            assert(before.ready()[i] != id);
        }
        assert forall|k: int| 0 <= k < self.states().len()
            && #[trigger] self.states()[k] == TaskState::Queued implies self.ready().contains(k as u64) by {
            assert(before.states()[k] == TaskState::Queued);
        }
    }

    proof fn lemma_queued_after_push(&self, before: Executor, id: u64)
        requires
            before.wf(),
            id < before.states().len(),
            before.states()[id as int] != TaskState::Queued,
            self.states() == before.states().update(id as int, TaskState::Queued),
            self.ready() == before.ready().push(id),
        ensures
            self.wf(),
    {
        assert forall|k: int| 0 <= k < self.states().len()
            && #[trigger] self.states()[k] == TaskState::Queued implies self.ready().contains(k as u64) by {
            if k == id {
                assert(self.ready()[self.ready().len() - 1] == k as u64);
            } else {
                let i = choose|i: int| 0 <= i < before.ready().len() && before.ready()[i] == k as u64;
                assert(self.ready()[i] == k as u64);
            }
        }
    }
}

/// A task that is woken while already runnable stays queued once: a duplicate wake
/// schedules nothing.
pub proof fn lemma_wake_idempotent(s: TaskState)
    ensures
        woken_state(woken_state(s)) == woken_state(s),
        s.is_runnable() ==> woken_state(s).is_runnable(),
{
}

} // verus!
