use vstd::prelude::*;
use crate::executor::{woken_state, Executor, TaskId, TaskState};
use crate::keyboard::{decode_state, decode_text, Decoder};
use crate::queue::{pushed, ScancodeQueue};
use crate::vectors::InterruptIndex;

verus! {

/// The task that drains the scan-code queue and types what it decodes.
#[derive(Debug, Clone, Copy, PartialEq, Eq, Structural)]
pub struct Printer {
    pub id: TaskId,
    pub decoder: Decoder,
}

/// What one scheduler pass did.
pub enum Pass {
    /// No task was ready: the caller halts until the next interrupt.
    Idle,
    /// Task `task` was polled and typed `output`; `done` if it finished.
    Polled { task: TaskId, output: Vec<char>, done: bool },
}

/// The process-wide state that interrupt handlers and tasks share: the scheduler,
/// the scan-code queue, and the keypress task once it is spawned.
pub struct Kernel {
    executor: Executor,
    queue: ScancodeQueue,
    printer: Option<Printer>,
}

impl Kernel {
    pub closed spec fn executor(&self) -> Executor {
        self.executor
    }

    pub closed spec fn queue(&self) -> ScancodeQueue {
        self.queue
    }

    pub closed spec fn printer(&self) -> Option<Printer> {
        self.printer
    }

    /// The state of the keypress task, if it was spawned.
    pub open spec fn printer_state(&self) -> Option<TaskState> {
        match self.printer() {
            Some(p) => Some(self.executor().states()[p.id.0 as int]),
            None => None,
        }
    }

    /// The keypress task is the only task. It is never suspended while bytes are
    /// queued, and while it is suspended it is registered to be woken by the next push.
    pub open spec fn wf(&self) -> bool {
        &&& self.executor().wf()
        &&& self.queue().wf()
        &&& match self.printer() {
            None => self.executor().states().len() == 0 && self.queue().spec_waiter() is None,
            Some(p) => {
                &&& self.executor().states().len() == 1
                &&& p.id.0 == 0
                &&& self.queue().spec_waiter() is None || self.queue().spec_waiter() == Some(p.id)
                &&& self.executor().states()[0] == TaskState::Suspended ==> self.queue()@.len() == 0
                    && self.queue().spec_waiter() == Some(p.id)
            },
        }
    }

    /// A kernel with no task and an empty queue with room for `capacity` scan codes.
    pub fn new(capacity: usize) -> (k: Kernel)
        ensures
            k.wf(),
            k.printer() is None,
            k.executor().states().len() == 0,
            k.executor().ready().len() == 0,
            k.queue()@ == Seq::<u8>::empty(),
            k.queue().spec_capacity() == capacity,
    {
        Kernel { executor: Executor::new(), queue: ScancodeQueue::new(capacity), printer: None }
    }

    /// Spawns the keypress task, runnable at once; a second call changes nothing.
    pub fn spawn_printer(&mut self) -> (id: TaskId)
        requires
            old(self).wf(),
        ensures
            final(self).wf(),
            final(self).printer() matches Some(p) && p.id == id,
            old(self).printer() is None ==> id.0 == 0
                && final(self).printer_state() == Some(TaskState::Queued)
                && final(self).executor().ready() == seq![0u64]
                && final(self).printer() == Some((Printer { id, decoder: (Decoder { left_shift: false, right_shift: false }) })),
            old(self).printer() is Some ==> final(self).printer() == old(self).printer()
                && final(self).executor() == old(self).executor(),
            final(self).queue() == old(self).queue(),
    {
        match self.printer {
            Some(p) => p.id,
            None => {
                proof {
                    if self.executor().ready().len() > 0 {
                        assert(self.executor().ready()[0] < 0);
                    }
                }
                let id = self.executor.spawn();
                assert(self.executor().ready() =~= seq![0u64]);
                self.printer = Some(Printer { id, decoder: Decoder::new() });
                id
            },
        }
    }

    /// Timer interrupt: nothing to schedule yet; returns the vector to acknowledge.
    pub fn timer_interrupt(&self) -> (ack: u8)
        ensures
            ack == InterruptIndex::Timer.vector(),
    {
        InterruptIndex::Timer.as_u8()
    }

    /// Keyboard interrupt: queues the scan code read from the port, or drops it when the
    /// queue is full, wakes the waiting task if the code was queued, and returns the
    /// vector to acknowledge.
    pub fn keyboard_interrupt(&mut self, scancode: u8) -> (ack: u8)
        requires
            old(self).wf(),
        ensures
            final(self).wf(),
            ack == InterruptIndex::Keyboard.vector(),
            final(self).queue()@ == pushed(old(self).queue()@, old(self).queue().spec_capacity(), scancode),
            final(self).queue().spec_capacity() == old(self).queue().spec_capacity(),
            final(self).printer() == old(self).printer(),
            old(self).queue()@.len() < old(self).queue().spec_capacity() && old(self).queue().spec_waiter() is Some
                ==> final(self).printer_state() == Some(woken_state(old(self).printer_state().unwrap())),
            !(old(self).queue()@.len() < old(self).queue().spec_capacity() && old(self).queue().spec_waiter() is Some)
                ==> final(self).executor() == old(self).executor(),
            old(self).printer_state() == Some(TaskState::Suspended) && old(self).queue().spec_capacity() > 0
                ==> final(self).printer_state() == Some(TaskState::Queued)
                && final(self).executor().ready() == seq![old(self).printer().unwrap().id.0],
    {
        proof {
            if old(self).printer_state() == Some(TaskState::Suspended) {
                assert(old(self).executor().ready().len() == 0) by {
                    if old(self).executor().ready().len() > 0 {
                        assert(old(self).executor().ready()[0] < 1);
                    }
                }
                assert(seq![old(self).printer().unwrap().id.0] =~= Seq::<u64>::empty().push(0));
            }
        }
        if self.queue.try_push(scancode) {
            if let Some(task) = self.queue.take_waiter() {
                self.executor.wake(task);
            }
        }
        InterruptIndex::Keyboard.as_u8()
    }

    /// One scheduler pass: polls the oldest ready task. The keypress task drains the
    /// queue, decoding each scan code, and suspends once it finds the queue empty.
    pub fn run_pass(&mut self) -> (r: Pass)
        requires
            old(self).wf(),
        ensures
            final(self).wf(),
            final(self).printer() is Some == old(self).printer() is Some,
            final(self).queue().spec_capacity() == old(self).queue().spec_capacity(),
            old(self).executor().ready().len() == 0 ==> r is Idle
                && final(self).executor().states() == old(self).executor().states()
                && final(self).executor().ready() == old(self).executor().ready()
                && final(self).queue() == old(self).queue()
                && final(self).printer() == old(self).printer(),
            old(self).executor().ready().len() > 0 ==> {
                let p = old(self).printer().unwrap();
                &&& old(self).printer() is Some
                &&& r is Polled
                &&& r->task == p.id
                &&& !r->done
                &&& r->output@ == decode_text(p.decoder, old(self).queue()@)
                &&& final(self).printer() == Some((Printer { id: p.id, decoder: decode_state(p.decoder, old(self).queue()@) }))
                &&& final(self).queue()@.len() == 0
                &&& final(self).printer_state() == Some(TaskState::Suspended)
            },
    {
        match self.executor.next_ready() {
            None => Pass::Idle,
            Some(id) => {
                assert(old(self).executor().ready()[0] < old(self).executor().states().len());
                assert(self.printer is Some);
                assert(id.0 == 0);
                let mut p = self.printer.unwrap();
                let ghost d0 = p.decoder;
                let ghost codes = self.queue@;
                let ghost cap = self.queue.spec_capacity();
                let ghost waiter = self.queue.spec_waiter();
                let ghost exec = self.executor;
                let mut output: Vec<char> = Vec::new();
                assert(codes.take(0) =~= Seq::<u8>::empty());
                assert(codes.subrange(0, codes.len() as int) =~= codes);
                loop
                    invariant_except_break
                        self.queue.wf(),
                        self.queue.spec_capacity() == cap,
                        self.queue.spec_waiter() == waiter,
                        self.executor == exec,
                        p.id == id,
                        self.queue@.len() <= codes.len(),
                        self.queue@ == codes.subrange(codes.len() - self.queue@.len(), codes.len() as int),
                        output@ == decode_text(d0, codes.take(codes.len() - self.queue@.len())),
                        p.decoder == decode_state(d0, codes.take(codes.len() - self.queue@.len())),
                    ensures
                        self.queue.wf(),
                        self.queue.spec_capacity() == cap,
                        self.executor == exec,
                        p.id == id,
                        self.queue@.len() == 0,
                        self.queue.spec_waiter() == Some(id),
                        output@ == decode_text(d0, codes),
                        p.decoder == decode_state(d0, codes),
                    decreases self.queue@.len(),
                {
                    let ghost k = codes.len() - self.queue@.len();
                    match self.queue.poll_next(id) {
                        Some(b) => {
                            assert(b == codes[k]);
                            assert(codes.take(k + 1).drop_last() =~= codes.take(k));
                            assert(codes.take(k + 1).last() == b);
                            assert(self.queue@ =~= codes.subrange(k + 1, codes.len() as int));
                            if let Some(c) = p.decoder.process(b) {
                                output.push(c);
                            }
                        },
                        None => {
                            assert(codes.take(codes.len() as int) =~= codes);
                            break;
                        },
                    }
                }
                self.printer = Some(p);
                self.executor.finish_poll(id, false);
                Pass::Polled { task: id, output, done: false }
            },
        }
    }
}

/// No missed wake-up: a suspended keypress task has found the queue empty and is
/// registered, so the next accepted push makes it runnable again.
pub proof fn lemma_suspended_task_registered(k: Kernel)
    requires
        k.wf(),
        k.printer_state() == Some(TaskState::Suspended),
    ensures
        k.queue()@.len() == 0,
        k.queue().spec_waiter() == Some(k.printer().unwrap().id),
{
}

/// With no task spawned, nothing is ever ready: each pass is idle and the caller halts
/// until the next interrupt, which is still serviced and acknowledged.
pub proof fn lemma_no_task_is_idle(k: Kernel)
    requires
        k.wf(),
        k.printer() is None,
    ensures
        k.executor().ready().len() == 0,
        k.queue().spec_waiter() is None,
{
    if k.executor().ready().len() > 0 {
        assert(k.executor().ready()[0] < k.executor().states().len());
    }
}

} // verus!
