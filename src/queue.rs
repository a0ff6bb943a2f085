use vstd::prelude::*;
use std::collections::VecDeque;
use crate::executor::TaskId;

verus! {

/// The contents after offering `b` to a queue holding `s` with room for `cap` bytes:
/// appended if there is room, dropped otherwise.
pub open spec fn pushed(s: Seq<u8>, cap: nat, b: u8) -> Seq<u8> {
    if s.len() < cap { s.push(b) } else { s }
}

/// The contents after offering each byte of `bs` in turn.
pub open spec fn pushed_all(s: Seq<u8>, cap: nat, bs: Seq<u8>) -> Seq<u8>
    decreases bs.len(),
{
    if bs.len() == 0 {
        s
    } else {
        pushed(pushed_all(s, cap, bs.drop_last()), cap, bs.last())
    }
}

/// The bytes that `n` successive pops take from a queue holding `s`, in order:
/// each pop takes the first byte and leaves the rest.
pub open spec fn polled(s: Seq<u8>, n: nat) -> Seq<u8>
    decreases n,
{
    if n == 0 || s.len() == 0 {
        Seq::empty()
    } else {
        seq![s[0]] + polled(s.drop_first(), (n - 1) as nat)
    }
}

/// Bounded FIFO of scan codes between the keyboard handler and the task that decodes them.
///
/// Its storage is reserved when it is made, so a push never allocates; a push to a full
/// queue is dropped. At most one task waits on it for the next byte.
pub struct ScancodeQueue {
    items: VecDeque<u8>,
    capacity: usize,
    waiter: Option<TaskId>,
}

impl View for ScancodeQueue {
    type V = Seq<u8>;

    closed spec fn view(&self) -> Seq<u8> {
        self.items@
    }
}

impl ScancodeQueue {
    pub closed spec fn spec_capacity(&self) -> nat {
        self.capacity as nat
    }

    pub closed spec fn spec_waiter(&self) -> Option<TaskId> {
        self.waiter
    }

    pub closed spec fn wf(&self) -> bool {
        self.items@.len() <= self.capacity
    }

    /// An empty queue with room for `capacity` bytes and no waiting task.
    pub fn new(capacity: usize) -> (q: ScancodeQueue)
        ensures
            q.wf(),
            q@ == Seq::<u8>::empty(),
            q.spec_capacity() == capacity,
            q.spec_waiter() is None,
    {
        ScancodeQueue { items: VecDeque::with_capacity(capacity), capacity, waiter: None }
    }

    pub fn capacity(&self) -> (r: usize)
        ensures
            r == self.spec_capacity(),
    {
        self.capacity
    }

    pub fn len(&self) -> (r: usize)
        requires
            self.wf(),
        ensures
            r == self@.len(),
    {
        self.items.len()
    }

    /// Producer side: appends `b` if there is room and says whether it did.
    /// A full queue drops the byte and stays as it was.
    pub fn try_push(&mut self, b: u8) -> (accepted: bool)
        requires
            old(self).wf(),
        ensures
            final(self).wf(),
            accepted == (old(self)@.len() < old(self).spec_capacity()),
            final(self)@ == pushed(old(self)@, old(self).spec_capacity(), b),
            final(self).spec_capacity() == old(self).spec_capacity(),
            final(self).spec_waiter() == old(self).spec_waiter(),
    {
        if self.items.len() < self.capacity {
            self.items.push_back(b);
            true
        } else {
            false
        }
    }

    /// Takes the oldest byte, if any.
    pub fn pop(&mut self) -> (r: Option<u8>)
        requires
            old(self).wf(),
        ensures
            final(self).wf(),
            final(self).spec_capacity() == old(self).spec_capacity(),
            final(self).spec_waiter() == old(self).spec_waiter(),
            old(self)@.len() == 0 ==> r is None && final(self)@ == old(self)@,
            old(self)@.len() > 0 ==> r == Some(old(self)@[0]) && final(self)@ == old(self)@.drop_first(),
    {
        self.items.pop_front()
    }

    /// Consumer side: takes the oldest byte, or, on an empty queue, registers `task`
    /// as the one to wake on the next push, in the same step.
    pub fn poll_next(&mut self, task: TaskId) -> (r: Option<u8>)
        requires
            old(self).wf(),
        ensures
            final(self).wf(),
            final(self).spec_capacity() == old(self).spec_capacity(),
            old(self)@.len() == 0 ==> r is None && final(self)@ == old(self)@
                && final(self).spec_waiter() == Some(task),
            old(self)@.len() > 0 ==> r == Some(old(self)@[0]) && final(self)@ == old(self)@.drop_first()
                && final(self).spec_waiter() == old(self).spec_waiter(),
    {
        let r = self.items.pop_front();
        if r.is_none() {
            self.waiter = Some(task);
        }
        r
    }

    /// Removes and returns the registered task, to be woken.
    pub fn take_waiter(&mut self) -> (r: Option<TaskId>)
        requires
            old(self).wf(),
        ensures
            final(self).wf(),
            r == old(self).spec_waiter(),
            final(self).spec_waiter() is None,
            final(self)@ == old(self)@,
            final(self).spec_capacity() == old(self).spec_capacity(),
    {
        let r = self.waiter;
        self.waiter = None;
        r
    }
}

/// Up to the capacity, bytes pushed into an empty queue come out of it in the same order.
pub proof fn lemma_fifo_order(cap: nat, bs: Seq<u8>)
    requires
        bs.len() <= cap,
    ensures
        pushed_all(Seq::empty(), cap, bs) == bs,
        polled(pushed_all(Seq::empty(), cap, bs), bs.len()) == bs,
    decreases bs.len(),
{
    if bs.len() > 0 {
        lemma_fifo_order(cap, bs.drop_last());
        assert(bs.drop_last().push(bs.last()) =~= bs);
    }
    lemma_polled_all(bs);
}

proof fn lemma_polled_all(s: Seq<u8>)
    ensures
        polled(s, s.len()) == s,
    decreases s.len(),
{
    if s.len() > 0 {
        lemma_polled_all(s.drop_first());
        assert(seq![s[0]] + s.drop_first() =~= s);
    }
}

/// A push to a full queue is a drop that leaves it unchanged; once a byte has been
/// taken, the next push is accepted again.
pub proof fn lemma_overflow_drops(s: Seq<u8>, cap: nat, b: u8, c: u8)
    requires
        s.len() == cap,
        cap > 0,
    ensures
        pushed(s, cap, b) == s,
        pushed(s.drop_first(), cap, c) == s.drop_first().push(c),
{
}

} // verus!
