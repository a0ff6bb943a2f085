use vstd::prelude::*;
use crate::exceptions::{exception_at, handle_exception, outcome_of, ExceptionKind, ExceptionRecord, Outcome};

verus! {

/// First vector of the primary interrupt controller, just above the CPU exception range.
pub const PIC_1_OFFSET: u8 = 32;

/// First vector of the secondary interrupt controller.
pub const PIC_2_OFFSET: u8 = PIC_1_OFFSET + 8;

/// Hardware interrupt sources, with their vectors on the primary controller.
#[derive(Debug, Clone, Copy, PartialEq, Eq, Structural)]
pub enum InterruptIndex {
    Timer,
    Keyboard,
}

impl InterruptIndex {
    /// The vector a source is delivered on: timer on line 0, keyboard on line 1.
    pub open spec fn vector(self) -> u8 {
        match self {
            InterruptIndex::Timer => PIC_1_OFFSET,
            InterruptIndex::Keyboard => (PIC_1_OFFSET + 1) as u8,
        }
    }

    pub fn as_u8(self) -> (r: u8)
        ensures
            r == self.vector(),
    {
        match self {
            InterruptIndex::Timer => PIC_1_OFFSET,
            InterruptIndex::Keyboard => PIC_1_OFFSET + 1,
        }
    }

    pub fn as_usize(self) -> (r: usize)
        ensures
            r == self.vector() as usize,
    {
        self.as_u8() as usize
    }
}

/// Number of entries in the vector table: one per vector number.
pub const VECTOR_COUNT: usize = 256;

/// What a vector table entry dispatches to.
#[derive(Debug, Clone, Copy, PartialEq, Eq, Structural)]
pub enum Handler {
    Exception(ExceptionKind),
    Irq(InterruptIndex),
    Unassigned,
}

/// One entry: its handler and, for the double fault, the index of the dedicated stack.
#[derive(Debug, Clone, Copy, PartialEq, Eq, Structural)]
pub struct Entry {
    pub handler: Handler,
    pub stack_index: Option<u16>,
}

/// The handler that the table installs on vector `v`.
pub open spec fn handler_at(v: u8) -> Handler {
    if v < PIC_1_OFFSET {
        match exception_at(v) {
            Some(k) => Handler::Exception(k),
            None => Handler::Unassigned,
        }
    } else if v == InterruptIndex::Timer.vector() {
        Handler::Irq(InterruptIndex::Timer)
    } else if v == InterruptIndex::Keyboard.vector() {
        Handler::Irq(InterruptIndex::Keyboard)
    } else {
        Handler::Unassigned
    }
}

/// The entry on vector `v`; only the double fault runs on a stack of its own.
pub open spec fn entry_at(v: u8, double_fault_stack: u16) -> Entry {
    Entry {
        handler: handler_at(v),
        stack_index: if v == ExceptionKind::DoubleFault.spec_vector() {
            Some(double_fault_stack)
        } else {
            None
        },
    }
}

/// The table of 256 entries, indexed by vector number.
pub struct VectorTable {
    pub entries: Vec<Entry>,
    pub double_fault_stack: u16,
}

/// Where a trap on some vector goes.
#[derive(Debug, Clone, Copy, PartialEq, Eq, Structural)]
pub enum Dispatch {
    Exception(Outcome),
    Irq(InterruptIndex),
    Unhandled,
}

/// The effect of a trap on vector `v`, given what the handler there does.
pub open spec fn dispatch_of(v: u8, rec: ExceptionRecord) -> Dispatch {
    match handler_at(v) {
        Handler::Exception(k) => Dispatch::Exception(outcome_of(k, rec)),
        Handler::Irq(i) => Dispatch::Irq(i),
        Handler::Unassigned => Dispatch::Unhandled,
    }
}

impl VectorTable {
    /// Every vector holds the entry that the layout assigns to it.
    pub open spec fn wf(&self) -> bool {
        &&& self.entries@.len() == VECTOR_COUNT
        &&& forall|v: u8| #[trigger] self.entries@[v as int] == entry_at(v, self.double_fault_stack)
    }

    /// Routes a trap on `vector` to the handler of its entry.
    pub fn dispatch(&self, vector: u8, rec: ExceptionRecord) -> (d: Dispatch)
        requires
            self.wf(),
        ensures
            d == dispatch_of(vector, rec),
    {
        let entry = self.entries[vector as usize];
        assert(entry == entry_at(vector, self.double_fault_stack));
        match entry.handler {
            Handler::Exception(k) => Dispatch::Exception(handle_exception(k, rec)),
            Handler::Irq(i) => Dispatch::Irq(i),
            Handler::Unassigned => Dispatch::Unhandled,
        }
    }
}

fn handler_for(v: u8) -> (h: Handler)
    ensures
        h == handler_at(v),
{
    if v < PIC_1_OFFSET {
        match ExceptionKind::from_vector(v) {
            Some(k) => Handler::Exception(k),
            None => Handler::Unassigned,
        }
    } else if v == InterruptIndex::Timer.as_u8() {
        Handler::Irq(InterruptIndex::Timer)
    } else if v == InterruptIndex::Keyboard.as_u8() {
        Handler::Irq(InterruptIndex::Keyboard)
    } else {
        Handler::Unassigned
    }
}

/// Builds the vector table: a handler for each CPU exception, the timer and the
/// keyboard, and the double fault on the stack with index `double_fault_stack`.
pub fn init_idt(double_fault_stack: u16) -> (t: VectorTable)
    ensures
        t.wf(),
        t.double_fault_stack == double_fault_stack,
{
    let mut entries: Vec<Entry> = Vec::with_capacity(VECTOR_COUNT);
    let mut v: usize = 0;
    while v < VECTOR_COUNT
        invariant
            v <= VECTOR_COUNT,
            entries@.len() == v,
            forall|i: int| 0 <= i < v ==> #[trigger] entries@[i] == entry_at(i as u8, double_fault_stack),
        decreases VECTOR_COUNT - v,
    {
        let stack_index = if v == 8 { Some(double_fault_stack) } else { None };
        entries.push(Entry { handler: handler_for(v as u8), stack_index });
        v = v + 1;
    }
    let t = VectorTable { entries, double_fault_stack };
    assert forall|v: u8| #[trigger] t.entries@[v as int] == entry_at(v, double_fault_stack) by {
        assert(t.entries@[v as int] == entry_at((v as int) as u8, double_fault_stack));
    }
    t
}

/// A recoverable exception resumes after exactly one report, which names its vector.
pub proof fn lemma_recoverable_resumes(v: u8, rec: ExceptionRecord)
    requires
        exception_at(v) matches Some(k) && !k.is_fatal(),
    ensures
        dispatch_of(v, rec) matches Dispatch::Exception(Outcome::Resume(r))
            && r.vector == v && Some(r.kind) == exception_at(v),
{
}

/// A double fault or machine check halts: control never returns to the trapped code.
pub proof fn lemma_fatal_halts(v: u8, rec: ExceptionRecord)
    requires
        exception_at(v) matches Some(k) && k.is_fatal(),
    ensures
        dispatch_of(v, rec) matches Dispatch::Exception(Outcome::Halt(r))
            && r.vector == v && Some(r.kind) == exception_at(v),
{
}

} // verus!
