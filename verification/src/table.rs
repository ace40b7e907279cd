//! The interrupt dispatch table: which routine the processor enters for
//! each of its 256 vectors.

use vstd::prelude::*;

verus! {

/// Number of vectors, and so of table entries.
pub const TABLE_ENTRIES: usize = 256;

/// Vector of the breakpoint exception.
pub const BREAKPOINT_VECTOR: u8 = 3;

/// Vector of the double-fault exception.
pub const DOUBLE_FAULT_VECTOR: u8 = 8;

/// First vector that is free for hardware and software interrupts.
pub const FIRST_INTERRUPT_VECTOR: u8 = 32;

/// Number of stacks in the processor's interrupt stack table.
pub const STACK_TABLE_ENTRIES: u16 = 7;

/// The routines that can be bound to a vector.
#[derive(Clone, Copy, Debug, PartialEq, Eq, Structural)]
pub enum Handler {
    /// Reports the breakpoint and resumes.
    Breakpoint,
    /// Reports the double fault and halts; never returns.
    DoubleFault,
    /// Marks the tick and acknowledges the timer interrupt.
    Timer,
}

/// One slot of the dispatch table.
#[derive(Clone, Copy, Debug, PartialEq, Eq, Structural)]
pub enum Entry {
    /// No routine is bound; the processor treats the vector as unhandled.
    Missing,
    /// `handler` runs on the stack that was current when the vector fired.
    Bound { handler: Handler },
    /// `handler` runs on stack `stack_index` of the interrupt stack table.
    BoundOnStack { handler: Handler, stack_index: u16 },
}

impl Handler {
    /// Whether the routine has the signature that the processor expects
    /// of the handler of `vector`.
    pub open spec fn fits(self, vector: int) -> bool {
        match self {
            Handler::Breakpoint => vector == BREAKPOINT_VECTOR,
            Handler::DoubleFault => vector == DOUBLE_FAULT_VECTOR,
            Handler::Timer => FIRST_INTERRUPT_VECTOR <= vector < TABLE_ENTRIES,
        }
    }

    /// Whether the routine has the signature that the processor expects
    /// of the handler of `vector`.
    pub fn fits_vector(&self, vector: u8) -> (fits: bool)
        ensures
            fits == self.fits(vector as int),
    {
        match self {
            Handler::Breakpoint => vector == BREAKPOINT_VECTOR,
            Handler::DoubleFault => vector == DOUBLE_FAULT_VECTOR,
            Handler::Timer => vector >= FIRST_INTERRUPT_VECTOR,
        }
    }
}

impl Entry {
    /// The routine that the entry binds, if any.
    pub open spec fn handler(self) -> Option<Handler> {
        match self {
            Entry::Missing => None,
            Entry::Bound { handler } => Some(handler),
            Entry::BoundOnStack { handler, .. } => Some(handler),
        }
    }

    /// The stack of the interrupt stack table that the routine runs on, if
    /// it does not run on the current one.
    pub open spec fn stack(self) -> Option<u16> {
        match self {
            Entry::BoundOnStack { stack_index, .. } => Some(stack_index),
            _ => None,
        }
    }

    /// The routine that the entry binds, if any.
    pub fn bound_handler(&self) -> (handler: Option<Handler>)
        ensures
            handler == self.handler(),
    {
        match self {
            Entry::Missing => None,
            Entry::Bound { handler } => Some(*handler),
            Entry::BoundOnStack { handler, .. } => Some(*handler),
        }
    }

    /// The stack of the interrupt stack table that the routine runs on, if
    /// it does not run on the current one.
    pub fn stack_index(&self) -> (stack: Option<u16>)
        ensures
            stack == self.stack(),
    {
        match self {
            Entry::BoundOnStack { stack_index, .. } => Some(*stack_index),
            _ => None,
        }
    }

    /// Whether the entry may stand in slot `vector`.
    pub open spec fn fits(self, vector: int) -> bool {
        match self {
            Entry::Missing => true,
            Entry::Bound { handler } => handler.fits(vector),
            Entry::BoundOnStack { handler, stack_index } => handler.fits(vector) && stack_index
                < STACK_TABLE_ENTRIES,
        }
    }
}

/// The table that `DispatchTable::build` makes: the breakpoint and timer
/// routines on the current stack, the double-fault routine on a stack of
/// its own, and nothing anywhere else.
pub open spec fn built_table(timer_vector: int, fault_stack: u16) -> Seq<Entry> {
    Seq::new(
        TABLE_ENTRIES as nat,
        |vector: int|
            if vector == BREAKPOINT_VECTOR {
                Entry::Bound { handler: Handler::Breakpoint }
            } else if vector == DOUBLE_FAULT_VECTOR {
                Entry::BoundOnStack { handler: Handler::DoubleFault, stack_index: fault_stack }
            } else if vector == timer_vector {
                Entry::Bound { handler: Handler::Timer }
            } else {
                Entry::Missing
            },
    )
}

/// A dispatch table of 256 entries, indexed by vector.
pub struct DispatchTable {
    entries: Vec<Entry>,
}

impl View for DispatchTable {
    type V = Seq<Entry>;

    closed spec fn view(&self) -> Seq<Entry> {
        self.entries@
    }
}

impl DispatchTable {
    /// The invariant of a table: one entry per vector, each fit for its
    /// slot.
    pub open spec fn wf(&self) -> bool {
        &&& self@.len() == TABLE_ENTRIES
        &&& forall|vector: int| 0 <= vector < TABLE_ENTRIES ==> (#[trigger] self@[vector]).fits(vector)
    }

    /// A table with no routine bound.
    pub fn new() -> (table: DispatchTable)
        ensures
            table.wf(),
            forall|vector: int| 0 <= vector < TABLE_ENTRIES ==> table@[vector] == Entry::Missing,
    {
        let mut entries: Vec<Entry> = Vec::new();
        while entries.len() < TABLE_ENTRIES
            invariant
                entries@.len() <= TABLE_ENTRIES,
                forall|vector: int| 0 <= vector < entries@.len() ==> entries@[vector] == Entry::Missing,
            decreases TABLE_ENTRIES - entries@.len(),
        {
            entries.push(Entry::Missing);
        }
        DispatchTable { entries }
    }

    /// Binds `handler` to `vector`, to run on the current stack.
    pub fn set_handler(&mut self, vector: u8, handler: Handler)
        requires
            old(self).wf(),
            handler.fits(vector as int),
        ensures
            final(self).wf(),
            final(self)@ == old(self)@.update(vector as int, Entry::Bound { handler }),
    {
        self.entries[vector as usize] = Entry::Bound { handler };
    }

    /// Moves the routine bound to `vector` onto stack `stack_index` of the
    /// interrupt stack table.
    pub fn set_stack_index(&mut self, vector: u8, stack_index: u16)
        requires
            old(self).wf(),
            old(self)@[vector as int].handler() is Some,
            stack_index < STACK_TABLE_ENTRIES,
        ensures
            final(self).wf(),
            final(self)@ == old(self)@.update(
                vector as int,
                Entry::BoundOnStack {
                    handler: old(self)@[vector as int].handler().unwrap(),
                    stack_index,
                },
            ),
    {
        assert(old(self)@[vector as int].fits(vector as int));
        match self.entries[vector as usize].bound_handler() {
            Some(handler) => {
                self.entries[vector as usize] = Entry::BoundOnStack { handler, stack_index };
            },
            None => {},
        }
    }

    /// The entry of `vector`.
    pub fn get(&self, vector: u8) -> (entry: Entry)
        requires
            self.wf(),
        ensures
            entry == self@[vector as int],
    {
        self.entries[vector as usize]
    }

    /// The table of this kernel: the breakpoint routine under vector 3,
    /// the double-fault routine under vector 8 on stack `fault_stack`, the
    /// timer routine under `timer_vector`, and every other slot empty.
    pub fn build(timer_vector: u8, fault_stack: u16) -> (table: DispatchTable)
        requires
            FIRST_INTERRUPT_VECTOR <= timer_vector,
            fault_stack < STACK_TABLE_ENTRIES,
        ensures
            table.wf(),
            table@ == built_table(timer_vector as int, fault_stack),
            forall|vector: int|
                0 <= vector < TABLE_ENTRIES && vector != BREAKPOINT_VECTOR && vector
                    != DOUBLE_FAULT_VECTOR && vector != timer_vector ==> table@[vector]
                    == Entry::Missing,
    {
        let mut table: DispatchTable = DispatchTable::new();
        table.set_handler(BREAKPOINT_VECTOR, Handler::Breakpoint);
        table.set_handler(DOUBLE_FAULT_VECTOR, Handler::DoubleFault);
        table.set_stack_index(DOUBLE_FAULT_VECTOR, fault_stack);
        table.set_handler(timer_vector, Handler::Timer);
        assert(table@ =~= built_table(timer_vector as int, fault_stack));
        table
    }
}

} // verus!
