//! Interrupt handling core of a bare-metal x86-64 kernel.
//!
//! The core decides; it touches no hardware. Every operation takes the
//! state of the interrupt system, moves it on, and hands back the effects
//! that the caller has to carry out, first to last: loading the dispatch
//! table, writing a byte to an I/O port, enabling interrupts, putting a
//! report on the diagnostic output, halting.

use vstd::prelude::*;

pub mod pic;
pub mod report;
pub mod table;

use crate::pic::secondary_base;
use crate::pic::valid_offsets;
use crate::pic::Pics;
use crate::pic::PicsView;
use crate::pic::PortWrite;
use crate::pic::CMD_END_OF_INTERRUPT;
use crate::pic::PIC_1_COMMAND_PORT;
use crate::pic::PIC_1_DATA_PORT;
use crate::pic::PIC_2_COMMAND_PORT;
use crate::pic::PIC_2_DATA_PORT;
use crate::report::Diagnostic;
use crate::report::StackFrame;
use crate::table::built_table;
use crate::table::DispatchTable;
use crate::table::Entry;
use crate::table::Handler;
use crate::table::BREAKPOINT_VECTOR;
use crate::table::DOUBLE_FAULT_VECTOR;
use crate::table::FIRST_INTERRUPT_VECTOR;
use crate::table::STACK_TABLE_ENTRIES;
use crate::table::TABLE_ENTRIES;

verus! {

/// Vector of line 0 of the primary controller.
pub const PIC_1_OFFSET: usize = 32;

/// Vector of line 0 of the secondary controller.
pub const PIC_2_OFFSET: usize = PIC_1_OFFSET + 8;

/// The hardware interrupt sources that the kernel serves.
#[derive(Debug, Clone, Copy, PartialEq, Eq, Structural)]
pub enum Interrupt {
    /// The periodic timer, on line 0 of the primary controller.
    TIMER,
}

impl Interrupt {
    /// The line of the primary controller that the source is wired to.
    pub open spec fn line(self) -> int {
        match self {
            Interrupt::TIMER => 0,
        }
    }

    /// The vector of the source when the primary controller is remapped
    /// to `base`.
    pub open spec fn vector_from(self, base: int) -> int {
        base + self.line()
    }

    /// The vector of the source in this kernel.
    pub open spec fn vector(self) -> int {
        self.vector_from(PIC_1_OFFSET as int)
    }

    /// The vector of the source when the primary controller is remapped
    /// to `base`.
    pub fn vector_at(&self, base: u8) -> (vector: u8)
        requires
            self.vector_from(base as int) < 256,
        ensures
            vector == self.vector_from(base as int),
    {
        match self {
            Interrupt::TIMER => base,
        }
    }

    /// The vector of the source, as the byte that the controller is
    /// acknowledged with.
    pub fn as_u8(&self) -> (vector: u8)
        ensures
            vector == self.vector(),
    {
        self.as_usize() as u8
    }

    /// The vector of the source, as an index into the dispatch table.
    pub fn as_usize(&self) -> (vector: usize)
        ensures
            vector == self.vector(),
    {
        match self {
            Interrupt::TIMER => PIC_1_OFFSET,
        }
    }
}

/// The phases that the interrupt system goes through.
#[derive(Debug, Clone, Copy, PartialEq, Eq, Structural)]
pub enum Lifecycle {
    /// Nothing is set up.
    Uninitialized,
    /// The processor consults the dispatch table.
    TableLoaded,
    /// The controllers are remapped and their masks restored.
    ControllerInitialized,
    /// Hardware interrupts are delivered; the steady state.
    InterruptsEnabled,
    /// A double fault has stopped the system; nothing follows.
    Halted,
}

/// What moves the interrupt system from one phase to the next.
#[derive(Debug, Clone, Copy, PartialEq, Eq, Structural)]
pub enum Step {
    /// The dispatch table is loaded into the processor.
    LoadTable,
    /// The controller pair is initialized.
    InitController,
    /// Interrupts are enabled in the processor.
    EnableInterrupts,
    /// A double fault is raised.
    DoubleFault,
}

impl Lifecycle {
    /// The place of the phase in the order that the system goes through.
    pub open spec fn rank(self) -> int {
        match self {
            Lifecycle::Uninitialized => 0,
            Lifecycle::TableLoaded => 1,
            Lifecycle::ControllerInitialized => 2,
            Lifecycle::InterruptsEnabled => 3,
            Lifecycle::Halted => 4,
        }
    }

    /// Whether `step` may be taken in this phase. The table may be loaded
    /// again as long as the controllers are untouched; the controllers are
    /// initialized once, after the table is loaded; interrupts are enabled
    /// once, after that; a double fault may strike in any phase but the
    /// last.
    pub open spec fn admits(self, step: Step) -> bool {
        match step {
            Step::LoadTable => self is Uninitialized || self is TableLoaded,
            Step::InitController => self is TableLoaded,
            Step::EnableInterrupts => self is ControllerInitialized,
            Step::DoubleFault => !(self is Halted),
        }
    }

    /// The phase that `step` leads to. A step that the phase does not
    /// admit leads nowhere.
    pub open spec fn after(self, step: Step) -> Lifecycle {
        if self.admits(step) {
            match step {
                Step::LoadTable => Lifecycle::TableLoaded,
                Step::InitController => Lifecycle::ControllerInitialized,
                Step::EnableInterrupts => Lifecycle::InterruptsEnabled,
                Step::DoubleFault => Lifecycle::Halted,
            }
        } else {
            self
        }
    }
}

/// Something that the caller has to do to the machine.
#[derive(Debug, Clone, Copy, PartialEq, Eq, Structural)]
pub enum Effect {
    /// Load the dispatch table of the interrupt system into the processor.
    LoadTable,
    /// Write a byte to an I/O port.
    Write(PortWrite),
    /// Enable interrupts in the processor.
    EnableInterrupts,
    /// Put the text of a report on the diagnostic output.
    Report(Diagnostic),
    /// Stop for good: do not return to the interrupted code.
    Halt,
}

/// Port writes as effects, in the same order.
pub open spec fn write_effects(writes: Seq<PortWrite>) -> Seq<Effect> {
    Seq::new(writes.len(), |i: int| Effect::Write(writes[i]))
}

/// The write that acknowledges an interrupt of the primary controller.
pub open spec fn primary_acknowledgment() -> PortWrite {
    PortWrite { port: PIC_1_COMMAND_PORT, value: CMD_END_OF_INTERRUPT }
}

/// What the interrupt system is: its phase, its dispatch table once it is
/// built, its controller pair, and the stack that double faults run on.
pub struct InterruptsView {
    pub phase: Lifecycle,
    pub table: Option<Seq<Entry>>,
    pub pics: PicsView,
    pub fault_stack: u16,
}

impl InterruptsView {
    /// The timer's vector under the base that the primary controller is
    /// remapped to.
    pub open spec fn timer_vector(self) -> int {
        Interrupt::TIMER.vector_from(self.pics.primary.offset as int)
    }

    /// The invariant of the interrupt system.
    pub open spec fn wf(self) -> bool {
        &&& self.pics.wf()
        &&& self.fault_stack < STACK_TABLE_ENTRIES
        &&& self.table is Some ==> self.table.unwrap() == built_table(
            self.timer_vector(),
            self.fault_stack,
        )
        &&& self.phase is TableLoaded || self.phase is ControllerInitialized || self.phase
            is InterruptsEnabled ==> self.table is Some
        &&& self.phase is Uninitialized || self.phase is TableLoaded ==> !self.pics.initialized
        &&& self.phase is ControllerInitialized || self.phase is InterruptsEnabled
            ==> self.pics.initialized
    }
}

/// The state of the interrupt system: one value for the whole kernel.
pub struct Interrupts {
    phase: Lifecycle,
    table: Option<DispatchTable>,
    pics: Pics,
    fault_stack: u16,
}

impl View for Interrupts {
    type V = InterruptsView;

    closed spec fn view(&self) -> InterruptsView {
        InterruptsView {
            phase: self.phase,
            table: match self.table {
                Some(table) => Some(table@),
                None => None,
            },
            pics: self.pics@,
            fault_stack: self.fault_stack,
        }
    }
}

impl Interrupts {
    /// The invariant of the interrupt system.
    pub open spec fn wf(&self) -> bool {
        self@.wf()
    }

    /// The interrupt system of this kernel before anything is set up: no
    /// table built, the controllers remapped to `PIC_1_OFFSET` and
    /// `PIC_2_OFFSET` but not initialized. Double faults will run on stack
    /// `fault_stack` of the interrupt stack table.
    pub fn new(fault_stack: u16) -> (state: Interrupts)
        requires
            fault_stack < STACK_TABLE_ENTRIES,
        ensures
            state.wf(),
            state@.phase == Lifecycle::Uninitialized,
            state@.table is None,
            state@.fault_stack == fault_stack,
            state@.pics.primary.offset == PIC_1_OFFSET,
            state@.pics.secondary.offset == PIC_2_OFFSET,
            !state@.pics.initialized,
            state@.timer_vector() == Interrupt::TIMER.vector(),
    {
        Interrupts::with_offsets(PIC_1_OFFSET, PIC_2_OFFSET, fault_stack)
    }

    /// The interrupt system before anything is set up, with the
    /// controllers remapped to `offset_1` and `offset_2`.
    pub fn with_offsets(offset_1: usize, offset_2: usize, fault_stack: u16) -> (state: Interrupts)
        requires
            valid_offsets(offset_1 as int, offset_2 as int),
            fault_stack < STACK_TABLE_ENTRIES,
        ensures
            state.wf(),
            state@.phase == Lifecycle::Uninitialized,
            state@.table is None,
            state@.fault_stack == fault_stack,
            state@.pics.primary.offset == offset_1,
            state@.pics.secondary.offset == offset_2,
            !state@.pics.initialized,
    {
        Interrupts {
            phase: Lifecycle::Uninitialized,
            table: None,
            pics: Pics::new(offset_1, offset_2),
            fault_stack,
        }
    }

    /// The timer's vector under the base that the primary controller is
    /// remapped to.
    pub fn timer_vector(&self) -> (vector: u8)
        requires
            self.wf(),
        ensures
            vector == self@.timer_vector(),
            vector == self@.pics.primary.offset + 0,
            FIRST_INTERRUPT_VECTOR <= vector,
    {
        Interrupt::TIMER.vector_at(self.pics.primary().offset)
    }

    /// Initializes the controller pair. `primary_mask` and `secondary_mask`
    /// are the interrupt masks read from the two data ports beforehand.
    pub fn init_controller(&mut self, primary_mask: u8, secondary_mask: u8) -> (effects: Vec<Effect>)
        requires
            old(self).wf(),
            old(self)@.phase.admits(Step::InitController),
        ensures
            final(self).wf(),
            final(self)@.phase == old(self)@.phase.after(Step::InitController),
            final(self)@.table == old(self)@.table,
            final(self)@.fault_stack == old(self)@.fault_stack,
            final(self)@.pics.primary == old(self)@.pics.primary,
            final(self)@.pics.secondary == old(self)@.pics.secondary,
            final(self)@.pics.initialized,
            effects@ == write_effects(old(self)@.pics.init_writes(primary_mask, secondary_mask)),
    {
        let writes: Vec<PortWrite> = self.pics.init(primary_mask, secondary_mask);
        self.phase = Lifecycle::ControllerInitialized;
        let mut effects: Vec<Effect> = Vec::new();
        push_writes(&mut effects, &writes);
        assert(effects@ =~= write_effects(writes@));
        effects
    }

    /// Enables interrupts.
    pub fn enable(&mut self) -> (effects: Vec<Effect>)
        requires
            old(self).wf(),
            old(self)@.phase.admits(Step::EnableInterrupts),
        ensures
            final(self).wf(),
            final(self)@ == (InterruptsView {
                phase: old(self)@.phase.after(Step::EnableInterrupts),
                ..old(self)@
            }),
            effects@ == seq![Effect::EnableInterrupts],
    {
        self.phase = Lifecycle::InterruptsEnabled;
        let mut effects: Vec<Effect> = Vec::new();
        effects.push(Effect::EnableInterrupts);
        effects
    }

    /// The phase that the system is in.
    pub fn phase(&self) -> (phase: Lifecycle)
        ensures
            phase == self@.phase,
    {
        self.phase
    }

    /// The dispatch table, once it is built.
    pub fn table(&self) -> (table: Option<&DispatchTable>)
        ensures
            table is Some <==> self@.table is Some,
            table is Some ==> self@.table == Some(table.unwrap()@),
            table is Some && self.wf() ==> table.unwrap().wf(),
    {
        self.table.as_ref()
    }

    /// The controller pair.
    pub fn pics(&self) -> (pics: &Pics)
        ensures
            pics@ == self@.pics,
    {
        &self.pics
    }

    /// The stack of the interrupt stack table that double faults run on.
    pub fn fault_stack(&self) -> (fault_stack: u16)
        ensures
            fault_stack == self@.fault_stack,
    {
        self.fault_stack
    }
}

/// Appends `writes` to `effects`, in order, as port-write effects.
fn push_writes(effects: &mut Vec<Effect>, writes: &Vec<PortWrite>)
    ensures
        final(effects)@ == old(effects)@ + write_effects(writes@),
{
    let mut done: usize = 0;
    while done < writes.len()
        invariant
            done <= writes@.len(),
            effects@ == old(effects)@ + write_effects(writes@.take(done as int)),
        decreases writes@.len() - done,
    {
        effects.push(Effect::Write(writes[done]));
        done = done + 1;
        assert(effects@ =~= old(effects)@ + write_effects(writes@.take(done as int)));
    }
    assert(writes@.take(done as int) =~= writes@);
}

/// Installs the dispatch table. The table is built the first time this is
/// called, with the breakpoint and double-fault routines bound to their
/// vectors, the timer routine to the primary controller's base plus zero,
/// and every other slot empty. It is never changed afterwards; a second
/// call loads the same table again.
pub fn init_idt(state: &mut Interrupts) -> (effects: Vec<Effect>)
    requires
        old(state).wf(),
        old(state)@.phase.admits(Step::LoadTable),
    ensures
        final(state).wf(),
        final(state)@ == (InterruptsView {
            phase: old(state)@.phase.after(Step::LoadTable),
            table: Some(built_table(old(state)@.timer_vector(), old(state)@.fault_stack)),
            ..old(state)@
        }),
        effects@ == seq![Effect::LoadTable],
{
    if state.table.is_none() {
        state.table = Some(DispatchTable::build(state.timer_vector(), state.fault_stack));
    }
    state.phase = Lifecycle::TableLoaded;
    let mut effects: Vec<Effect> = Vec::new();
    effects.push(Effect::LoadTable);
    effects
}

/// Initializes the controller pair and enables interrupts.
/// `primary_mask` and `secondary_mask` are the interrupt masks read from
/// the two data ports beforehand. The table must be loaded, and this must
/// not have run before.
pub fn init_interrupts(
    state: &mut Interrupts,
    primary_mask: u8,
    secondary_mask: u8,
) -> (effects: Vec<Effect>)
    requires
        old(state).wf(),
        old(state)@.phase.admits(Step::InitController),
    ensures
        final(state).wf(),
        final(state)@.phase == old(state)@.phase.after(Step::InitController).after(
            Step::EnableInterrupts,
        ),
        final(state)@.table == old(state)@.table,
        final(state)@.fault_stack == old(state)@.fault_stack,
        final(state)@.pics.primary == old(state)@.pics.primary,
        final(state)@.pics.secondary == old(state)@.pics.secondary,
        final(state)@.pics.initialized,
        effects@ == write_effects(old(state)@.pics.init_writes(primary_mask, secondary_mask)).push(
            Effect::EnableInterrupts,
        ),
{
    let mut effects: Vec<Effect> = state.init_controller(primary_mask, secondary_mask);
    let mut enabling: Vec<Effect> = state.enable();
    effects.append(&mut enabling);
    assert(effects@ =~= write_effects(
        old(state)@.pics.init_writes(primary_mask, secondary_mask),
    ).push(Effect::EnableInterrupts));
    effects
}

/// Handles a breakpoint exception: reports the saved context and lets the
/// interrupted code go on where `stack_frame` says. Nothing is written to
/// any port and nothing halts.
pub fn breakpoint_handler(stack_frame: &StackFrame) -> (effects: Vec<Effect>)
    ensures
        effects@ == seq![Effect::Report(Diagnostic::Breakpoint(*stack_frame))],
{
    let mut effects: Vec<Effect> = Vec::new();
    effects.push(Effect::Report(Diagnostic::Breakpoint(*stack_frame)));
    effects
}

/// Handles a double fault: reports the saved context and halts. From here
/// on the system is in its last phase.
pub fn double_fault_handler(
    state: &mut Interrupts,
    stack_frame: &StackFrame,
    _error_code: u64,
) -> (effects: Vec<Effect>)
    requires
        old(state).wf(),
    ensures
        final(state).wf(),
        final(state)@ == (InterruptsView { phase: Lifecycle::Halted, ..old(state)@ }),
        final(state)@.phase == old(state)@.phase.after(Step::DoubleFault),
        effects@ == seq![Effect::Report(Diagnostic::DoubleFault(*stack_frame)), Effect::Halt],
{
    state.phase = Lifecycle::Halted;
    let mut effects: Vec<Effect> = Vec::new();
    effects.push(Effect::Report(Diagnostic::DoubleFault(*stack_frame)));
    effects.push(Effect::Halt);
    effects
}

/// Handles a timer tick: marks the tick on the diagnostic output, then
/// acknowledges the interrupt, once, at the primary controller.
pub fn timer_interrupt_handler(
    state: &Interrupts,
    _stack_frame: &StackFrame,
) -> (effects: Vec<Effect>)
    requires
        state.wf(),
    ensures
        effects@ == seq![Effect::Report(Diagnostic::Tick)] + write_effects(
            state@.pics.end_interrupt_writes(state@.timer_vector()),
        ),
        effects@ == seq![Effect::Report(Diagnostic::Tick), Effect::Write(primary_acknowledgment())],
{
    let mut effects: Vec<Effect> = Vec::new();
    effects.push(Effect::Report(Diagnostic::Tick));
    let writes: Vec<PortWrite> = state.pics.end_interrupt(state.timer_vector());
    push_writes(&mut effects, &writes);
    assert(effects@ =~= seq![
        Effect::Report(Diagnostic::Tick),
        Effect::Write(primary_acknowledgment()),
    ]);
    effects
}

/// Remap arithmetic. Whatever base from 32 upwards the primary controller
/// is remapped to, the timer's vector is that base plus zero and the
/// secondary controller's base is that base plus eight; the timer's vector
/// is clear of the exception vectors; and the pair of bases is one that the
/// controllers accept exactly when all sixteen lines fit below 256.
pub proof fn lemma_remap_arithmetic(base: int)
    requires
        base >= 32,
    ensures
        Interrupt::TIMER.vector_from(base) == base + 0,
        secondary_base(base) == base + 8,
        Interrupt::TIMER.vector_from(base) >= FIRST_INTERRUPT_VECTOR,
        valid_offsets(base, secondary_base(base)) <==> base <= 240,
{
}

/// The two controllers never claim the same vector, and together they
/// claim the sixteen vectors from the primary's base upwards.
pub proof fn lemma_controller_ranges(pics: PicsView, vector: int)
    requires
        pics.wf(),
    ensures
        !(pics.primary.handles(vector) && pics.secondary.handles(vector)),
        pics.handles(vector) <==> pics.primary.offset <= vector < pics.primary.offset + 16,
        pics.handles(vector) ==> FIRST_INTERRUPT_VECTOR <= vector < 256,
{
}

/// Acknowledgment routing. An interrupt of the secondary controller is
/// acknowledged at both controllers, the secondary first; one of the
/// primary's own lines at the primary alone; any other vector not at all.
pub proof fn lemma_acknowledgment_routing(pics: PicsView, vector: int)
    requires
        pics.wf(),
    ensures
        pics.secondary.handles(vector) ==> pics.end_interrupt_writes(vector) == seq![
            PortWrite { port: PIC_2_COMMAND_PORT, value: CMD_END_OF_INTERRUPT },
            PortWrite { port: PIC_1_COMMAND_PORT, value: CMD_END_OF_INTERRUPT },
        ],
        pics.primary.handles(vector) ==> pics.end_interrupt_writes(vector) == seq![
            PortWrite { port: PIC_1_COMMAND_PORT, value: CMD_END_OF_INTERRUPT },
        ],
        !pics.handles(vector) ==> pics.end_interrupt_writes(vector) == Seq::<PortWrite>::empty(),
{
}

/// The timer is a line of the primary controller, whatever valid base the
/// pair is remapped to: its interrupt is acknowledged with one write, to
/// the primary's command port.
pub proof fn lemma_timer_acknowledged_at_primary(pics: PicsView)
    requires
        pics.wf(),
    ensures
        pics.end_interrupt_writes(Interrupt::TIMER.vector_from(pics.primary.offset as int))
            == seq![primary_acknowledgment()],
{
}

/// What `init` sends carries the bases. Whatever valid bases the pair is
/// remapped to, the ten writes tell the primary controller its base and
/// the secondary controller that base plus eight, each as the second byte
/// of its handshake, and end with the two masks.
pub proof fn lemma_init_carries_bases(pics: PicsView, primary_mask: u8, secondary_mask: u8)
    requires
        pics.wf(),
    ensures
        pics.init_writes(primary_mask, secondary_mask).len() == 10,
        pics.init_writes(primary_mask, secondary_mask)[1] == (PortWrite {
            port: PIC_1_DATA_PORT,
            value: pics.primary.offset,
        }),
        pics.init_writes(primary_mask, secondary_mask)[5] == (PortWrite {
            port: PIC_2_DATA_PORT,
            value: pics.secondary.offset,
        }),
        pics.secondary.offset - pics.primary.offset == 8,
        pics.init_writes(primary_mask, secondary_mask)[8] == (PortWrite {
            port: PIC_1_DATA_PORT,
            value: primary_mask,
        }),
        pics.init_writes(primary_mask, secondary_mask)[9] == (PortWrite {
            port: PIC_2_DATA_PORT,
            value: secondary_mask,
        }),
{
}

/// The table in every phase. Whatever phase the system is in and whatever
/// valid base its controllers are remapped to, a table that it holds has
/// 256 entries; the timer routine stands at the primary base plus zero,
/// which is no exception vector; the breakpoint and double-fault routines
/// stand at their vectors; and every other slot is empty.
pub proof fn lemma_table_in_every_phase(state: InterruptsView, vector: int)
    requires
        state.wf(),
        state.table is Some,
        0 <= vector < TABLE_ENTRIES,
    ensures
        state.table.unwrap().len() == TABLE_ENTRIES,
        state.timer_vector() == state.pics.primary.offset + 0,
        FIRST_INTERRUPT_VECTOR <= state.timer_vector() < TABLE_ENTRIES,
        state.table.unwrap()[state.timer_vector()] == (Entry::Bound { handler: Handler::Timer }),
        state.table.unwrap()[BREAKPOINT_VECTOR as int] == (Entry::Bound {
            handler: Handler::Breakpoint,
        }),
        state.table.unwrap()[DOUBLE_FAULT_VECTOR as int] == (Entry::BoundOnStack {
            handler: Handler::DoubleFault,
            stack_index: state.fault_stack,
        }),
        vector != BREAKPOINT_VECTOR && vector != DOUBLE_FAULT_VECTOR && vector
            != state.timer_vector() ==> state.table.unwrap()[vector] == Entry::Missing,
{
}

/// The last phase is final: it admits no step, and no step leads out of
/// it.
pub proof fn lemma_halted_is_final(step: Step)
    ensures
        !Lifecycle::Halted.admits(step),
        Lifecycle::Halted.after(step) == Lifecycle::Halted,
{
}

/// A double fault halts the system from whatever phase it strikes in.
pub proof fn lemma_double_fault_halts(phase: Lifecycle)
    ensures
        phase.after(Step::DoubleFault) == Lifecycle::Halted,
{
}

/// The system never goes back: a step leads to a phase that is no earlier
/// in the order than the one it was taken in, and every step but a second
/// load of the table leads to a later one.
pub proof fn lemma_lifecycle_advances(phase: Lifecycle, step: Step)
    ensures
        phase.rank() <= phase.after(step).rank(),
        phase.admits(step) && !(phase is TableLoaded && step is LoadTable) ==> phase.rank()
            < phase.after(step).rank(),
{
}

} // verus!
