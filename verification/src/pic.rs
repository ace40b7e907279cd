//! Driver for a cascaded pair of 8259-style interrupt controllers.
//!
//! The driver decides which bytes go to which I/O port and in which order.
//! It touches no hardware itself: every operation hands back the port
//! writes for the caller to perform, first to last.

use vstd::prelude::*;

verus! {

/// Command port of the primary controller.
pub const PIC_1_COMMAND_PORT: u16 = 0x20;

/// Data port of the primary controller.
pub const PIC_1_DATA_PORT: u16 = 0x21;

/// Command port of the secondary controller.
pub const PIC_2_COMMAND_PORT: u16 = 0xA0;

/// Data port of the secondary controller.
pub const PIC_2_DATA_PORT: u16 = 0xA1;

/// Command byte that puts a controller into initialization mode.
pub const CMD_INIT: u8 = 0x11;

/// Command byte that acknowledges the interrupt in service.
pub const CMD_END_OF_INTERRUPT: u8 = 0x20;

/// Operating-mode byte: 8086 mode.
pub const MODE_8086: u8 = 0x01;

/// Cascade byte for the primary: the secondary hangs on line 2.
pub const CASCADE_PRIMARY: u8 = 4;

/// Cascade byte for the secondary: its identity on the primary.
pub const CASCADE_SECONDARY: u8 = 2;

/// Interrupt lines served by one controller.
pub const LINES_PER_PIC: u8 = 8;

/// Vectors below this one belong to processor exceptions.
pub const FIRST_FREE_VECTOR: u8 = 32;

/// One byte sent to one I/O port.
#[derive(Clone, Copy, Debug, PartialEq, Eq, Structural)]
pub struct PortWrite {
    pub port: u16,
    pub value: u8,
}

/// One controller chip: where its lines start and which ports reach it.
#[derive(Clone, Copy, Debug, PartialEq, Eq, Structural)]
pub struct Pic {
    pub offset: u8,
    pub command: u16,
    pub data: u16,
}

/// The base of the secondary controller that goes with a primary base.
pub open spec fn secondary_base(base: int) -> int {
    base + LINES_PER_PIC
}

/// The remap bases a controller pair accepts: clear of the exception
/// vectors, the secondary directly above the primary, all sixteen lines
/// within a byte.
pub open spec fn valid_offsets(offset_1: int, offset_2: int) -> bool {
    &&& FIRST_FREE_VECTOR <= offset_1
    &&& offset_2 == secondary_base(offset_1)
    &&& offset_2 + LINES_PER_PIC <= 256
}

/// The four-byte handshake that initializes one controller.
pub open spec fn handshake(pic: Pic, cascade: u8) -> Seq<PortWrite> {
    seq![
        PortWrite { port: pic.command, value: CMD_INIT },
        PortWrite { port: pic.data, value: pic.offset },
        PortWrite { port: pic.data, value: cascade },
        PortWrite { port: pic.data, value: MODE_8086 },
    ]
}

impl Pic {
    /// Whether `vector` is raised by one of this controller's lines.
    pub open spec fn handles(self, vector: int) -> bool {
        self.offset <= vector < self.offset + LINES_PER_PIC
    }

    /// The write that acknowledges this controller's interrupt in service.
    pub open spec fn acknowledgment(self) -> PortWrite {
        PortWrite { port: self.command, value: CMD_END_OF_INTERRUPT }
    }

    /// Whether `vector` is raised by one of this controller's lines.
    pub fn handles_interrupt(&self, vector: u8) -> (handled: bool)
        ensures
            handled == self.handles(vector as int),
    {
        self.offset <= vector && vector - self.offset < LINES_PER_PIC
    }

    /// The write that acknowledges this controller's interrupt in service.
    pub fn end_of_interrupt(&self) -> (write: PortWrite)
        ensures
            write == self.acknowledgment(),
    {
        PortWrite { port: self.command, value: CMD_END_OF_INTERRUPT }
    }
}

/// What a controller pair is: its two chips and whether `init` has run.
pub struct PicsView {
    pub primary: Pic,
    pub secondary: Pic,
    pub initialized: bool,
}

impl PicsView {
    /// The chips sit on their standard ports and their bases are valid.
    pub open spec fn wf(self) -> bool {
        &&& self.primary.command == PIC_1_COMMAND_PORT
        &&& self.primary.data == PIC_1_DATA_PORT
        &&& self.secondary.command == PIC_2_COMMAND_PORT
        &&& self.secondary.data == PIC_2_DATA_PORT
        &&& valid_offsets(self.primary.offset as int, self.secondary.offset as int)
    }

    /// Whether `vector` is raised by either controller.
    pub open spec fn handles(self, vector: int) -> bool {
        self.primary.handles(vector) || self.secondary.handles(vector)
    }

    /// The writes of `init`: the handshake on the primary, then on the
    /// secondary, then the two saved masks back to the data ports.
    pub open spec fn init_writes(self, primary_mask: u8, secondary_mask: u8) -> Seq<PortWrite> {
        handshake(self.primary, CASCADE_PRIMARY) + handshake(self.secondary, CASCADE_SECONDARY)
            + seq![
            PortWrite { port: self.primary.data, value: primary_mask },
            PortWrite { port: self.secondary.data, value: secondary_mask },
        ]
    }

    /// The writes that acknowledge `vector`: the secondary and then the
    /// primary for a secondary line, the primary alone for one of its own
    /// lines, nothing for a vector that neither controller raises.
    pub open spec fn end_interrupt_writes(self, vector: int) -> Seq<PortWrite> {
        if self.secondary.handles(vector) {
            seq![self.secondary.acknowledgment(), self.primary.acknowledgment()]
        } else if self.primary.handles(vector) {
            seq![self.primary.acknowledgment()]
        } else {
            Seq::empty()
        }
    }
}

/// A cascaded primary/secondary controller pair.
pub struct Pics {
    primary: Pic,
    secondary: Pic,
    initialized: bool,
}

impl View for Pics {
    type V = PicsView;

    closed spec fn view(&self) -> PicsView {
        PicsView {
            primary: self.primary,
            secondary: self.secondary,
            initialized: self.initialized,
        }
    }
}

impl Pics {
    /// The invariant of a controller pair.
    pub open spec fn wf(&self) -> bool {
        self@.wf()
    }

    /// A controller pair with the given remap bases, not yet initialized.
    /// Nothing is sent to the hardware.
    pub fn new(offset_1: usize, offset_2: usize) -> (pics: Pics)
        requires
            valid_offsets(offset_1 as int, offset_2 as int),
        ensures
            pics.wf(),
            pics@.primary.offset == offset_1,
            pics@.secondary.offset == offset_2,
            !pics@.initialized,
    {
        Pics {
            primary: Pic {
                offset: offset_1 as u8,
                command: PIC_1_COMMAND_PORT,
                data: PIC_1_DATA_PORT,
            },
            secondary: Pic {
                offset: offset_2 as u8,
                command: PIC_2_COMMAND_PORT,
                data: PIC_2_DATA_PORT,
            },
            initialized: false,
        }
    }

    /// Initializes both controllers. `primary_mask` and `secondary_mask` are
    /// the interrupt masks read from the two data ports beforehand; they are
    /// written back once the handshakes are through.
    pub fn init(&mut self, primary_mask: u8, secondary_mask: u8) -> (writes: Vec<PortWrite>)
        requires
            old(self).wf(),
            !old(self)@.initialized,
        ensures
            final(self).wf(),
            final(self)@.primary == old(self)@.primary,
            final(self)@.secondary == old(self)@.secondary,
            final(self)@.initialized,
            writes@ == old(self)@.init_writes(primary_mask, secondary_mask),
    {
        let mut writes: Vec<PortWrite> = Vec::new();
        writes.push(PortWrite { port: self.primary.command, value: CMD_INIT });
        writes.push(PortWrite { port: self.primary.data, value: self.primary.offset });
        writes.push(PortWrite { port: self.primary.data, value: CASCADE_PRIMARY });
        writes.push(PortWrite { port: self.primary.data, value: MODE_8086 });
        writes.push(PortWrite { port: self.secondary.command, value: CMD_INIT });
        writes.push(PortWrite { port: self.secondary.data, value: self.secondary.offset });
        writes.push(PortWrite { port: self.secondary.data, value: CASCADE_SECONDARY });
        writes.push(PortWrite { port: self.secondary.data, value: MODE_8086 });
        writes.push(PortWrite { port: self.primary.data, value: primary_mask });
        writes.push(PortWrite { port: self.secondary.data, value: secondary_mask });
        self.initialized = true;
        assert(writes@ =~= old(self)@.init_writes(primary_mask, secondary_mask));
        writes
    }

    /// Whether `vector` is raised by either controller.
    pub fn handles_interrupt(&self, vector: u8) -> (handled: bool)
        ensures
            handled == self@.handles(vector as int),
    {
        self.primary.handles_interrupt(vector) || self.secondary.handles_interrupt(vector)
    }

    /// Acknowledges the interrupt served under `vector`, so that the
    /// controller that raised it can deliver the next one.
    pub fn end_interrupt(&self, vector: u8) -> (writes: Vec<PortWrite>)
        ensures
            writes@ == self@.end_interrupt_writes(vector as int),
    {
        let mut writes: Vec<PortWrite> = Vec::new();
        if self.handles_interrupt(vector) {
            if self.secondary.handles_interrupt(vector) {
                writes.push(self.secondary.end_of_interrupt());
            }
            writes.push(self.primary.end_of_interrupt());
        }
        assert(writes@ =~= self@.end_interrupt_writes(vector as int));
        writes
    }

    /// The primary controller.
    pub fn primary(&self) -> (pic: Pic)
        ensures
            pic == self@.primary,
    {
        self.primary
    }

    /// The secondary controller.
    pub fn secondary(&self) -> (pic: Pic)
        ensures
            pic == self@.secondary,
    {
        self.secondary
    }

    /// Whether `init` has run.
    pub fn is_initialized(&self) -> (initialized: bool)
        ensures
            initialized == self@.initialized,
    {
        self.initialized
    }
}

} // verus!
