//! What the handlers report, and the text that each report is shown as.

use vstd::prelude::*;
use vstd::string::StringExecFns;
use x86_64::registers::rflags::RFlags;
use x86_64::registers::segmentation::SegmentSelector;
use x86_64::structures::idt::InterruptStackFrame;
use x86_64::VirtAddr;

verus! {

/// The execution context that the processor saves when it enters a handler.
#[derive(Clone, Copy, Debug, PartialEq, Eq, Structural)]
pub struct StackFrame {
    /// Where execution goes on when the handler returns.
    pub instruction_pointer: u64,
    /// The code segment selector at the time of the interrupt.
    pub code_segment: u16,
    /// The flags register at the time of the interrupt.
    pub cpu_flags: u64,
    /// The stack pointer at the time of the interrupt.
    pub stack_pointer: u64,
    /// The stack segment selector at the time of the interrupt.
    pub stack_segment: u16,
}

/// An event that a handler reports on the diagnostic output.
#[derive(Clone, Copy, Debug, PartialEq, Eq, Structural)]
pub enum Diagnostic {
    /// A breakpoint was hit in the given context.
    Breakpoint(StackFrame),
    /// A double fault was raised in the given context.
    DoubleFault(StackFrame),
    /// The timer ticked.
    Tick,
}

/// The text that `x86_64` shows an interrupt stack frame as under `{:#?}`,
/// given the five values that the frame holds.
pub uninterp spec fn frame_debug_text(
    instruction_pointer: u64,
    code_segment: u16,
    cpu_flags: u64,
    stack_pointer: u64,
    stack_segment: u16,
) -> Seq<char>;

/// Formats `x86_64::structures::idt::InterruptStackFrame` with `{:#?}`. The
/// frame is made of the five values of `frame`, each in the type that
/// `x86_64` keeps it in. `VirtAddr` holds canonical addresses only and has
/// no safe constructor that keeps other bits, so an address whose bits 48
/// to 63 do not repeat bit 47 is shown with those bits overwritten.
/// Trusted: the text depends on the five values and on nothing else.
#[verifier::external_body]
fn debug_text(frame: &StackFrame) -> (text: String)
    ensures
        text@ == frame_debug_text(
            frame.instruction_pointer,
            frame.code_segment,
            frame.cpu_flags,
            frame.stack_pointer,
            frame.stack_segment,
        ),
{
    let saved = InterruptStackFrame::new(
        VirtAddr::new_truncate(frame.instruction_pointer),
        SegmentSelector(frame.code_segment),
        RFlags::from_bits_retain(frame.cpu_flags),
        VirtAddr::new_truncate(frame.stack_pointer),
        SegmentSelector(frame.stack_segment),
    );
    format!("{:#?}", saved)
}

/// A heading and, on the line below it, the text of a stack frame.
pub open spec fn headed(heading: Seq<char>, frame_text: Seq<char>) -> Seq<char> {
    heading + seq!['\n'] + frame_text
}

/// Puts `frame_text` on the line below `heading`.
pub fn compose(heading: &str, frame_text: &str) -> (text: String)
    ensures
        text@ == headed(heading@, frame_text@),
{
    let mut text: String = String::from_str(heading);
    text.append("\n");
    text.append(frame_text);
    proof {
        reveal_strlit("\n");
        assert("\n"@ =~= seq!['\n']);
    }
    text
}

impl StackFrame {
    /// The text that the frame is shown as.
    pub open spec fn debug_text(self) -> Seq<char> {
        frame_debug_text(
            self.instruction_pointer,
            self.code_segment,
            self.cpu_flags,
            self.stack_pointer,
            self.stack_segment,
        )
    }
}

impl Diagnostic {
    /// The context that the report carries, if it carries one.
    pub open spec fn frame(self) -> Option<StackFrame> {
        match self {
            Diagnostic::Breakpoint(frame) => Some(frame),
            Diagnostic::DoubleFault(frame) => Some(frame),
            Diagnostic::Tick => None,
        }
    }

    /// The text that the report is shown as. A breakpoint report is a
    /// line of its own, so it ends with a line feed; the text of a double
    /// fault is the last thing shown, and a tick is a mark on the current
    /// line.
    pub open spec fn text(self) -> Seq<char> {
        match self {
            Diagnostic::Breakpoint(frame) => headed("Breakpoint:"@, frame.debug_text())
                + seq!['\n'],
            Diagnostic::DoubleFault(frame) => headed("Double fault:"@, frame.debug_text()),
            Diagnostic::Tick => "."@,
        }
    }

    /// The context that the report carries, if it carries one.
    pub fn stack_frame(&self) -> (frame: Option<StackFrame>)
        ensures
            frame == self.frame(),
    {
        match self {
            Diagnostic::Breakpoint(frame) => Some(*frame),
            Diagnostic::DoubleFault(frame) => Some(*frame),
            Diagnostic::Tick => None,
        }
    }

    /// The text to put on the diagnostic output for this report. The two
    /// addresses of a saved context are shown in canonical form.
    pub fn render(&self) -> (text: String)
        ensures
            text@ == self.text(),
    {
        match self {
            Diagnostic::Breakpoint(frame) => {
                let frame_text: String = debug_text(frame);
                let mut text: String = compose("Breakpoint:", frame_text.as_str());
                text.append("\n");
                proof {
                    reveal_strlit("\n");
                    assert("\n"@ =~= seq!['\n']);
                }
                text
            },
            Diagnostic::DoubleFault(frame) => {
                let frame_text: String = debug_text(frame);
                compose("Double fault:", frame_text.as_str())
            },
            Diagnostic::Tick => String::from_str("."),
        }
    }
}

} // verus!
