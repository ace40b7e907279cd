use interruptions::report::compose;
use interruptions::report::Diagnostic;
use interruptions::report::StackFrame;
use x86_64::registers::rflags::RFlags;
use x86_64::registers::segmentation::SegmentSelector;
use x86_64::structures::idt::InterruptStackFrame;
use x86_64::VirtAddr;

fn frame() -> StackFrame {
    StackFrame {
        instruction_pointer: 0x40_1a2b,
        code_segment: 8,
        cpu_flags: 0x202,
        stack_pointer: 0x7fff_ffff_e000,
        stack_segment: 0,
    }
}

fn shown_by_the_crate(frame: &StackFrame) -> String {
    let saved = InterruptStackFrame::new(
        VirtAddr::new(frame.instruction_pointer),
        SegmentSelector(frame.code_segment),
        RFlags::from_bits_retain(frame.cpu_flags),
        VirtAddr::new(frame.stack_pointer),
        SegmentSelector(frame.stack_segment),
    );
    format!("{:#?}", saved)
}

#[test]
fn compose_puts_the_frame_below_the_heading() {
    assert_eq!(compose("Breakpoint:", "frame"), "Breakpoint:\nframe");
    assert_eq!(compose("", ""), "\n");
    assert_eq!(compose("a", ""), "a\n");
    assert_eq!(compose("", "b\nc"), "\nb\nc");
}

#[test]
fn tick_is_a_single_dot() {
    assert_eq!(Diagnostic::Tick.render(), ".");
    assert_eq!(Diagnostic::Tick.stack_frame(), None);
}

#[test]
fn breakpoint_report_shows_the_frame_under_its_heading() {
    let frame = frame();
    let text = Diagnostic::Breakpoint(frame).render();
    assert_eq!(text, format!("Breakpoint:\n{}\n", shown_by_the_crate(&frame)));
    assert!(text.starts_with("Breakpoint:\nInterruptStackFrame {"));
    assert!(text.ends_with("}\n"));
    assert!(!text.ends_with("\n\n"));
    assert!(text.contains("instruction_pointer"));
    assert!(text.contains("0x401a2b"));
    assert!(text.contains("stack_pointer"));
    assert!(text.contains("0x7fffffffe000"));
    assert!(text.contains("INTERRUPT_FLAG"));
    assert_eq!(Diagnostic::Breakpoint(frame).stack_frame(), Some(frame));
}

#[test]
fn double_fault_report_shows_the_frame_under_its_heading() {
    let frame = frame();
    let text = Diagnostic::DoubleFault(frame).render();
    assert_eq!(text, format!("Double fault:\n{}", shown_by_the_crate(&frame)));
    assert!(text.ends_with("}"));
    assert!(text.contains("0x401a2b"));
    assert!(text.contains("0x7fffffffe000"));
    assert_eq!(Diagnostic::DoubleFault(frame).stack_frame(), Some(frame));
}

#[test]
fn reports_of_different_frames_differ() {
    let first = frame();
    let second = StackFrame { instruction_pointer: 0x40_2000, ..first };
    let third = StackFrame { stack_pointer: 0x7fff_ffff_d000, ..first };
    let fourth = StackFrame { cpu_flags: 0x2, ..first };
    let fifth = StackFrame { code_segment: 0x1b, stack_segment: 0x23, ..first };
    let texts = [
        Diagnostic::Breakpoint(first).render(),
        Diagnostic::Breakpoint(second).render(),
        Diagnostic::Breakpoint(third).render(),
        Diagnostic::Breakpoint(fourth).render(),
        Diagnostic::Breakpoint(fifth).render(),
    ];
    for i in 0..texts.len() {
        for j in 0..texts.len() {
            if i != j {
                assert_ne!(texts[i], texts[j]);
            }
        }
    }
    assert!(texts[1].contains("0x402000"));
    assert!(texts[4].contains("Ring3"));
}

#[test]
fn the_same_frame_is_always_shown_the_same() {
    let frame = frame();
    assert_eq!(
        Diagnostic::Breakpoint(frame).render(),
        Diagnostic::Breakpoint(frame).render()
    );
}

#[test]
fn an_address_with_stray_high_bits_is_shown_canonical() {
    let stray = StackFrame { instruction_pointer: 0x0001_0000_0040_1a2b, ..frame() };
    let text = Diagnostic::Breakpoint(stray).render();
    assert_eq!(text, Diagnostic::Breakpoint(frame()).render());
}

#[test]
fn breakpoint_report_is_one_character_longer_than_its_heading_and_frame() {
    let frame = frame();
    let text = Diagnostic::Breakpoint(frame).render();
    let heading_and_frame = compose("Breakpoint:", &shown_by_the_crate(&frame));
    assert_eq!(text.chars().count(), heading_and_frame.chars().count() + 1);
    assert_eq!(text, format!("{}\n", heading_and_frame));
}

#[test]
fn a_tick_after_a_breakpoint_starts_a_new_line() {
    let frame = frame();
    let mut output = String::new();
    output.push_str(&Diagnostic::Breakpoint(frame).render());
    output.push_str(&Diagnostic::Tick.render());
    output.push_str(&Diagnostic::Tick.render());
    assert!(output.ends_with("}\n.."));
    assert_eq!(output.lines().last(), Some(".."));
}
