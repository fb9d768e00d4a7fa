use boot_rt::exception::{default_handler, Exception, Handler, Handlers, Vector};
use boot_rt::frame::{StackFrame, FRAME_OFFSET, FRAME_SIZE, PC_OFFSET};
use boot_rt::memory::Memory;
use boot_rt::reset::Action;

#[test]
fn the_documented_offsets() {
    assert_eq!(FRAME_OFFSET, 0);
    assert_eq!(FRAME_SIZE, 32);
    assert_eq!(PC_OFFSET, 24);
}

#[test]
fn capture_reads_the_eight_saved_registers() {
    let mut mem = Memory::new(64, 0xCC);
    let sp = 16;
    let words = [0x1000_0000u32, 0x1111_1111, 0x2222_2222, 0x3333_3333, 0xCCCC_000C,
        0xFFFF_FFF9, 0x0800_0246, 0x2100_0000];
    for (i, w) in words.iter().enumerate() {
        mem.write_word(sp + 4 * i, *w);
    }
    let frame = StackFrame::capture(&mem, sp);
    assert_eq!(
        frame,
        Some(StackFrame {
            r0: 0x1000_0000,
            r1: 0x1111_1111,
            r2: 0x2222_2222,
            r3: 0x3333_3333,
            r12: 0xCCCC_000C,
            lr: 0xFFFF_FFF9,
            pc: 0x0800_0246,
            xpsr: 0x2100_0000,
        })
    );
}

#[test]
fn capture_needs_the_whole_frame_inside_the_image() {
    let mem = Memory::new(40, 0);
    assert!(StackFrame::capture(&mem, 8).is_some());
    assert_eq!(StackFrame::capture(&mem, 9), None);
    assert_eq!(StackFrame::capture(&mem, 40), None);
    assert_eq!(StackFrame::capture(&mem, usize::MAX), None);
    assert_eq!(StackFrame::capture(&Memory::new(31, 0), 0), None);
    assert!(StackFrame::capture(&Memory::new(32, 0), 0).is_some());
}

#[test]
fn capture_leaves_memory_alone() {
    let mut mem = Memory::new(48, 3);
    mem.write_word(4, 0xDEAD_BEEF);
    let before = mem.bytes.clone();
    let _ = StackFrame::capture(&mem, 4);
    assert_eq!(mem.bytes, before);
}

#[test]
fn hard_fault_trap_shows_the_faulting_program_counter() {
    let trampoline = Handler::new(0x0800_0101).unwrap();
    let table = Handlers::default_handlers(trampoline).table();
    // the hardware picks the slot of the exception
    let slot = table[Exception::HardFault.index()];
    assert_eq!(slot, Vector::Handler(trampoline));

    // and has pushed the registers at the stack pointer
    let mut stack = Memory::new(256, 0);
    let sp = 200;
    let pc = 0x0800_1F3Eu32;
    stack.write_word(sp + FRAME_OFFSET + PC_OFFSET, pc);
    let frame = StackFrame::capture(&stack, sp).unwrap();
    assert_eq!(frame.pc, pc);
    assert_eq!(frame.r0, 0);
    assert_eq!(frame.xpsr, 0);
    assert_eq!(default_handler(&frame), Action::Halt);
}
