//! The registers that the processor saves on the stack when it takes an
//! exception, and how they are found again from the stack pointer.

use vstd::prelude::*;
use crate::memory::{word_at, Memory};

verus! {

/// Distance in bytes from the stack pointer at exception entry to the saved
/// registers. The entry stub uses no stack of its own, so the registers
/// start where the stack pointer points.
pub const FRAME_OFFSET: usize = 0;

/// Size in bytes of the saved registers: eight words.
pub const FRAME_SIZE: usize = 32;

/// Distance in bytes from the start of the saved registers to the saved
/// program counter.
pub const PC_OFFSET: usize = 24;

/// The registers saved at exception entry, in the order in which they lie
/// in memory, lowest address first.
#[derive(Clone, Copy, Debug, PartialEq, Eq, Structural)]
pub struct StackFrame {
    pub r0: u32,
    pub r1: u32,
    pub r2: u32,
    pub r3: u32,
    pub r12: u32,
    /// Link register.
    pub lr: u32,
    /// Program counter at the moment of the exception.
    pub pc: u32,
    /// Program status register.
    pub xpsr: u32,
}

/// Whether the registers saved for the stack pointer `sp` lie inside an
/// image of `len` bytes.
pub open spec fn frame_inside(len: int, sp: int) -> bool {
    sp + FRAME_OFFSET + FRAME_SIZE <= len
}

/// The saved registers as the image `m` holds them for the stack pointer
/// `sp`.
pub open spec fn frame_at(m: Seq<u8>, sp: int) -> StackFrame {
    let base = sp + FRAME_OFFSET;
    StackFrame {
        r0: word_at(m, base) as u32,
        r1: word_at(m, base + 4) as u32,
        r2: word_at(m, base + 8) as u32,
        r3: word_at(m, base + 12) as u32,
        r12: word_at(m, base + 16) as u32,
        lr: word_at(m, base + 20) as u32,
        pc: word_at(m, base + PC_OFFSET) as u32,
        xpsr: word_at(m, base + 28) as u32,
    }
}

impl StackFrame {
    /// Reads the saved registers for the stack pointer `sp`. The stack
    /// pointer is only read: the address is computed from a copy. Gives
    /// `None` exactly where the registers would not lie inside the image.
    pub fn capture(mem: &Memory, sp: usize) -> (frame: Option<StackFrame>)
        ensures
            frame == if frame_inside(mem@.len() as int, sp as int) {
                Some(frame_at(mem@, sp as int))
            } else {
                None
            },
    {
        let len: usize = mem.len();
        if len < FRAME_OFFSET + FRAME_SIZE || sp > len - (FRAME_OFFSET + FRAME_SIZE) {
            return None;
        }
        let base: usize = sp + FRAME_OFFSET;
        Some(
            StackFrame {
                r0: mem.read_word(base),
                r1: mem.read_word(base + 4),
                r2: mem.read_word(base + 8),
                r3: mem.read_word(base + 12),
                r12: mem.read_word(base + 16),
                lr: mem.read_word(base + 20),
                pc: mem.read_word(base + PC_OFFSET),
                xpsr: mem.read_word(base + 28),
            },
        )
    }
}

} // verus!
