//! What a cycle of the machine reports to its driver.

use vstd::prelude::*;

verus! {

/// How a cycle that ran without a fault ended.
#[derive(Clone, Copy, Debug, PartialEq, Eq, Structural)]
pub enum Outcome {
    /// The instruction was carried out; nothing is asked of the driver.
    Continue,
    /// A sprite was drawn: the display buffer should be shown.
    Redraw,
    /// The instruction waits for a key and none is pressed: it will run again in the
    /// next cycle, and the driver may wait for input before that.
    WaitingForKey,
}

/// Why an instruction could not be carried out.
#[derive(Clone, Copy, Debug, PartialEq, Eq, Structural)]
pub enum FaultKind {
    /// The decoded fields match no instruction of the repertoire.
    UnknownInstruction,
    /// A call was made with sixteen return addresses already on the stack.
    StackOverflow,
    /// A return was made with no return address on the stack.
    StackUnderflow,
    /// The instruction would read or write memory beyond address `0xFFF`.
    MemoryOutOfBounds,
    /// The register that names a key or a font glyph holds a value above `0xF`.
    InvalidDigit,
}

/// A fault: the machine is left as it was, and the driver decides how to go on.
#[derive(Clone, Copy, Debug, PartialEq, Eq, Structural)]
pub enum Fault {
    /// The instruction word at `pc` does not lie within memory.
    Fetch { pc: u16 },
    /// The instruction at `pc`, made of the bytes `byte0` and `byte1`, failed.
    Execute { pc: u16, byte0: u8, byte1: u8, kind: FaultKind },
    /// A program of `len` bytes does not fit between address `0x200` and the end of memory.
    ProgramTooLarge { len: usize },
}

} // verus!
