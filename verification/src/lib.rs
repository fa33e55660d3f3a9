//! A CHIP-8 virtual machine with verified contracts.
//!
//! The machine has 4096 bytes of memory, sixteen 8-bit registers, a 16-bit index register
//! and program counter, a call stack of sixteen return addresses, two timers, a 64 by 32
//! monochrome display and a keypad of sixteen keys.
//!
//! - [`bit`] reads single bits of a byte.
//! - [`opcode`] decodes two bytes into the fields of an instruction.
//! - [`keypad`] holds the state of the keys.
//! - [`screen`] holds the display buffer, and [`sprite`] draws sprites on it by XOR, with
//!   wraparound and collision detection.
//! - [`fonts`] holds the glyphs of the hexadecimal digits.
//! - [`machine`] describes the state of the machine as a mathematical value and defines
//!   what every instruction and a whole cycle do to it; its proof functions state the
//!   laws that follow.
//! - [`emulator`] is the machine itself, and [`execute`] runs instructions and cycles on
//!   it, each function proved to do what [`machine`] defines.
//! - [`outcome`] lists what a cycle reports: how it ended, or the fault.
//! - [`random`] is the source of the random byte of the instruction `CXNN`.
//!
//! A driver loads a program with `Emulator::load_rom`, calls `Emulator::cycle` again and
//! again, shows the display when a cycle reports `Outcome::Redraw`, records key presses
//! with `Emulator::set_key` between cycles, and counts the timers down with
//! `Emulator::tick_timers` at its own pace.

pub mod bit;
pub mod emulator;
pub mod execute;
pub mod fonts;
pub mod keypad;
pub mod machine;
pub mod opcode;
pub mod outcome;
pub mod random;
pub mod screen;
pub mod sprite;
