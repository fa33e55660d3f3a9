//! The execution engine: the state of the machine and the elementary operations on it.

use crate::fonts::{glyph_address, write_fonts};
use crate::keypad::Keypad;
use crate::machine::{Machine, MEMORY_SIZE, PROGRAM_START, STACK_DEPTH};
use crate::opcode::OpCode;
use crate::outcome::{Fault, FaultKind, Outcome};
use crate::random::random_byte;
use crate::screen::{blank_grid, Screen};
use rand::rngs::ThreadRng;
use vstd::prelude::*;
use vstd::slice::slice_subrange;

verus! {

/// The machine: memory, registers, call stack, timers, display buffer and keypad,
/// together with the source of random bytes.
pub struct Emulator {
    memory: [u8; 4096],
    pc: u16,
    ip: u16,  // index pointer
    dt: u8,  // delay timer
    st: u8,  // sound timer
    vx: [u8; 16],  // general-purpose register
    sp: u8,  // stack pointer
    stack: [u16; 16],
    screen: Screen,
    keypad: Keypad,
    fonts_map: [u16; 16],
    rnd_gen: ThreadRng,
}

impl View for Emulator {
    type V = Machine;

    /// The state of the machine. Of the stack only the part below the stack pointer
    /// counts; the random source is no part of the state.
    closed spec fn view(&self) -> Machine {
        Machine {
            memory: self.memory@,
            regs: self.vx@,
            index: self.ip,
            pc: self.pc,
            stack: self.stack@.take(self.sp as int),
            delay: self.dt,
            sound: self.st,
            screen: self.screen@,
            keys: self.keypad@,
        }
    }
}

impl Emulator {
    /// The stack pointer is within the stack, and the glyph table is intact.
    pub closed spec fn wf(&self) -> bool {
        &&& self.sp <= STACK_DEPTH
        &&& forall|digit: int| 0 <= digit < 16 ==> self.fonts_map[digit] == glyph_address(digit)
    }

    /// The state of a well-formed machine is well formed.
    pub proof fn lemma_view_wf(&self)
        requires
            self.wf(),
        ensures
            self@.wf(),
    {
        self.screen.lemma_view_wf();
        self.keypad.lemma_view_len();
    }

    /// A machine that was just switched on: fonts in memory, the program counter at
    /// `0x200`, everything else zero, blank or empty.
    pub fn new() -> (machine: Self)
        ensures
            machine.wf(),
            machine@ == Machine::initial(),
    {
        let mut memory: [u8; 4096] = [0;4096];
        let fonts_map = write_fonts(&mut memory);

        let machine = Self {
            memory,
            pc: 0x200,
            ip: 0,
            dt: 0,
            st: 0,
            vx: [0;16],
            sp: 0,
            stack: [0;16],
            screen: Screen::new(),
            keypad: Keypad::new(),
            fonts_map,
            rnd_gen: rand::thread_rng(),
        };
        assert(machine@ =~= Machine::initial());
        machine
    }

    /// Copies the program `rom` to memory from address `0x200` on. A program that does
    /// not fit is refused, and memory stays as it was.
    pub fn load_rom(&mut self, rom: &[u8]) -> (result: Result<(), Fault>)
        requires
            old(self).wf(),
        ensures
            final(self).wf(),
            PROGRAM_START + rom@.len() <= MEMORY_SIZE ==> result == Ok::<(), Fault>(())
                && final(self)@ == old(self)@.load(rom@),
            PROGRAM_START + rom@.len() > MEMORY_SIZE ==> result == Err::<(), Fault>(
                Fault::ProgramTooLarge { len: rom.len() },
            ) && final(self)@ == old(self)@,
    {
        if rom.len() > 4096 - 0x200 {
            return Err(Fault::ProgramTooLarge { len: rom.len() });
        }
        let mut i: usize = 0;
        while i < rom.len()
            invariant
                i <= rom.len(),
                rom.len() <= 4096 - 0x200,
                self.wf(),
                self@ == (Machine {
                    memory: Seq::new(
                        MEMORY_SIZE as nat,
                        |addr: int|
                            if PROGRAM_START <= addr < PROGRAM_START + i {
                                rom@[addr - PROGRAM_START]
                            } else {
                                old(self)@.memory[addr]
                            },
                    ),
                    ..old(self)@
                }),
            decreases rom.len() - i,
        {
            self.memory[0x200 + i] = rom[i];
            i += 1;
        }
        assert(self@ =~= old(self)@.load(rom@));
        Ok(())
    }

    /// Counts the timers down once: each timer that is not zero goes down by one.
    pub fn tick_timers(&mut self)
        requires
            old(self).wf(),
        ensures
            final(self).wf(),
            final(self)@ == old(self)@.tick(),
    {
        if self.dt > 0 {
            self.dt -= 1;
        }
        if self.st > 0 {
            self.st -= 1;
        }
    }

    /// Records that `key` went down (`pressed`) or up.
    pub fn set_key(&mut self, key: u8, pressed: bool)
        requires
            old(self).wf(),
            key < 16,
        ensures
            final(self).wf(),
            final(self)@ == (Machine {
                keys: old(self)@.keys.update(key as int, pressed),
                ..old(self)@
            }),
    {
        self.keypad.set_key(key, pressed);
    }

    /// The program counter.
    pub fn pc(&self) -> (pc: u16)
        ensures
            pc == self@.pc,
    {
        self.pc
    }

    /// The index register.
    pub fn index(&self) -> (index: u16)
        ensures
            index == self@.index,
    {
        self.ip
    }

    /// The value of register `x`.
    pub fn register(&self, x: u8) -> (value: u8)
        requires
            x < 16,
        ensures
            value == self@.regs[x as int],
    {
        self.vx[x as usize]
    }

    /// The delay timer.
    pub fn delay_timer(&self) -> (value: u8)
        ensures
            value == self@.delay,
    {
        self.dt
    }

    /// The sound timer.
    pub fn sound_timer(&self) -> (value: u8)
        ensures
            value == self@.sound,
    {
        self.st
    }

    /// The number of calls that have not returned.
    pub fn stack_depth(&self) -> (depth: usize)
        requires
            self.wf(),
        ensures
            depth == self@.stack.len(),
    {
        self.sp as usize
    }

    /// The byte of memory at `addr`.
    pub fn memory_at(&self, addr: usize) -> (byte: u8)
        requires
            addr < MEMORY_SIZE,
        ensures
            byte == self@.memory[addr as int],
    {
        self.memory[addr]
    }

    /// The display buffer.
    pub fn screen(&self) -> (screen: &Screen)
        ensures
            screen@ == self@.screen,
    {
        &self.screen
    }

    /// The keypad.
    pub fn keypad(&self) -> (keypad: &Keypad)
        ensures
            keypad@ == self@.keys,
    {
        &self.keypad
    }

    /// Whether the instruction at the program counter is `CXNN`, which takes a random
    /// byte.
    pub fn draws_random(&self) -> (draws: bool)
        requires
            self.wf(),
        ensures
            draws == self@.draws_random(),
    {
        let pc: usize = self.pc as usize;
        if pc + 1 >= 4096 {
            return false;
        }
        let byte0: u8 = self.memory[pc];
        assert((byte0 & 0xF0) >> 4 == byte0 >> 4) by (bit_vector);
        (byte0 & 0xF0) >> 4 == 0xC
    }

    /// Reads the instruction at the program counter and moves the program counter past
    /// it.
    pub(crate) fn fetch_opcode(&mut self) -> (result: Result<OpCode, Fault>)
        requires
            old(self).wf(),
        ensures
            final(self).wf(),
            old(self)@.can_fetch() ==> result == Ok::<OpCode, Fault>(old(self)@.fetched())
                && old(self)@.fetched().wf() && final(self)@ == old(self)@.jump(
                (old(self)@.pc + 2) as u16,
            ),
            !old(self)@.can_fetch() ==> result == Err::<OpCode, Fault>(
                Fault::Fetch { pc: old(self)@.pc },
            ) && final(self)@ == old(self)@,
    {
        if self.pc as usize + 1 >= 4096 {
            return Err(Fault::Fetch { pc: self.pc });
        }
        let b0: u8 = self.memory[self.pc as usize];
        let b1: u8 = self.memory[self.pc as usize + 1];
        self.inc_pc();
        Ok(OpCode::new(b0, b1))
    }

    /// Moves the program counter past one instruction.
    pub(crate) fn inc_pc(&mut self)
        requires
            old(self).wf(),
        ensures
            final(self).wf(),
            final(self)@ == old(self)@.skip_if(true),
    {
        self.pc = self.pc.wrapping_add(2);
    }

    /// Sets the program counter to `target`.
    pub(crate) fn jump(&mut self, target: u16)
        requires
            old(self).wf(),
        ensures
            final(self).wf(),
            final(self)@ == old(self)@.jump(target),
    {
        self.pc = target;
    }

    /// Calls the subroutine at `nnn`: the program counter goes on the stack as the
    /// return address.
    pub(crate) fn call(&mut self, nnn: u16) -> (result: Result<Outcome, FaultKind>)
        requires
            old(self).wf(),
        ensures
            final(self).wf(),
            old(self)@.stack.len() >= STACK_DEPTH ==> final(self)@ == old(self)@ && result == Err::<
                Outcome,
                FaultKind,
            >(FaultKind::StackOverflow),
            old(self)@.stack.len() < STACK_DEPTH ==> final(self)@ == (Machine {
                pc: nnn,
                stack: old(self)@.stack.push(old(self)@.pc),
                ..old(self)@
            }) && result == Ok::<Outcome, FaultKind>(Outcome::Continue),
    {
        if self.sp >= 16 {
            return Err(FaultKind::StackOverflow);
        }
        self.stack[self.sp as usize] = self.pc;
        self.sp += 1;
        self.pc = nnn;
        assert(self@.stack =~= old(self)@.stack.push(old(self)@.pc));
        Ok(Outcome::Continue)
    }

    /// Returns from a subroutine: the program counter goes back to the latest return
    /// address, which leaves the stack.
    pub(crate) fn ret(&mut self) -> (result: Result<Outcome, FaultKind>)
        requires
            old(self).wf(),
        ensures
            final(self).wf(),
            old(self)@.stack.len() == 0 ==> final(self)@ == old(self)@ && result == Err::<
                Outcome,
                FaultKind,
            >(FaultKind::StackUnderflow),
            old(self)@.stack.len() > 0 ==> final(self)@ == (Machine {
                pc: old(self)@.stack.last(),
                stack: old(self)@.stack.drop_last(),
                ..old(self)@
            }) && result == Ok::<Outcome, FaultKind>(Outcome::Continue),
    {
        if self.sp == 0 {
            return Err(FaultKind::StackUnderflow);
        }
        self.sp -= 1;
        self.pc = self.stack[self.sp as usize];
        assert(self@.stack =~= old(self)@.stack.drop_last());
        Ok(Outcome::Continue)
    }

    /// Writes `value` to register `x`.
    pub(crate) fn set_register(&mut self, x: u8, value: u8)
        requires
            old(self).wf(),
            x < 16,
        ensures
            final(self).wf(),
            final(self)@ == old(self)@.set_reg(x as int, value),
    {
        self.vx[x as usize] = value;
    }

    /// Sets the index register to `value`.
    pub(crate) fn set_index(&mut self, value: u16)
        requires
            old(self).wf(),
        ensures
            final(self).wf(),
            final(self)@ == (Machine { index: value, ..old(self)@ }),
    {
        self.ip = value;
    }

    /// Sets the delay timer to `value`.
    pub(crate) fn set_delay(&mut self, value: u8)
        requires
            old(self).wf(),
        ensures
            final(self).wf(),
            final(self)@ == (Machine { delay: value, ..old(self)@ }),
    {
        self.dt = value;
    }

    /// Sets the sound timer to `value`.
    pub(crate) fn set_sound(&mut self, value: u8)
        requires
            old(self).wf(),
        ensures
            final(self).wf(),
            final(self)@ == (Machine { sound: value, ..old(self)@ }),
    {
        self.st = value;
    }

    /// Points the index register to the glyph of `digit`.
    pub(crate) fn point_to_glyph(&mut self, digit: u8)
        requires
            old(self).wf(),
            digit < 16,
        ensures
            final(self).wf(),
            final(self)@ == (Machine {
                index: glyph_address(digit as int) as u16,
                ..old(self)@
            }),
    {
        self.ip = self.fonts_map[digit as usize];
    }

    /// Turns every pixel of the display off.
    pub(crate) fn clear_screen(&mut self)
        requires
            old(self).wf(),
        ensures
            final(self).wf(),
            final(self)@ == (Machine { screen: blank_grid(), ..old(self)@ }),
    {
        self.screen.clear();
    }

    /// Draws the `n` bytes of memory at the index register as a sprite at the position
    /// given by registers `x` and `y`, and records the collision in the flag register.
    pub(crate) fn _dxyn(&mut self, x: u8, y: u8, n: u8) -> (result: Result<Outcome, FaultKind>)
        requires
            old(self).wf(),
            x < 16,
            y < 16,
        ensures
            final(self).wf(),
            match old(self)@.draw(x as int, y as int, n as int) {
                Ok((next, outcome)) => final(self)@ == next && result == Ok::<Outcome, FaultKind>(
                    outcome,
                ),
                Err(kind) => final(self)@ == old(self)@ && result == Err::<Outcome, FaultKind>(
                    kind,
                ),
            },
    {
        let vx: u8 = self.vx[x as usize];
        let vy: u8 = self.vx[y as usize];
        let idx: usize = self.ip as usize;
        if idx + n as usize > 4096 {
            return Err(FaultKind::MemoryOutOfBounds);
        }
        let sprite = slice_subrange(self.memory.as_slice(), idx, idx + n as usize);
        let collision = self.screen.draw_sprite(vx, vy, sprite);
        self.set_register(0xF, flag_value(collision));
        proof {
            let expected = old(self)@.draw(x as int, y as int, n as int);
            assert(self@ =~= expected->Ok_0.0);
        }
        Ok(Outcome::Redraw)
    }

    /// Stores the hundreds, tens and units of register `x` in the three bytes of memory
    /// from the index register on.
    pub(crate) fn store_decimal(&mut self, x: u8) -> (result: Result<Outcome, FaultKind>)
        requires
            old(self).wf(),
            x < 16,
        ensures
            final(self).wf(),
            match old(self)@.store_decimal(x as int) {
                Ok((next, outcome)) => final(self)@ == next && result == Ok::<Outcome, FaultKind>(
                    outcome,
                ),
                Err(kind) => final(self)@ == old(self)@ && result == Err::<Outcome, FaultKind>(
                    kind,
                ),
            },
    {
        if self.ip as usize + 2 >= 4096 {
            return Err(FaultKind::MemoryOutOfBounds);
        }
        self.memory[self.ip as usize] = self.vx[x as usize] / 100;
        self.memory[self.ip as usize + 1] = (self.vx[x as usize] / 10) % 10;
        self.memory[self.ip as usize + 2] = self.vx[x as usize] % 10;
        Ok(Outcome::Continue)
    }

    /// Stores registers 0 to `x` in memory from the index register on.
    pub(crate) fn store_registers(&mut self, x: u8) -> (result: Result<Outcome, FaultKind>)
        requires
            old(self).wf(),
            x < 16,
        ensures
            final(self).wf(),
            match old(self)@.store_registers(x as int) {
                Ok((next, outcome)) => final(self)@ == next && result == Ok::<Outcome, FaultKind>(
                    outcome,
                ),
                Err(kind) => final(self)@ == old(self)@ && result == Err::<Outcome, FaultKind>(
                    kind,
                ),
            },
    {
        if self.ip as usize + x as usize >= 4096 {
            return Err(FaultKind::MemoryOutOfBounds);
        }
        let mut i: usize = 0;
        while i < x as usize + 1
            invariant
                x < 16,
                i <= x + 1,
                self.ip + x < MEMORY_SIZE,
                self.wf(),
                self@ == (Machine {
                    memory: Seq::new(
                        MEMORY_SIZE as nat,
                        |addr: int|
                            if self.ip <= addr < self.ip + i {
                                self.vx[addr - self.ip]
                            } else {
                                old(self)@.memory[addr]
                            },
                    ),
                    ..old(self)@
                }),
            decreases x + 1 - i,
        {
            self.memory[self.ip as usize + i] = self.vx[i];
            i += 1;
        }
        proof {
            let expected = old(self)@.store_registers(x as int);
            assert(self@ =~= expected->Ok_0.0);
        }
        Ok(Outcome::Continue)
    }

    /// Reads registers 0 to `x` from memory from the index register on.
    pub(crate) fn load_registers(&mut self, x: u8) -> (result: Result<Outcome, FaultKind>)
        requires
            old(self).wf(),
            x < 16,
        ensures
            final(self).wf(),
            match old(self)@.load_registers(x as int) {
                Ok((next, outcome)) => final(self)@ == next && result == Ok::<Outcome, FaultKind>(
                    outcome,
                ),
                Err(kind) => final(self)@ == old(self)@ && result == Err::<Outcome, FaultKind>(
                    kind,
                ),
            },
    {
        if self.ip as usize + x as usize >= 4096 {
            return Err(FaultKind::MemoryOutOfBounds);
        }
        let mut i: usize = 0;
        while i < x as usize + 1
            invariant
                x < 16,
                i <= x + 1,
                self.ip + x < MEMORY_SIZE,
                self.wf(),
                self@ == (Machine {
                    regs: Seq::new(
                        16,
                        |r: int|
                            if r < i {
                                self.memory[self.ip + r]
                            } else {
                                old(self)@.regs[r]
                            },
                    ),
                    ..old(self)@
                }),
            decreases x + 1 - i,
        {
            self.vx[i] = self.memory[self.ip as usize + i];
            i += 1;
        }
        proof {
            let expected = old(self)@.load_registers(x as int);
            assert(self@ =~= expected->Ok_0.0);
        }
        Ok(Outcome::Continue)
    }

    /// Takes a byte from the random source. The state of the machine stays as it is.
    pub(crate) fn next_random(&mut self) -> (byte: u8)
        requires
            old(self).wf(),
        ensures
            final(self).wf(),
            final(self)@ == old(self)@,
    {
        random_byte(&mut self.rnd_gen)
    }
}

/// The value that the flag register takes for a condition: 1 if it holds, else 0.
pub(crate) fn flag_value(on: bool) -> (value: u8)
    ensures
        value == (if on {
            1u8
        } else {
            0u8
        }),
{
    if on {
        1
    } else {
        0
    }
}

} // verus!
