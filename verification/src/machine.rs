//! The machine as a mathematical value, and what each instruction does to it.

use crate::fonts::{glyph_address, with_fonts};
use crate::keypad::{lowest_pressed, KEY_COUNT};
use crate::opcode::OpCode;
use crate::outcome::{Fault, FaultKind, Outcome};
use crate::screen::{blank_grid, grid_wf};
use crate::sprite::draw_rows;
use vstd::prelude::*;

verus! {

/// Number of bytes of memory: addresses run from `0x000` to `0xFFF`.
pub const MEMORY_SIZE: usize = 4096;

/// The address at which programs are loaded and at which execution starts.
pub const PROGRAM_START: u16 = 0x200;

/// Number of return addresses that the call stack can hold.
pub const STACK_DEPTH: usize = 16;

/// Number of general-purpose registers.
pub const REGISTER_COUNT: usize = 16;

/// The register that instructions use for carry, borrow and collision flags.
pub const FLAG_REGISTER: usize = 0xF;

/// The whole state of the machine.
#[verifier::ext_equal]
pub struct Machine {
    /// The 4096 bytes of memory.
    pub memory: Seq<u8>,
    /// The sixteen general-purpose registers.
    pub regs: Seq<u8>,
    /// The index register.
    pub index: u16,
    /// The program counter.
    pub pc: u16,
    /// The return addresses of the calls that have not returned, the latest last.
    pub stack: Seq<u16>,
    /// The delay timer.
    pub delay: u8,
    /// The sound timer.
    pub sound: u8,
    /// The display buffer, as rows of columns.
    pub screen: Seq<Seq<bool>>,
    /// The pressed flags of the sixteen keys.
    pub keys: Seq<bool>,
}

/// Whether the fields of `op` match an instruction of the repertoire.
pub open spec fn recognized(op: OpCode) -> bool {
    let OpCode(family, x, y, n, _, _) = op;
    if family == 0x0 {
        x == 0 && y == 0xE && (n == 0x0 || n == 0xE)
    } else if family == 0x5 || family == 0x9 {
        n == 0
    } else if family == 0x8 {
        n <= 7 || n == 0xE
    } else if family == 0xE {
        (y == 0x9 && n == 0xE) || (y == 0xA && n == 0x1)
    } else if family == 0xF {
        ||| (y == 0 && (n == 0x7 || n == 0xA))
        ||| (y == 1 && (n == 0x5 || n == 0x8 || n == 0xE))
        ||| (y == 2 && n == 0x9)
        ||| (y == 3 && n == 0x3)
        ||| (y == 5 && n == 0x5)
        ||| (y == 6 && n == 0x5)
    } else {
        family <= 0xD
    }
}

/// `value` reduced to eight bits.
pub open spec fn wrap8(value: int) -> u8 {
    (value % 256) as u8
}

/// `value` reduced to sixteen bits.
pub open spec fn wrap16(value: int) -> u16 {
    (value % 65536) as u16
}

/// A machine that goes on to the next instruction.
pub open spec fn proceed(next: Machine) -> Result<(Machine, Outcome), FaultKind> {
    Ok((next, Outcome::Continue))
}

impl Machine {
    /// Every part of the state has its fixed size, and the stack is no deeper than its
    /// capacity.
    pub open spec fn wf(self) -> bool {
        &&& self.memory.len() == MEMORY_SIZE
        &&& self.regs.len() == REGISTER_COUNT
        &&& self.stack.len() <= STACK_DEPTH
        &&& grid_wf(self.screen)
        &&& self.keys.len() == KEY_COUNT
    }

    /// The machine as it is switched on: the font atlas at the start of an otherwise zero
    /// memory, the program counter at `0x200`, an empty stack, a blank screen, no key
    /// pressed, and zero everywhere else.
    pub open spec fn initial() -> Machine {
        Machine {
            memory: with_fonts(Seq::new(MEMORY_SIZE as nat, |addr: int| 0u8)),
            regs: Seq::new(REGISTER_COUNT as nat, |i: int| 0u8),
            index: 0,
            pc: PROGRAM_START,
            stack: Seq::empty(),
            delay: 0,
            sound: 0,
            screen: blank_grid(),
            keys: Seq::new(KEY_COUNT as nat, |key: int| false),
        }
    }

    /// The machine with register `x` set to `value`.
    pub open spec fn set_reg(self, x: int, value: u8) -> Machine {
        Machine { regs: self.regs.update(x, value), ..self }
    }

    /// The machine with the flag register set to 1 if `on`, to 0 otherwise.
    pub open spec fn set_flag(self, on: bool) -> Machine {
        self.set_reg(
            FLAG_REGISTER as int,
            if on {
                1u8
            } else {
                0u8
            },
        )
    }

    /// The machine with the program counter moved past one more instruction if `skip`.
    pub open spec fn skip_if(self, skip: bool) -> Machine {
        if skip {
            Machine { pc: wrap16(self.pc + 2), ..self }
        } else {
            self
        }
    }

    /// The machine with the program counter set to `target`.
    pub open spec fn jump(self, target: u16) -> Machine {
        Machine { pc: target, ..self }
    }

    /// The instructions `8XYn`: register `x` combined with register `y`. Where a flag is
    /// set, the result is written first and the flag after it, except for the two shifts,
    /// which write the flag first and then shift register `x`.
    pub open spec fn arithmetic(self, x: int, y: int, n: u8) -> Machine {
        let vx = self.regs[x];
        let vy = self.regs[y];
        if n == 0x0 {
            self.set_reg(x, vy)
        } else if n == 0x1 {
            self.set_reg(x, vx | vy)
        } else if n == 0x2 {
            self.set_reg(x, vx & vy)
        } else if n == 0x3 {
            self.set_reg(x, vx ^ vy)
        } else if n == 0x4 {
            self.set_reg(x, wrap8(vx + vy)).set_flag(vx + vy > 255)
        } else if n == 0x5 {
            self.set_reg(x, wrap8(vx - vy)).set_flag(vx >= vy)
        } else if n == 0x6 {
            let flagged = self.set_flag(vx % 2 == 1);
            flagged.set_reg(x, flagged.regs[x] / 2)
        } else if n == 0x7 {
            self.set_reg(x, wrap8(vy - vx)).set_flag(vy >= vx)
        } else {
            let flagged = self.set_flag(vx >= 128);
            flagged.set_reg(x, wrap8(flagged.regs[x] * 2))
        }
    }

    /// The instruction `DXYN`: the `n` bytes of memory from the index register on are
    /// drawn as a sprite at the position that registers `x` and `y` give, and the flag
    /// register tells whether a lit pixel was turned off.
    pub open spec fn draw(self, x: int, y: int, n: int) -> Result<(Machine, Outcome), FaultKind> {
        if self.index + n > MEMORY_SIZE {
            Err(FaultKind::MemoryOutOfBounds)
        } else {
            let sprite = self.memory.subrange(self.index as int, self.index + n);
            let (screen, collision) = draw_rows(
                self.screen,
                self.regs[x] as int,
                self.regs[y] as int,
                sprite,
            );
            Ok((Machine { screen, ..self }.set_flag(collision), Outcome::Redraw))
        }
    }

    /// The instructions `EX9E` and `EXA1`: skip if the key that register `x` names is
    /// pressed (`wanted`), or is not pressed.
    pub open spec fn skip_on_key(self, x: int, wanted: bool) -> Result<
        (Machine, Outcome),
        FaultKind,
    > {
        let key = self.regs[x];
        if key >= KEY_COUNT {
            Err(FaultKind::InvalidDigit)
        } else {
            proceed(self.skip_if(self.keys[key as int] == wanted))
        }
    }

    /// The instruction `FX0A`: the lowest pressed key goes to register `x`; with no key
    /// pressed nothing changes and the machine reports that it waits.
    pub open spec fn wait_for_key(self, x: int) -> Result<(Machine, Outcome), FaultKind> {
        match lowest_pressed(self.keys) {
            Some(key) => proceed(self.set_reg(x, key)),
            None => Ok((self, Outcome::WaitingForKey)),
        }
    }

    /// The instruction `FX29`: the index register points to the glyph of the digit in
    /// register `x`.
    pub open spec fn point_to_glyph(self, x: int) -> Result<(Machine, Outcome), FaultKind> {
        let digit = self.regs[x];
        if digit >= 16 {
            Err(FaultKind::InvalidDigit)
        } else {
            proceed(Machine { index: glyph_address(digit as int) as u16, ..self })
        }
    }

    /// The instruction `FX33`: the hundreds, tens and units of register `x` go to the
    /// three bytes of memory from the index register on.
    pub open spec fn store_decimal(self, x: int) -> Result<(Machine, Outcome), FaultKind> {
        let value = self.regs[x];
        let at = self.index as int;
        if at + 2 >= MEMORY_SIZE {
            Err(FaultKind::MemoryOutOfBounds)
        } else {
            proceed(
                Machine {
                    memory: self.memory.update(at, value / 100).update(
                        at + 1,
                        (value / 10) % 10,
                    ).update(at + 2, value % 10),
                    ..self
                },
            )
        }
    }

    /// The instruction `FX55`: registers 0 to `x` go to memory from the index register
    /// on.
    pub open spec fn store_registers(self, x: int) -> Result<(Machine, Outcome), FaultKind> {
        let at = self.index as int;
        if at + x >= MEMORY_SIZE {
            Err(FaultKind::MemoryOutOfBounds)
        } else {
            proceed(
                Machine {
                    memory: Seq::new(
                        self.memory.len(),
                        |addr: int|
                            if at <= addr <= at + x {
                                self.regs[addr - at]
                            } else {
                                self.memory[addr]
                            },
                    ),
                    ..self
                },
            )
        }
    }

    /// The instruction `FX65`: registers 0 to `x` are read from memory from the index
    /// register on.
    pub open spec fn load_registers(self, x: int) -> Result<(Machine, Outcome), FaultKind> {
        let at = self.index as int;
        if at + x >= MEMORY_SIZE {
            Err(FaultKind::MemoryOutOfBounds)
        } else {
            proceed(
                Machine {
                    regs: Seq::new(
                        self.regs.len(),
                        |i: int|
                            if i <= x {
                                self.memory[at + i]
                            } else {
                                self.regs[i]
                            },
                    ),
                    ..self
                },
            )
        }
    }

    /// The instructions `FXnn`: timers, keys, the index register and memory.
    pub open spec fn miscellaneous(self, x: int, y: u8, n: u8) -> Result<
        (Machine, Outcome),
        FaultKind,
    > {
        let vx = self.regs[x];
        if y == 0 && n == 0x7 {
            proceed(self.set_reg(x, self.delay))
        } else if y == 0 && n == 0xA {
            self.wait_for_key(x)
        } else if y == 1 && n == 0x5 {
            proceed(Machine { delay: vx, ..self })
        } else if y == 1 && n == 0x8 {
            proceed(Machine { sound: vx, ..self })
        } else if y == 1 && n == 0xE {
            proceed(Machine { index: wrap16(self.index + vx), ..self })
        } else if y == 2 && n == 0x9 {
            self.point_to_glyph(x)
        } else if y == 3 && n == 0x3 {
            self.store_decimal(x)
        } else if y == 5 && n == 0x5 {
            self.store_registers(x)
        } else {
            self.load_registers(x)
        }
    }

    /// What the instruction `op` does to a machine whose program counter already points
    /// past it: the next state and what is reported, or the fault. `random` is the byte
    /// that the instruction `CXNN` takes from the random source; no other instruction
    /// looks at it.
    pub open spec fn execute(self, op: OpCode, random: u8) -> Result<
        (Machine, Outcome),
        FaultKind,
    > {
        let OpCode(family, x, y, n, nn, nnn) = op;
        let vx = self.regs[x as int];
        let vy = self.regs[y as int];
        if !recognized(op) {
            Err(FaultKind::UnknownInstruction)
        } else if family == 0x0 && n == 0x0 {
            proceed(Machine { screen: blank_grid(), ..self })
        } else if family == 0x0 {
            if self.stack.len() == 0 {
                Err(FaultKind::StackUnderflow)
            } else {
                proceed(Machine { pc: self.stack.last(), stack: self.stack.drop_last(), ..self })
            }
        } else if family == 0x1 {
            proceed(self.jump(nnn))
        } else if family == 0x2 {
            if self.stack.len() >= STACK_DEPTH {
                Err(FaultKind::StackOverflow)
            } else {
                proceed(Machine { pc: nnn, stack: self.stack.push(self.pc), ..self })
            }
        } else if family == 0x3 {
            proceed(self.skip_if(vx == nn))
        } else if family == 0x4 {
            proceed(self.skip_if(vx != nn))
        } else if family == 0x5 {
            proceed(self.skip_if(vx == vy))
        } else if family == 0x6 {
            proceed(self.set_reg(x as int, nn))
        } else if family == 0x7 {
            proceed(self.set_reg(x as int, wrap8(vx + nn)))
        } else if family == 0x8 {
            proceed(self.arithmetic(x as int, y as int, n))
        } else if family == 0x9 {
            proceed(self.skip_if(vx != vy))
        } else if family == 0xA {
            proceed(Machine { index: nnn, ..self })
        } else if family == 0xB {
            proceed(self.jump((self.regs[0] + nnn) as u16))
        } else if family == 0xC {
            proceed(self.set_reg(x as int, random & nn))
        } else if family == 0xD {
            self.draw(x as int, y as int, n as int)
        } else if family == 0xE {
            self.skip_on_key(x as int, n == 0xE)
        } else {
            self.miscellaneous(x as int, y, n)
        }
    }

    /// Whether the program counter points to an instruction word within memory.
    pub open spec fn can_fetch(self) -> bool {
        self.pc + 1 < MEMORY_SIZE
    }

    /// The instruction at the program counter.
    pub open spec fn fetched(self) -> OpCode {
        OpCode::decode(self.memory[self.pc as int], self.memory[self.pc + 1])
    }

    /// Whether the next cycle takes a byte from the random source.
    pub open spec fn draws_random(self) -> bool {
        self.can_fetch() && self.fetched().0 == 0xC
    }

    /// One cycle: the instruction at the program counter is fetched, the program counter
    /// moves past it, and the instruction is executed. On a fault, and when the
    /// instruction waits for a key, the machine is left exactly as it was, the program
    /// counter still at the instruction.
    pub open spec fn step(self, random: u8) -> (Machine, Result<Outcome, Fault>) {
        if !self.can_fetch() {
            (self, Err(Fault::Fetch { pc: self.pc }))
        } else {
            let byte0 = self.memory[self.pc as int];
            let byte1 = self.memory[self.pc + 1];
            match self.jump((self.pc + 2) as u16).execute(self.fetched(), random) {
                Ok((next, outcome)) => if outcome == Outcome::WaitingForKey {
                    (self, Ok(outcome))
                } else {
                    (next, Ok(outcome))
                },
                Err(kind) => (self, Err(Fault::Execute { pc: self.pc, byte0, byte1, kind })),
            }
        }
    }

    /// The machine after the timers were counted down once: each timer that is not zero
    /// goes down by one.
    pub open spec fn tick(self) -> Machine {
        Machine {
            delay: if self.delay > 0 {
                (self.delay - 1) as u8
            } else {
                0
            },
            sound: if self.sound > 0 {
                (self.sound - 1) as u8
            } else {
                0
            },
            ..self
        }
    }

    /// The machine with `program` copied to memory from address `0x200` on.
    pub open spec fn load(self, program: Seq<u8>) -> Machine {
        Machine {
            memory: Seq::new(
                self.memory.len(),
                |addr: int|
                    if PROGRAM_START <= addr < PROGRAM_START + program.len() {
                        program[addr - PROGRAM_START]
                    } else {
                        self.memory[addr]
                    },
            ),
            ..self
        }
    }

    /// Only the instruction `CXNN` looks at the random byte: a step that fetches another
    /// instruction, or none, is the same for every byte.
    pub proof fn lemma_step_ignores_random(self, first: u8, second: u8)
        requires
            !self.draws_random(),
        ensures
            self.step(first) == self.step(second),
    {
    }

    /// An instruction that waits for a key leaves the machine as it found it.
    pub proof fn lemma_waiting_changes_nothing(self, op: OpCode, random: u8)
        ensures
            self.execute(op, random) matches Ok((next, outcome)) ==> outcome
                == Outcome::WaitingForKey ==> next == self,
    {
    }

    /// A call followed by a return is balanced. When the program counter already points
    /// past the call instruction, the call and the return together leave the whole
    /// machine as it was: the program counter is again the address just after the call,
    /// and the stack is as deep as before. A call faults when the stack is full, so the
    /// stack must have room.
    pub proof fn lemma_call_then_return(self, call: OpCode, ret: OpCode, first: u8, second: u8)
        requires
            self.wf(),
            call.0 == 0x2,
            ret.0 == 0x0 && ret.1 == 0x0 && ret.2 == 0xE && ret.3 == 0xE,
            self.stack.len() < STACK_DEPTH,
        ensures
            ({
                &&& self.execute(call, first) matches Ok((called, outcome))
                &&& outcome == Outcome::Continue
                &&& called.pc == call.5
                &&& called.stack.len() == self.stack.len() + 1
                &&& called.execute(ret, second) matches Ok((returned, outcome))
                &&& outcome == Outcome::Continue
                &&& returned == self
            }),
    {
        let called = self.execute(call, first)->Ok_0.0;
        assert(called.stack.drop_last() =~= self.stack);
        assert(called.execute(ret, second)->Ok_0.0 =~= self);
    }

    /// The same balance over two cycles: when the machine fetches a call to an address
    /// that holds a return, then after two steps the program counter is the address just
    /// after the call, the stack is as before, and nothing else has changed.
    pub proof fn lemma_call_return_cycles(self, first: u8, second: u8)
        requires
            self.wf(),
            self.can_fetch(),
            self.fetched().0 == 0x2,
            self.stack.len() < STACK_DEPTH,
            ({
                let at_target = self.jump(self.fetched().5);
                at_target.can_fetch() && at_target.fetched().0 == 0x0 && at_target.fetched().1
                    == 0x0 && at_target.fetched().2 == 0xE && at_target.fetched().3 == 0xE
            }),
        ensures
            self.step(first).1 == Ok::<Outcome, Fault>(Outcome::Continue),
            self.step(first).0.step(second).1 == Ok::<Outcome, Fault>(Outcome::Continue),
            self.step(first).0.step(second).0.pc == self.pc + 2,
            self.step(first).0.step(second).0.stack == self.stack,
            self.step(first).0.step(second).0 == self.jump((self.pc + 2) as u16),
    {
        let call = self.fetched();
        let fetched = self.jump((self.pc + 2) as u16);
        let called = self.step(first).0;
        assert(called == fetched.execute(call, first)->Ok_0.0);
        let ret = called.fetched();
        fetched.lemma_call_then_return(call, ret, first, second);
        let at_return = called.jump((called.pc + 2) as u16);
        assert(at_return.stack.drop_last() =~= self.stack);
        assert(at_return.execute(ret, second)->Ok_0.0 =~= fetched);
    }

    /// An instruction that matches no entry of the repertoire is a fault, whatever the
    /// state of the machine, and a step that fetches one reports the address and the two
    /// bytes of the instruction and changes nothing.
    pub proof fn lemma_unknown_instruction_faults(self, op: OpCode, random: u8)
        ensures
            !recognized(op) ==> self.execute(op, random) == Err::<(Machine, Outcome), FaultKind>(
                FaultKind::UnknownInstruction,
            ),
            self.can_fetch() && !recognized(self.fetched()) ==> self.step(random) == (
                self,
                Err::<Outcome, Fault>(
                    Fault::Execute {
                        pc: self.pc,
                        byte0: self.memory[self.pc as int],
                        byte1: self.memory[self.pc + 1],
                        kind: FaultKind::UnknownInstruction,
                    },
                ),
            ),
    {
    }
}

} // verus!
