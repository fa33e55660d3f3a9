//! The instruction repertoire: what the machine does with a decoded instruction, and
//! the cycle that fetches, decodes and executes.

use crate::emulator::{flag_value, Emulator};
use crate::machine::recognized;
use crate::opcode::OpCode;
use crate::outcome::{Fault, FaultKind, Outcome};
use vstd::prelude::*;

verus! {

impl Emulator {
    /// Runs one cycle, taking the byte for `CXNN` from the random source of the machine.
    /// Whatever byte that source gives, the cycle is the step of the machine with that
    /// byte; when the instruction is no `CXNN`, no byte is drawn and the step is the same
    /// for every byte.
    pub fn cycle(&mut self) -> (result: Result<Outcome, Fault>)
        requires
            old(self).wf(),
        ensures
            final(self).wf(),
            exists|random: u8| (final(self)@, result) == old(self)@.step(random),
            !old(self)@.draws_random() ==> forall|random: u8|
                (final(self)@, result) == old(self)@.step(random),
            old(self)@.can_fetch() && !recognized(old(self)@.fetched()) ==> final(self)@ == old(
                self,
            )@ && result == Err::<Outcome, Fault>(
                Fault::Execute {
                    pc: old(self)@.pc,
                    byte0: old(self)@.memory[old(self)@.pc as int],
                    byte1: old(self)@.memory[old(self)@.pc + 1],
                    kind: FaultKind::UnknownInstruction,
                },
            ),
    {
        let random: u8 = if self.draws_random() {
            self.next_random()
        } else {
            0
        };
        proof {
            if !self@.draws_random() {
                assert forall|other: u8| self@.step(other) == self@.step(random) by {
                    self@.lemma_step_ignores_random(other, random);
                }
            }
        }
        let result = self.step(random);
        assert((self@, result) == old(self)@.step(random));
        result
    }

    /// Runs one cycle with `random` in the place of the byte that the random source
    /// would give: fetches the instruction at the program counter, moves the program
    /// counter past it and executes the instruction. After a fault, and while the
    /// instruction waits for a key, the machine is as it was before the cycle.
    pub fn step(&mut self, random: u8) -> (result: Result<Outcome, Fault>)
        requires
            old(self).wf(),
        ensures
            final(self).wf(),
            (final(self)@, result) == old(self)@.step(random),
            old(self)@.can_fetch() && !recognized(old(self)@.fetched()) ==> final(self)@ == old(
                self,
            )@ && result == Err::<Outcome, Fault>(
                Fault::Execute {
                    pc: old(self)@.pc,
                    byte0: old(self)@.memory[old(self)@.pc as int],
                    byte1: old(self)@.memory[old(self)@.pc + 1],
                    kind: FaultKind::UnknownInstruction,
                },
            ),
    {
        let pc: u16 = self.pc();
        let opcode = match self.fetch_opcode() {
            Ok(opcode) => opcode,
            Err(fault) => {
                return Err(fault);
            },
        };
        match self.exec_opcode(opcode, random) {
            Ok(Outcome::WaitingForKey) => {
                proof {
                    old(self)@.jump((pc + 2) as u16).lemma_waiting_changes_nothing(opcode, random);
                }
                self.jump(pc);
                assert(self@ =~= old(self)@);
                Ok(Outcome::WaitingForKey)
            },
            Ok(outcome) => Ok(outcome),
            Err(kind) => {
                self.jump(pc);
                assert(self@ =~= old(self)@);
                Err(
                    Fault::Execute {
                        pc,
                        byte0: self.memory_at(pc as usize),
                        byte1: self.memory_at(pc as usize + 1),
                        kind,
                    },
                )
            },
        }
    }

    /// Executes the instruction `opcode` on a machine whose program counter already
    /// points past it. `random` is the byte that `CXNN` uses. On a fault nothing has
    /// changed.
    pub fn exec_opcode(&mut self, opcode: OpCode, random: u8) -> (result: Result<
        Outcome,
        FaultKind,
    >)
        requires
            old(self).wf(),
            opcode.wf(),
        ensures
            final(self).wf(),
            match old(self)@.execute(opcode, random) {
                Ok((next, outcome)) => final(self)@ == next && result == Ok::<Outcome, FaultKind>(
                    outcome,
                ),
                Err(kind) => final(self)@ == old(self)@ && result == Err::<Outcome, FaultKind>(
                    kind,
                ),
            },
            !recognized(opcode) ==> result == Err::<Outcome, FaultKind>(
                FaultKind::UnknownInstruction,
            ),
    {
        proof {
            old(self).lemma_view_wf();
        }
        match opcode {
            // 00E0: CLS - clear screen
            OpCode(0, 0, 0xE, 0, _, _) => {
                self.clear_screen();
                Ok(Outcome::Continue)
            },
            // 00EE: RET - Return from a subroutine.
            OpCode(0, 0, 0xE, 0xE, _, _) => self.ret(),
            // 1NNN: JP addr - jump to location nnn.
            OpCode(1, _, _, _, _, nnn) => {
                self.jump(nnn);
                Ok(Outcome::Continue)
            },
            // 2NNN: CALL addr - Call subroutine at NNN.
            OpCode(2, _, _, _, _, nnn) => self.call(nnn),
            // 3xnn: SE Vx, byte - Skip next instruction if Vx = nn
            OpCode(3, x, _, _, nn, _) => {
                if self.register(x) == nn {
                    self.inc_pc();
                }
                Ok(Outcome::Continue)
            },
            // 4xnn: SNE Vx, byte - Skip next instruction if Vx != nn.
            OpCode(4, x, _, _, nn, _) => {
                if self.register(x) != nn {
                    self.inc_pc();
                }
                Ok(Outcome::Continue)
            },
            // 5xy0: SE Vx, Vy - Skip next instruction if Vx = Vy.
            OpCode(5, x, y, 0, _, _) => {
                if self.register(x) == self.register(y) {
                    self.inc_pc();
                }
                Ok(Outcome::Continue)
            },
            // 6XNN: LD Vx, byte - Set Vx = nn
            OpCode(6, x, _, _, nn, _) => {
                self.set_register(x, nn);
                Ok(Outcome::Continue)
            },
            // 7XNN: ADD Vx, byte - Set Vx = Vx + nn
            OpCode(7, x, _, _, nn, _) => {
                self.set_register(x, self.register(x).wrapping_add(nn));
                Ok(Outcome::Continue)
            },
            // 8XYn: register arithmetic
            OpCode(8, x, y, n, _, _) => self.arithmetic(x, y, n),
            // 9XY0: SNE Vx, Vy - Skip next instruction if Vx != Vy.
            OpCode(9, x, y, 0, _, _) => {
                if self.register(x) != self.register(y) {
                    self.inc_pc();
                }
                Ok(Outcome::Continue)
            },
            // ANNN: LD I, addr - set index register
            OpCode(0xA, _, _, _, _, nnn) => {
                self.set_index(nnn);
                Ok(Outcome::Continue)
            },
            // BNNN: JP V0, addr - Jump to location NNN + V0
            OpCode(0xB, _, _, _, _, nnn) => {
                self.jump(self.register(0) as u16 + nnn);
                Ok(Outcome::Continue)
            },
            // CXNN: RND Vx, byte - Set Vx = random byte AND nn.
            OpCode(0xC, x, _, _, nn, _) => {
                self.set_register(x, random & nn);
                Ok(Outcome::Continue)
            },
            // DXYN: Draw Vx, Vy, nibble - Display n-byte sprite starting at memory
            // location I at (Vx, Vy), set VF = collision.
            OpCode(0xD, x, y, n, _, _) => self._dxyn(x, y, n),
            // EX9E, EXA1: skip on the state of a key
            OpCode(0xE, x, y, n, _, _) => self.skip_on_key(x, y, n),
            // FXnn: timers, keys, index register and memory
            OpCode(0xF, x, y, n, _, _) => self.miscellaneous(x, y, n),
            _ => Err(FaultKind::UnknownInstruction),
        }
    }

    /// The instructions `8XYn`, which combine register `x` with register `y`.
    fn arithmetic(&mut self, x: u8, y: u8, n: u8) -> (result: Result<Outcome, FaultKind>)
        requires
            old(self).wf(),
            x < 16,
            y < 16,
        ensures
            final(self).wf(),
            n <= 7 || n == 0xE ==> final(self)@ == old(self)@.arithmetic(x as int, y as int, n)
                && result == Ok::<Outcome, FaultKind>(Outcome::Continue),
            !(n <= 7 || n == 0xE) ==> final(self)@ == old(self)@ && result == Err::<
                Outcome,
                FaultKind,
            >(FaultKind::UnknownInstruction),
    {
        proof {
            old(self).lemma_view_wf();
        }
        let vx: u8 = self.register(x);
        let vy: u8 = self.register(y);
        match n {
            // 8XY0: LD Vx, Vy - Set Vx = Vy.
            0 => self.set_register(x, vy),
            // 8XY1: OR Vx, Vy - Set Vx = Vx OR Vy.
            1 => self.set_register(x, vx | vy),
            // 8XY2: AND Vx, Vy - Set Vx = Vx AND Vy.
            2 => self.set_register(x, vx & vy),
            // 8XY3: XOR Vx, Vy - Set Vx = Vx XOR Vy.
            3 => self.set_register(x, vx ^ vy),
            // 8XY4: ADD Vx, Vy - Set Vx = Vx + Vy, set VF = carry.
            4 => {
                let c: bool = vx as u16 + vy as u16 > 255;
                let s: u8 = vx.wrapping_add(vy);
                self.set_register(x, s);
                self.set_register(0xF, flag_value(c));
            },
            // 8XY5: SUB Vx, Vy - Set Vx = Vx - Vy, set Vf = NOT borrow.
            5 => {
                let brw: bool = vx < vy;
                self.set_register(x, vx.wrapping_sub(vy));
                self.set_register(0xF, flag_value(!brw));
            },
            // 8XY6: SHR Vx {, Vy} - Set Vx = Vx SHR 1.
            6 => {
                assert(vx & 0x1 == vx % 2) by (bit_vector);
                self.set_register(0xF, vx & 0x1);
                self.set_register(x, self.register(x) / 2);
            },
            // 8XY7: SUBN Vx, Vy - Set Vx = Vy - Vx, set VF = NOT borrow.
            7 => {
                let brw: bool = vy < vx;
                self.set_register(x, vy.wrapping_sub(vx));
                self.set_register(0xF, flag_value(!brw));
            },
            // 8XYE: SHL Vx {, Vy} - Set Vx = Vx SHL 1.
            0xE => {
                assert((vx & 0x80 != 0) == (vx >= 128)) by (bit_vector);
                self.set_register(0xF, flag_value(vx & 0x80 != 0));
                self.set_register(x, self.register(x).wrapping_mul(2));
            },
            _ => {
                return Err(FaultKind::UnknownInstruction);
            },
        }
        assert(self@ =~= old(self)@.arithmetic(x as int, y as int, n));
        Ok(Outcome::Continue)
    }

    /// The instructions `EX9E` and `EXA1`, which skip on the state of the key that
    /// register `x` names.
    fn skip_on_key(&mut self, x: u8, y: u8, n: u8) -> (result: Result<Outcome, FaultKind>)
        requires
            old(self).wf(),
            x < 16,
        ensures
            final(self).wf(),
            match (if (y == 0x9 && n == 0xE) || (y == 0xA && n == 0x1) {
                old(self)@.skip_on_key(x as int, n == 0xE)
            } else {
                Err(FaultKind::UnknownInstruction)
            }) {
                Ok((next, outcome)) => final(self)@ == next && result == Ok::<Outcome, FaultKind>(
                    outcome,
                ),
                Err(kind) => final(self)@ == old(self)@ && result == Err::<Outcome, FaultKind>(
                    kind,
                ),
            },
    {
        proof {
            old(self).lemma_view_wf();
        }
        let key: u8 = self.register(x);
        match (y, n) {
            // EX9E: SKP Vx - Skip next instruction if key with the value of Vx is pressed.
            (9, 0xE) => {
                if key >= 16 {
                    return Err(FaultKind::InvalidDigit);
                }
                if self.keypad().is_pressed(key) {
                    self.inc_pc();
                }
            },
            // EXA1: SKNP Vx - Skip next instruction if key with the value of Vx is not pressed.
            (0xA, 1) => {
                if key >= 16 {
                    return Err(FaultKind::InvalidDigit);
                }
                if !self.keypad().is_pressed(key) {
                    self.inc_pc();
                }
            },
            _ => {
                return Err(FaultKind::UnknownInstruction);
            },
        }
        Ok(Outcome::Continue)
    }

    /// The instructions `FXnn`: timers, the wait for a key, the index register and the
    /// transfers between registers and memory.
    fn miscellaneous(&mut self, x: u8, y: u8, n: u8) -> (result: Result<Outcome, FaultKind>)
        requires
            old(self).wf(),
            x < 16,
        ensures
            final(self).wf(),
            match (if recognized(OpCode(0xF, x, y, n, 0, 0)) {
                old(self)@.miscellaneous(x as int, y, n)
            } else {
                Err(FaultKind::UnknownInstruction)
            }) {
                Ok((next, outcome)) => final(self)@ == next && result == Ok::<Outcome, FaultKind>(
                    outcome,
                ),
                Err(kind) => final(self)@ == old(self)@ && result == Err::<Outcome, FaultKind>(
                    kind,
                ),
            },
    {
        proof {
            old(self).lemma_view_wf();
        }
        let mut outcome = Outcome::Continue;
        match (y, n) {
            // FX07: LD Vx, DT - Set Vx = delay timer value.
            (0, 7) => self.set_register(x, self.delay_timer()),
            // FX0A: LD Vx, k - Wait for a key press, store the value of the key in Vx.
            (0, 0xA) => {
                match self.keypad().first_pressed() {
                    Some(key) => self.set_register(x, key),
                    None => outcome = Outcome::WaitingForKey,
                }
            },
            // Fx15: LD DT, Vx - Set delay timer = Vx.
            (1, 5) => self.set_delay(self.register(x)),
            // Fx18: LD ST, Vx - Set sound timer = Vx.
            (1, 8) => self.set_sound(self.register(x)),
            // FX1E: ADD I, Vx - Set I = I + Vx.
            (1, 0xE) => self.set_index(self.index().wrapping_add(self.register(x) as u16)),
            // FX29: LD F, Vx - Set I = location of sprite for digit Vx.
            (2, 9) => {
                let digit: u8 = self.register(x);
                if digit >= 16 {
                    return Err(FaultKind::InvalidDigit);
                }
                self.point_to_glyph(digit);
            },
            // FX33: LD B, Vx - Store BCD representation of Vx in memory locations I, I+1, and I+2.
            (3, 3) => {
                return self.store_decimal(x);
            },
            // FX55: LD [I], Vx - Store registers V0 through Vx in memory starting at location I.
            (5, 5) => {
                return self.store_registers(x);
            },
            // FX65: LD Vx, [I] - Read registers V0 through Vx from memory starting at location I.
            (6, 5) => {
                return self.load_registers(x);
            },
            _ => {
                return Err(FaultKind::UnknownInstruction);
            },
        }
        proof {
            let expected = old(self)@.miscellaneous(x as int, y, n);
            assert(expected is Ok);
            assert(self@ =~= expected->Ok_0.0);
        }
        Ok(outcome)
    }
}

} // verus!
