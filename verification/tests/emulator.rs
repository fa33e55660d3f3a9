use chip8::emulator::Emulator;
use chip8::fonts::FONTS;
use chip8::opcode::OpCode;
use chip8::outcome::{Fault, FaultKind, Outcome};

fn exec(machine: &mut Emulator, byte0: u8, byte1: u8) -> Result<Outcome, FaultKind> {
    machine.exec_opcode(OpCode::new(byte0, byte1), 0)
}

fn machine_with(program: &[u8]) -> Emulator {
    let mut machine = Emulator::new();
    assert_eq!(machine.load_rom(program), Ok(()));
    machine
}

fn registers(machine: &Emulator) -> Vec<u8> {
    (0..16u8).map(|x| machine.register(x)).collect()
}

fn memory(machine: &Emulator) -> Vec<u8> {
    (0..4096usize).map(|addr| machine.memory_at(addr)).collect()
}

fn lit_pixels(machine: &Emulator) -> Vec<(usize, usize)> {
    let mut found = Vec::new();
    for row in 0..32 {
        for col in 0..64 {
            if machine.screen().pixel(row, col) {
                found.push((row, col));
            }
        }
    }
    found
}

#[test]
fn new_machine_is_switched_on_at_0x200_with_fonts_in_memory() {
    let machine = Emulator::new();
    assert_eq!(machine.pc(), 0x200);
    assert_eq!(machine.index(), 0);
    assert_eq!(machine.delay_timer(), 0);
    assert_eq!(machine.sound_timer(), 0);
    assert_eq!(machine.stack_depth(), 0);
    assert_eq!(registers(&machine), vec![0u8; 16]);
    for digit in 0..16usize {
        for line in 0..5usize {
            assert_eq!(machine.memory_at(digit * 5 + line), FONTS[digit][line]);
        }
    }
    assert_eq!(machine.memory_at(0), 0xF0);
    assert_eq!(machine.memory_at(79), 0x80);
    for addr in 80..4096usize {
        assert_eq!(machine.memory_at(addr), 0);
    }
    assert!(lit_pixels(&machine).is_empty());
    assert_eq!(machine.keypad().first_pressed(), None);
}

#[test]
fn load_rom_copies_the_program_to_0x200() {
    let mut machine = Emulator::new();
    let before = memory(&machine);
    assert_eq!(machine.load_rom(&[0x12, 0x34, 0x56]), Ok(()));
    assert_eq!(machine.memory_at(0x200), 0x12);
    assert_eq!(machine.memory_at(0x201), 0x34);
    assert_eq!(machine.memory_at(0x202), 0x56);
    let after = memory(&machine);
    assert_eq!(after[..0x200], before[..0x200]);
    assert_eq!(after[0x203..], before[0x203..]);
    assert_eq!(machine.pc(), 0x200);
}

#[test]
fn load_rom_accepts_a_program_that_fills_memory() {
    let mut machine = Emulator::new();
    let program = vec![0xAB; 4096 - 0x200];
    assert_eq!(machine.load_rom(&program), Ok(()));
    assert_eq!(machine.memory_at(0x200), 0xAB);
    assert_eq!(machine.memory_at(0xFFF), 0xAB);
    assert_eq!(machine.memory_at(0x1FF), 0);
}

#[test]
fn load_rom_refuses_a_program_that_is_too_large() {
    let mut machine = Emulator::new();
    let before = memory(&machine);
    let program = vec![0xAB; 4096 - 0x200 + 1];
    assert_eq!(machine.load_rom(&program), Err(Fault::ProgramTooLarge { len: 3585 }));
    assert_eq!(memory(&machine), before);
}

#[test]
fn load_constant_and_copy_register() {
    let mut machine = Emulator::new();
    assert_eq!(exec(&mut machine, 0x63, 0x7A), Ok(Outcome::Continue));
    assert_eq!(machine.register(3), 0x7A);
    assert_eq!(exec(&mut machine, 0x85, 0x30), Ok(Outcome::Continue));
    assert_eq!(machine.register(5), 0x7A);
    assert_eq!(machine.pc(), 0x200);
}

#[test]
fn add_constant_wraps_and_sets_no_flag() {
    let mut machine = Emulator::new();
    exec(&mut machine, 0x61, 0xFF).unwrap();
    assert_eq!(exec(&mut machine, 0x71, 0x02), Ok(Outcome::Continue));
    assert_eq!(machine.register(1), 0x01);
    assert_eq!(machine.register(0xF), 0);
}

#[test]
fn or_and_xor_of_registers() {
    let mut machine = Emulator::new();
    exec(&mut machine, 0x61, 0b1100).unwrap();
    exec(&mut machine, 0x62, 0b1010).unwrap();
    exec(&mut machine, 0x81, 0x21).unwrap();
    assert_eq!(machine.register(1), 0b1110);
    exec(&mut machine, 0x61, 0b1100).unwrap();
    exec(&mut machine, 0x81, 0x22).unwrap();
    assert_eq!(machine.register(1), 0b1000);
    exec(&mut machine, 0x61, 0b1100).unwrap();
    exec(&mut machine, 0x81, 0x23).unwrap();
    assert_eq!(machine.register(1), 0b0110);
    assert_eq!(machine.register(2), 0b1010);
}

#[test]
fn add_with_carry() {
    let mut machine = Emulator::new();
    exec(&mut machine, 0x61, 0xFF).unwrap();
    exec(&mut machine, 0x62, 0x01).unwrap();
    assert_eq!(exec(&mut machine, 0x81, 0x24), Ok(Outcome::Continue));
    assert_eq!(machine.register(1), 0x00);
    assert_eq!(machine.register(0xF), 1);
}

#[test]
fn add_without_carry_clears_the_flag() {
    let mut machine = Emulator::new();
    exec(&mut machine, 0x6F, 0x01).unwrap();
    exec(&mut machine, 0x61, 0x10).unwrap();
    exec(&mut machine, 0x62, 0x22).unwrap();
    exec(&mut machine, 0x81, 0x24).unwrap();
    assert_eq!(machine.register(1), 0x32);
    assert_eq!(machine.register(0xF), 0);
}

#[test]
fn subtract_without_borrow() {
    let mut machine = Emulator::new();
    exec(&mut machine, 0x61, 0x05).unwrap();
    exec(&mut machine, 0x62, 0x03).unwrap();
    assert_eq!(exec(&mut machine, 0x81, 0x25), Ok(Outcome::Continue));
    assert_eq!(machine.register(1), 0x02);
    assert_eq!(machine.register(0xF), 1);
}

#[test]
fn subtract_with_borrow() {
    let mut machine = Emulator::new();
    exec(&mut machine, 0x61, 0x03).unwrap();
    exec(&mut machine, 0x62, 0x05).unwrap();
    assert_eq!(exec(&mut machine, 0x81, 0x25), Ok(Outcome::Continue));
    assert_eq!(machine.register(1), 0xFE);
    assert_eq!(machine.register(0xF), 0);
}

#[test]
fn subtract_equal_values_reports_no_borrow() {
    let mut machine = Emulator::new();
    exec(&mut machine, 0x61, 0x44).unwrap();
    exec(&mut machine, 0x62, 0x44).unwrap();
    exec(&mut machine, 0x81, 0x25).unwrap();
    assert_eq!(machine.register(1), 0);
    assert_eq!(machine.register(0xF), 1);
}

#[test]
fn reverse_subtract() {
    let mut machine = Emulator::new();
    exec(&mut machine, 0x61, 0x03).unwrap();
    exec(&mut machine, 0x62, 0x05).unwrap();
    exec(&mut machine, 0x81, 0x27).unwrap();
    assert_eq!(machine.register(1), 0x02);
    assert_eq!(machine.register(0xF), 1);
    exec(&mut machine, 0x61, 0x09).unwrap();
    exec(&mut machine, 0x81, 0x27).unwrap();
    assert_eq!(machine.register(1), 0xFC);
    assert_eq!(machine.register(0xF), 0);
}

#[test]
fn shift_left_captures_the_top_bit() {
    let mut machine = Emulator::new();
    exec(&mut machine, 0x61, 0x81).unwrap();
    assert_eq!(exec(&mut machine, 0x81, 0x0E), Ok(Outcome::Continue));
    assert_eq!(machine.register(0xF), 1);
    assert_eq!(machine.register(1), 0x02);
    exec(&mut machine, 0x81, 0x0E).unwrap();
    assert_eq!(machine.register(0xF), 0);
    assert_eq!(machine.register(1), 0x04);
}

#[test]
fn shift_right_captures_the_low_bit() {
    let mut machine = Emulator::new();
    exec(&mut machine, 0x61, 0x05).unwrap();
    exec(&mut machine, 0x81, 0x06).unwrap();
    assert_eq!(machine.register(0xF), 1);
    assert_eq!(machine.register(1), 0x02);
    exec(&mut machine, 0x81, 0x06).unwrap();
    assert_eq!(machine.register(0xF), 0);
    assert_eq!(machine.register(1), 0x01);
}

#[test]
fn flag_is_written_after_the_result_of_an_addition() {
    let mut machine = Emulator::new();
    exec(&mut machine, 0x6F, 0xFF).unwrap();
    exec(&mut machine, 0x62, 0x02).unwrap();
    exec(&mut machine, 0x8F, 0x24).unwrap();
    assert_eq!(machine.register(0xF), 1);
    exec(&mut machine, 0x6F, 0x07).unwrap();
    exec(&mut machine, 0x8F, 0x25).unwrap();
    assert_eq!(machine.register(0xF), 1);
}

#[test]
fn shift_of_the_flag_register_shifts_the_flag() {
    let mut machine = Emulator::new();
    exec(&mut machine, 0x6F, 0x03).unwrap();
    exec(&mut machine, 0x8F, 0x06).unwrap();
    assert_eq!(machine.register(0xF), 0);
    exec(&mut machine, 0x6F, 0x81).unwrap();
    exec(&mut machine, 0x8F, 0x0E).unwrap();
    assert_eq!(machine.register(0xF), 2);
}

#[test]
fn skips_compare_a_register_with_a_constant() {
    let mut machine = Emulator::new();
    exec(&mut machine, 0x61, 0x42).unwrap();
    exec(&mut machine, 0x31, 0x42).unwrap();
    assert_eq!(machine.pc(), 0x202);
    exec(&mut machine, 0x31, 0x43).unwrap();
    assert_eq!(machine.pc(), 0x202);
    exec(&mut machine, 0x41, 0x43).unwrap();
    assert_eq!(machine.pc(), 0x204);
    exec(&mut machine, 0x41, 0x42).unwrap();
    assert_eq!(machine.pc(), 0x204);
}

#[test]
fn skips_compare_two_registers() {
    let mut machine = Emulator::new();
    exec(&mut machine, 0x61, 0x42).unwrap();
    exec(&mut machine, 0x62, 0x42).unwrap();
    exec(&mut machine, 0x63, 0x01).unwrap();
    exec(&mut machine, 0x51, 0x20).unwrap();
    assert_eq!(machine.pc(), 0x202);
    exec(&mut machine, 0x51, 0x30).unwrap();
    assert_eq!(machine.pc(), 0x202);
    exec(&mut machine, 0x91, 0x30).unwrap();
    assert_eq!(machine.pc(), 0x204);
    exec(&mut machine, 0x91, 0x20).unwrap();
    assert_eq!(machine.pc(), 0x204);
}

#[test]
fn jumps_set_the_program_counter() {
    let mut machine = Emulator::new();
    assert_eq!(exec(&mut machine, 0x1A, 0xBC), Ok(Outcome::Continue));
    assert_eq!(machine.pc(), 0xABC);
    exec(&mut machine, 0x60, 0xFF).unwrap();
    exec(&mut machine, 0xBF, 0xFF).unwrap();
    assert_eq!(machine.pc(), 0x10FE);
    exec(&mut machine, 0x60, 0x04).unwrap();
    exec(&mut machine, 0xB3, 0x00).unwrap();
    assert_eq!(machine.pc(), 0x304);
}

#[test]
fn call_then_return_is_balanced() {
    let mut machine = Emulator::new();
    assert_eq!(exec(&mut machine, 0x23, 0x00), Ok(Outcome::Continue));
    assert_eq!(machine.pc(), 0x300);
    assert_eq!(machine.stack_depth(), 1);
    assert_eq!(exec(&mut machine, 0x00, 0xEE), Ok(Outcome::Continue));
    assert_eq!(machine.pc(), 0x200);
    assert_eq!(machine.stack_depth(), 0);
}

#[test]
fn call_then_return_over_two_cycles_comes_back_after_the_call() {
    // 0x200: CALL 0x206; 0x202, 0x204: unused; 0x206: RET
    let mut machine = machine_with(&[0x22, 0x06, 0x00, 0x00, 0x00, 0x00, 0x00, 0xEE]);
    let before = memory(&machine);
    assert_eq!(machine.step(0), Ok(Outcome::Continue));
    assert_eq!(machine.pc(), 0x206);
    assert_eq!(machine.stack_depth(), 1);
    assert_eq!(machine.step(0), Ok(Outcome::Continue));
    assert_eq!(machine.pc(), 0x202);
    assert_eq!(machine.stack_depth(), 0);
    assert_eq!(memory(&machine), before);
    assert_eq!(registers(&machine), vec![0u8; 16]);
}

#[test]
fn nested_calls_return_in_reverse_order() {
    let mut machine = Emulator::new();
    exec(&mut machine, 0x23, 0x00).unwrap();
    exec(&mut machine, 0x24, 0x00).unwrap();
    exec(&mut machine, 0x25, 0x00).unwrap();
    assert_eq!(machine.stack_depth(), 3);
    exec(&mut machine, 0x00, 0xEE).unwrap();
    assert_eq!(machine.pc(), 0x400);
    exec(&mut machine, 0x00, 0xEE).unwrap();
    assert_eq!(machine.pc(), 0x300);
    exec(&mut machine, 0x00, 0xEE).unwrap();
    assert_eq!(machine.pc(), 0x200);
    assert_eq!(machine.stack_depth(), 0);
}

#[test]
fn seventeenth_call_overflows_the_stack() {
    let mut machine = Emulator::new();
    for depth in 0..16 {
        assert_eq!(machine.stack_depth(), depth);
        assert_eq!(exec(&mut machine, 0x23, 0x00), Ok(Outcome::Continue));
    }
    assert_eq!(machine.stack_depth(), 16);
    exec(&mut machine, 0x14, 0x44).unwrap();
    assert_eq!(exec(&mut machine, 0x25, 0x55), Err(FaultKind::StackOverflow));
    assert_eq!(machine.stack_depth(), 16);
    assert_eq!(machine.pc(), 0x444);
    assert_eq!(exec(&mut machine, 0x00, 0xEE), Ok(Outcome::Continue));
    assert_eq!(machine.pc(), 0x300);
    assert_eq!(machine.stack_depth(), 15);
}

#[test]
fn return_with_an_empty_stack_underflows() {
    let mut machine = Emulator::new();
    assert_eq!(exec(&mut machine, 0x00, 0xEE), Err(FaultKind::StackUnderflow));
    assert_eq!(machine.pc(), 0x200);
    assert_eq!(machine.stack_depth(), 0);
}

#[test]
fn stack_faults_are_reported_by_the_cycle_with_address_and_bytes() {
    let mut machine = machine_with(&[0x00, 0xEE]);
    assert_eq!(
        machine.step(0),
        Err(Fault::Execute { pc: 0x200, byte0: 0x00, byte1: 0xEE, kind: FaultKind::StackUnderflow })
    );
    assert_eq!(machine.pc(), 0x200);

    // 0x200: CALL 0x200, which calls itself until the stack is full.
    let mut machine = machine_with(&[0x22, 0x00]);
    for _ in 0..16 {
        assert_eq!(machine.step(0), Ok(Outcome::Continue));
    }
    assert_eq!(
        machine.step(0),
        Err(Fault::Execute { pc: 0x200, byte0: 0x22, byte1: 0x00, kind: FaultKind::StackOverflow })
    );
    assert_eq!(machine.stack_depth(), 16);
    assert_eq!(machine.pc(), 0x200);
}

#[test]
fn unknown_instruction_is_a_fault_with_address_and_bytes() {
    let words: [(u8, u8); 12] = [
        (0x00, 0x00),
        (0x00, 0xE1),
        (0x01, 0xE0),
        (0x51, 0x21),
        (0x81, 0x28),
        (0x81, 0x2F),
        (0x91, 0x2A),
        (0xE1, 0x9F),
        (0xE1, 0xA0),
        (0xF1, 0x00),
        (0xF1, 0x56),
        (0xF1, 0xFF),
    ];
    for (byte0, byte1) in words {
        let mut machine = machine_with(&[0x12, 0x04, 0x00, 0x00, byte0, byte1]);
        assert_eq!(machine.step(0), Ok(Outcome::Continue));
        let regs = registers(&machine);
        let mem = memory(&machine);
        assert_eq!(
            machine.step(0),
            Err(Fault::Execute { pc: 0x204, byte0, byte1, kind: FaultKind::UnknownInstruction })
        );
        assert_eq!(machine.pc(), 0x204);
        assert_eq!(registers(&machine), regs);
        assert_eq!(memory(&machine), mem);
        assert_eq!(
            machine.cycle(),
            Err(Fault::Execute { pc: 0x204, byte0, byte1, kind: FaultKind::UnknownInstruction })
        );
        assert_eq!(
            machine.exec_opcode(OpCode::new(byte0, byte1), 0),
            Err(FaultKind::UnknownInstruction)
        );
    }
}

#[test]
fn fetch_beyond_memory_is_a_fault() {
    let mut machine = Emulator::new();
    exec(&mut machine, 0x1F, 0xFF).unwrap();
    assert_eq!(machine.step(0), Err(Fault::Fetch { pc: 0xFFF }));
    assert_eq!(machine.pc(), 0xFFF);
    assert_eq!(machine.cycle(), Err(Fault::Fetch { pc: 0xFFF }));

    let mut machine = Emulator::new();
    exec(&mut machine, 0x60, 0xFF).unwrap();
    exec(&mut machine, 0xBF, 0xFF).unwrap();
    assert_eq!(machine.step(0), Err(Fault::Fetch { pc: 0x10FE }));
}

#[test]
fn last_instruction_word_of_memory_can_be_fetched() {
    let mut program = vec![0u8; 4096 - 0x200];
    program[0] = 0x1F; // 0x200: JP 0xFFE
    program[1] = 0xFE;
    program[0xFFE - 0x200] = 0x6A; // 0xFFE: LD VA, 0x11
    program[0xFFF - 0x200] = 0x11;
    let mut machine = machine_with(&program);
    assert_eq!(machine.step(0), Ok(Outcome::Continue));
    assert_eq!(machine.step(0), Ok(Outcome::Continue));
    assert_eq!(machine.register(0xA), 0x11);
    assert_eq!(machine.pc(), 0x1000);
    assert_eq!(machine.step(0), Err(Fault::Fetch { pc: 0x1000 }));
}

#[test]
fn index_register_is_set_and_added_to() {
    let mut machine = Emulator::new();
    exec(&mut machine, 0xAF, 0xFF).unwrap();
    assert_eq!(machine.index(), 0xFFF);
    exec(&mut machine, 0x61, 0xFF).unwrap();
    exec(&mut machine, 0xF1, 0x1E).unwrap();
    assert_eq!(machine.index(), 0x10FE);
    assert_eq!(machine.register(0xF), 0);
}

#[test]
fn index_register_wraps_at_sixteen_bits() {
    let mut machine = Emulator::new();
    exec(&mut machine, 0xA0, 0x00).unwrap();
    exec(&mut machine, 0x61, 0xFF).unwrap();
    for _ in 0..257 {
        exec(&mut machine, 0xF1, 0x1E).unwrap();
    }
    assert_eq!(machine.index(), 0xFFFF);
    exec(&mut machine, 0x61, 0x02).unwrap();
    exec(&mut machine, 0xF1, 0x1E).unwrap();
    assert_eq!(machine.index(), 0x0001);
}

#[test]
fn font_glyph_address_is_five_times_the_digit() {
    let mut machine = Emulator::new();
    for digit in 0..16u8 {
        exec(&mut machine, 0x61, digit).unwrap();
        assert_eq!(exec(&mut machine, 0xF1, 0x29), Ok(Outcome::Continue));
        assert_eq!(machine.index(), digit as u16 * 5);
    }
    exec(&mut machine, 0x61, 0x0A).unwrap();
    exec(&mut machine, 0xF1, 0x29).unwrap();
    assert_eq!(machine.index(), 50);
}

#[test]
fn font_glyph_of_a_value_above_0xf_is_a_fault() {
    let mut machine = Emulator::new();
    exec(&mut machine, 0xA1, 0x23).unwrap();
    exec(&mut machine, 0x61, 0x10).unwrap();
    assert_eq!(exec(&mut machine, 0xF1, 0x29), Err(FaultKind::InvalidDigit));
    assert_eq!(machine.index(), 0x123);
}

#[test]
fn decimal_digits_are_stored_at_the_index_register() {
    let mut machine = Emulator::new();
    exec(&mut machine, 0xA3, 0x00).unwrap();
    exec(&mut machine, 0x61, 254).unwrap();
    assert_eq!(exec(&mut machine, 0xF1, 0x33), Ok(Outcome::Continue));
    assert_eq!(machine.memory_at(0x300), 2);
    assert_eq!(machine.memory_at(0x301), 5);
    assert_eq!(machine.memory_at(0x302), 4);
    assert_eq!(machine.memory_at(0x303), 0);
    assert_eq!(machine.index(), 0x300);

    exec(&mut machine, 0x61, 7).unwrap();
    exec(&mut machine, 0xF1, 0x33).unwrap();
    assert_eq!(machine.memory_at(0x300), 0);
    assert_eq!(machine.memory_at(0x301), 0);
    assert_eq!(machine.memory_at(0x302), 7);
}

#[test]
fn decimal_digits_need_three_bytes_within_memory() {
    let mut machine = Emulator::new();
    exec(&mut machine, 0x61, 123).unwrap();
    exec(&mut machine, 0xAF, 0xFD).unwrap();
    assert_eq!(exec(&mut machine, 0xF1, 0x33), Ok(Outcome::Continue));
    assert_eq!(machine.memory_at(0xFFD), 1);
    assert_eq!(machine.memory_at(0xFFE), 2);
    assert_eq!(machine.memory_at(0xFFF), 3);

    exec(&mut machine, 0x61, 255).unwrap();
    exec(&mut machine, 0xAF, 0xFE).unwrap();
    let before = memory(&machine);
    assert_eq!(exec(&mut machine, 0xF1, 0x33), Err(FaultKind::MemoryOutOfBounds));
    assert_eq!(memory(&machine), before);
}

#[test]
fn registers_are_stored_up_to_x() {
    let mut machine = Emulator::new();
    for x in 0..16u8 {
        exec(&mut machine, 0x60 | x, 0x10 + x).unwrap();
    }
    exec(&mut machine, 0xA4, 0x00).unwrap();
    assert_eq!(exec(&mut machine, 0xF3, 0x55), Ok(Outcome::Continue));
    assert_eq!(machine.memory_at(0x400), 0x10);
    assert_eq!(machine.memory_at(0x401), 0x11);
    assert_eq!(machine.memory_at(0x402), 0x12);
    assert_eq!(machine.memory_at(0x403), 0x13);
    assert_eq!(machine.memory_at(0x404), 0);
    assert_eq!(machine.index(), 0x400);

    exec(&mut machine, 0xA5, 0x00).unwrap();
    exec(&mut machine, 0xFF, 0x55).unwrap();
    for x in 0..16usize {
        assert_eq!(machine.memory_at(0x500 + x), 0x10 + x as u8);
    }
    assert_eq!(machine.memory_at(0x510), 0);
}

#[test]
fn registers_are_loaded_up_to_x() {
    let mut machine = machine_with(&[1, 2, 3, 4, 5, 6, 7, 8, 9, 10, 11, 12, 13, 14, 15, 16, 17]);
    exec(&mut machine, 0xA2, 0x00).unwrap();
    exec(&mut machine, 0x65, 0xEE).unwrap();
    assert_eq!(exec(&mut machine, 0xF2, 0x65), Ok(Outcome::Continue));
    assert_eq!(registers(&machine), vec![1, 2, 3, 0, 0, 0xEE, 0, 0, 0, 0, 0, 0, 0, 0, 0, 0]);
    exec(&mut machine, 0xFF, 0x65).unwrap();
    assert_eq!(
        registers(&machine),
        vec![1, 2, 3, 4, 5, 6, 7, 8, 9, 10, 11, 12, 13, 14, 15, 16]
    );
    assert_eq!(machine.index(), 0x200);
}

#[test]
fn register_transfers_stay_within_memory() {
    let mut machine = Emulator::new();
    exec(&mut machine, 0x60, 0xAA).unwrap();
    exec(&mut machine, 0x61, 0xBB).unwrap();
    exec(&mut machine, 0xAF, 0xFE).unwrap();
    assert_eq!(exec(&mut machine, 0xF1, 0x55), Ok(Outcome::Continue));
    assert_eq!(machine.memory_at(0xFFE), 0xAA);
    assert_eq!(machine.memory_at(0xFFF), 0xBB);

    let before = memory(&machine);
    assert_eq!(exec(&mut machine, 0xF2, 0x55), Err(FaultKind::MemoryOutOfBounds));
    assert_eq!(memory(&machine), before);

    let regs = registers(&machine);
    assert_eq!(exec(&mut machine, 0xF2, 0x65), Err(FaultKind::MemoryOutOfBounds));
    assert_eq!(registers(&machine), regs);
    assert_eq!(exec(&mut machine, 0xF1, 0x65), Ok(Outcome::Continue));
}

#[test]
fn draw_shows_a_font_glyph_and_asks_for_a_redraw() {
    let mut machine = Emulator::new();
    exec(&mut machine, 0x61, 0x01).unwrap();
    exec(&mut machine, 0xF1, 0x29).unwrap(); // glyph of digit 1
    exec(&mut machine, 0x62, 8).unwrap();
    exec(&mut machine, 0x63, 2).unwrap();
    exec(&mut machine, 0x6F, 0x55).unwrap();
    assert_eq!(exec(&mut machine, 0xD2, 0x35), Ok(Outcome::Redraw));
    // 0x20, 0x60, 0x20, 0x20, 0x70 at column 8, row 2
    assert_eq!(
        lit_pixels(&machine),
        vec![(2, 10), (3, 9), (3, 10), (4, 10), (5, 10), (6, 9), (6, 10), (6, 11)]
    );
    assert_eq!(machine.register(0xF), 0);
    assert_eq!(exec(&mut machine, 0xD2, 0x35), Ok(Outcome::Redraw));
    assert!(lit_pixels(&machine).is_empty());
    assert_eq!(machine.register(0xF), 1);
}

#[test]
fn draw_wraps_round_both_edges() {
    let mut machine = machine_with(&[0xFF, 0xFF]);
    exec(&mut machine, 0xA2, 0x00).unwrap();
    exec(&mut machine, 0x61, 60).unwrap();
    exec(&mut machine, 0x62, 31).unwrap();
    assert_eq!(exec(&mut machine, 0xD1, 0x22), Ok(Outcome::Redraw));
    let mut expected = Vec::new();
    for row in [0usize, 31] {
        for col in [0usize, 1, 2, 3, 60, 61, 62, 63] {
            expected.push((row, col));
        }
    }
    assert_eq!(lit_pixels(&machine), expected);
    assert_eq!(machine.register(0xF), 0);
}

#[test]
fn draw_of_no_rows_changes_only_the_flag() {
    let mut machine = Emulator::new();
    exec(&mut machine, 0x6F, 0x09).unwrap();
    assert_eq!(exec(&mut machine, 0xD0, 0x00), Ok(Outcome::Redraw));
    assert!(lit_pixels(&machine).is_empty());
    assert_eq!(machine.register(0xF), 0);
}

#[test]
fn draw_needs_the_whole_sprite_within_memory() {
    let mut machine = Emulator::new();
    exec(&mut machine, 0xAF, 0xFF).unwrap();
    exec(&mut machine, 0x6F, 0x09).unwrap();
    assert_eq!(exec(&mut machine, 0xD0, 0x02), Err(FaultKind::MemoryOutOfBounds));
    assert_eq!(machine.register(0xF), 0x09);
    assert!(lit_pixels(&machine).is_empty());
    assert_eq!(exec(&mut machine, 0xD0, 0x01), Ok(Outcome::Redraw));
}

#[test]
fn clear_screen_instruction_blanks_the_display() {
    let mut machine = Emulator::new();
    exec(&mut machine, 0xD0, 0x05).unwrap();
    assert!(!lit_pixels(&machine).is_empty());
    assert_eq!(exec(&mut machine, 0x00, 0xE0), Ok(Outcome::Continue));
    assert!(lit_pixels(&machine).is_empty());
}

#[test]
fn skips_follow_the_keypad() {
    let mut machine = Emulator::new();
    exec(&mut machine, 0x61, 0x0B).unwrap();
    exec(&mut machine, 0xE1, 0x9E).unwrap();
    assert_eq!(machine.pc(), 0x200);
    exec(&mut machine, 0xE1, 0xA1).unwrap();
    assert_eq!(machine.pc(), 0x202);
    machine.set_key(0xB, true);
    assert!(machine.keypad().is_pressed(0xB));
    exec(&mut machine, 0xE1, 0x9E).unwrap();
    assert_eq!(machine.pc(), 0x204);
    exec(&mut machine, 0xE1, 0xA1).unwrap();
    assert_eq!(machine.pc(), 0x204);
    machine.set_key(0xB, false);
    exec(&mut machine, 0xE1, 0x9E).unwrap();
    assert_eq!(machine.pc(), 0x204);
}

#[test]
fn key_skip_on_a_value_above_0xf_is_a_fault() {
    let mut machine = Emulator::new();
    exec(&mut machine, 0x61, 0x10).unwrap();
    assert_eq!(exec(&mut machine, 0xE1, 0x9E), Err(FaultKind::InvalidDigit));
    assert_eq!(exec(&mut machine, 0xE1, 0xA1), Err(FaultKind::InvalidDigit));
    assert_eq!(machine.pc(), 0x200);
}

#[test]
fn wait_for_key_blocks_until_a_key_is_pressed() {
    // 0x200: LD V4, K; 0x202: LD V5, 0x01
    let mut machine = machine_with(&[0xF4, 0x0A, 0x65, 0x01]);
    for _ in 0..3 {
        assert_eq!(machine.step(0), Ok(Outcome::WaitingForKey));
        assert_eq!(machine.pc(), 0x200);
        assert_eq!(machine.register(4), 0);
    }
    assert_eq!(machine.cycle(), Ok(Outcome::WaitingForKey));
    assert_eq!(machine.pc(), 0x200);
    machine.set_key(0xC, true);
    machine.set_key(0x7, true);
    assert_eq!(machine.step(0), Ok(Outcome::Continue));
    assert_eq!(machine.register(4), 0x7);
    assert_eq!(machine.pc(), 0x202);
    assert_eq!(machine.step(0), Ok(Outcome::Continue));
    assert_eq!(machine.register(5), 0x01);
}

#[test]
fn wait_for_key_leaves_the_timers_to_the_driver() {
    let mut machine = machine_with(&[0xF4, 0x0A]);
    exec(&mut machine, 0x61, 5).unwrap();
    exec(&mut machine, 0xF1, 0x15).unwrap();
    assert_eq!(machine.step(0), Ok(Outcome::WaitingForKey));
    machine.tick_timers();
    assert_eq!(machine.step(0), Ok(Outcome::WaitingForKey));
    machine.tick_timers();
    assert_eq!(machine.delay_timer(), 3);
}

#[test]
fn timers_are_set_read_and_counted_down_to_zero() {
    let mut machine = Emulator::new();
    exec(&mut machine, 0x61, 2).unwrap();
    exec(&mut machine, 0x62, 1).unwrap();
    exec(&mut machine, 0xF1, 0x15).unwrap();
    exec(&mut machine, 0xF2, 0x18).unwrap();
    assert_eq!(machine.delay_timer(), 2);
    assert_eq!(machine.sound_timer(), 1);
    exec(&mut machine, 0xF3, 0x07).unwrap();
    assert_eq!(machine.register(3), 2);
    machine.tick_timers();
    assert_eq!(machine.delay_timer(), 1);
    assert_eq!(machine.sound_timer(), 0);
    machine.tick_timers();
    assert_eq!(machine.delay_timer(), 0);
    assert_eq!(machine.sound_timer(), 0);
    machine.tick_timers();
    assert_eq!(machine.delay_timer(), 0);
    assert_eq!(machine.sound_timer(), 0);
    exec(&mut machine, 0xF3, 0x07).unwrap();
    assert_eq!(machine.register(3), 0);
}

#[test]
fn random_instruction_masks_the_given_byte() {
    let mut machine = Emulator::new();
    assert_eq!(machine.exec_opcode(OpCode::new(0xC1, 0x0F), 0xA7), Ok(Outcome::Continue));
    assert_eq!(machine.register(1), 0x07);
    machine.exec_opcode(OpCode::new(0xC1, 0xFF), 0xA7).unwrap();
    assert_eq!(machine.register(1), 0xA7);
    machine.exec_opcode(OpCode::new(0xC1, 0x00), 0xA7).unwrap();
    assert_eq!(machine.register(1), 0x00);
}

#[test]
fn step_uses_the_random_byte_it_is_given() {
    let mut machine = machine_with(&[0xC1, 0xF0, 0xC2, 0x3C]);
    assert!(machine.draws_random());
    assert_eq!(machine.step(0xFF), Ok(Outcome::Continue));
    assert_eq!(machine.register(1), 0xF0);
    assert_eq!(machine.step(0x5A), Ok(Outcome::Continue));
    assert_eq!(machine.register(2), 0x18);
    assert_eq!(machine.pc(), 0x204);
    assert!(!machine.draws_random());
}

#[test]
fn cycle_masks_the_byte_from_the_random_source() {
    // 0x200: RND V1, 0x0F; 0x202: RND V2, 0x00; 0x204: JP 0x200
    let mut machine = machine_with(&[0xC1, 0x0F, 0xC2, 0x00, 0x12, 0x00]);
    exec(&mut machine, 0x62, 0xFF).unwrap();
    let mut seen = [false; 16];
    for _ in 0..200 {
        assert_eq!(machine.cycle(), Ok(Outcome::Continue));
        assert!(machine.register(1) <= 0x0F);
        seen[machine.register(1) as usize] = true;
        assert_eq!(machine.cycle(), Ok(Outcome::Continue));
        assert_eq!(machine.register(2), 0);
        assert_eq!(machine.cycle(), Ok(Outcome::Continue));
        assert_eq!(machine.pc(), 0x200);
    }
    assert!(seen.iter().filter(|&&hit| hit).count() > 1);
}

#[test]
fn cycle_runs_a_program_like_step() {
    // V1 = 3; V2 = 0; loop: V2 += 5; V1 += 0xFF; skip if V1 == 0; jump loop; store BCD
    let program = [
        0x61, 0x03, // 0x200
        0x62, 0x00, // 0x202
        0x72, 0x05, // 0x204
        0x71, 0xFF, // 0x206
        0x31, 0x00, // 0x208
        0x12, 0x04, // 0x20A
        0xA3, 0x00, // 0x20C
        0xF2, 0x33, // 0x20E
    ];
    let mut cycled = machine_with(&program);
    let mut stepped = machine_with(&program);
    for _ in 0..15 {
        assert_eq!(cycled.cycle(), Ok(Outcome::Continue));
        assert_eq!(stepped.step(0), Ok(Outcome::Continue));
        assert_eq!(cycled.pc(), stepped.pc());
        assert_eq!(registers(&cycled), registers(&stepped));
    }
    assert_eq!(cycled.pc(), 0x210);
    assert_eq!(cycled.register(1), 0);
    assert_eq!(cycled.register(2), 15);
    assert_eq!(cycled.memory_at(0x300), 0);
    assert_eq!(cycled.memory_at(0x301), 1);
    assert_eq!(cycled.memory_at(0x302), 5);
    assert_eq!(memory(&cycled), memory(&stepped));
}

#[test]
fn cycle_reports_a_draw() {
    // 0x200: LD I, 0x000; 0x202: DRW V0, V0, 5
    let mut machine = machine_with(&[0xA0, 0x00, 0xD0, 0x05]);
    assert_eq!(machine.cycle(), Ok(Outcome::Continue));
    assert_eq!(machine.cycle(), Ok(Outcome::Redraw));
    // glyph of digit 0: 0xF0, 0x90, 0x90, 0x90, 0xF0
    assert_eq!(machine.screen().display().len(), 2 * 14);
    assert_eq!(machine.pc(), 0x204);
}
