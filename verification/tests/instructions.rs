use chip8::cpu::{Cpu, WaitState};
use chip8::machine::{Fault, ProgramCounterChange, Report};

#[test]
fn add_sets_result_and_carry_for_every_pair() {
    let mut chip = Cpu::new();
    for a in 0..=255u16 {
        for b in 0..=255u16 {
            chip.pc = 0;
            chip.v[1] = a as u8;
            chip.v[2] = b as u8;
            assert_eq!(chip.handle_opcode(0x8124), Ok(Report::Executed));
            assert_eq!(chip.v[1] as u16, (a + b) % 256);
            assert_eq!(chip.v[0xF] == 1, a + b >= 256);
            assert!(chip.v[0xF] <= 1);
            assert_eq!(chip.v[2], b as u8);
            assert_eq!(chip.pc, 2);
        }
    }
}

#[test]
fn sub_sets_result_and_no_borrow_for_every_pair() {
    let mut chip = Cpu::new();
    for a in 0..=255i32 {
        for b in 0..=255i32 {
            chip.pc = 0;
            chip.v[1] = a as u8;
            chip.v[2] = b as u8;
            assert_eq!(chip.handle_opcode(0x8125), Ok(Report::Executed));
            assert_eq!(chip.v[1] as i32, (a - b).rem_euclid(256));
            assert_eq!(chip.v[0xF] == 1, a >= b);
            assert!(chip.v[0xF] <= 1);

            chip.pc = 0;
            chip.v[1] = a as u8;
            chip.v[2] = b as u8;
            assert_eq!(chip.handle_opcode(0x8127), Ok(Report::Executed));
            assert_eq!(chip.v[1] as i32, (b - a).rem_euclid(256));
            assert_eq!(chip.v[0xF] == 1, b >= a);
        }
    }
}

#[test]
fn shifts_set_result_and_the_bit_shifted_out_for_every_byte() {
    let mut chip = Cpu::new();
    for a in 0..=255u16 {
        chip.pc = 0;
        chip.v[1] = a as u8;
        chip.v[2] = 0xAA;
        assert_eq!(chip.handle_opcode(0x8126), Ok(Report::Executed));
        assert_eq!(chip.v[1] as u16, a / 2);
        assert_eq!(chip.v[0xF] as u16, a % 2);
        assert_eq!(chip.v[2], 0xAA);

        chip.pc = 0;
        chip.v[1] = a as u8;
        assert_eq!(chip.handle_opcode(0x812E), Ok(Report::Executed));
        assert_eq!(chip.v[1] as u16, (a * 2) % 256);
        assert_eq!(chip.v[0xF] as u16, a / 128);
        assert_eq!(chip.v[2], 0xAA);
    }
}

#[test]
fn the_flag_stays_when_the_flag_register_is_the_target() {
    let mut chip = Cpu::new();
    chip.v[0xF] = 200;
    chip.v[1] = 100;
    chip.handle_opcode(0x8F14).unwrap();
    assert_eq!(chip.v[0xF], 1);

    chip.v[0xF] = 7;
    chip.v[1] = 1;
    chip.handle_opcode(0x8F14).unwrap();
    assert_eq!(chip.v[0xF], 0);

    chip.v[0xF] = 7;
    chip.v[1] = 9;
    chip.handle_opcode(0x8F15).unwrap();
    assert_eq!(chip.v[0xF], 0);
    chip.v[0xF] = 9;
    chip.handle_opcode(0x8F15).unwrap();
    assert_eq!(chip.v[0xF], 1);

    chip.v[0xF] = 7;
    chip.v[1] = 9;
    chip.handle_opcode(0x8F17).unwrap();
    assert_eq!(chip.v[0xF], 1);

    chip.v[0xF] = 3;
    chip.handle_opcode(0x8F06).unwrap();
    assert_eq!(chip.v[0xF], 1);
    chip.v[0xF] = 0x82;
    chip.handle_opcode(0x8F06).unwrap();
    assert_eq!(chip.v[0xF], 0);

    chip.v[0xF] = 0x82;
    chip.handle_opcode(0x8F0E).unwrap();
    assert_eq!(chip.v[0xF], 1);
    chip.v[0xF] = 0x42;
    chip.handle_opcode(0x8F0E).unwrap();
    assert_eq!(chip.v[0xF], 0);
}

#[test]
fn add_with_the_flag_register_as_operand_reads_it_first() {
    let mut chip = Cpu::new();
    chip.v[1] = 250;
    chip.v[0xF] = 10;
    chip.handle_opcode(0x81F4).unwrap();
    assert_eq!(chip.v[1], 4);
    assert_eq!(chip.v[0xF], 1);
}

#[test]
fn system_call_is_passed_over() {
    let mut chip = Cpu::new();
    chip.display[3][4] = 1;
    let before = chip.clone();
    assert_eq!(chip.handle_opcode(0x00E0), Ok(Report::SystemCallIgnored));
    assert_eq!(chip.pc, 2);
    chip.pc = 0;
    assert_eq!(chip, before);
}

#[test]
fn unrecognized_word_is_passed_over() {
    let mut chip = Cpu::new();
    let before = chip.clone();
    assert_eq!(chip.handle_opcode(0xF6FF), Ok(Report::UnrecognizedInstruction));
    assert_eq!(chip.pc, 2);
    assert_eq!(chip.handle_opcode(0x0000), Ok(Report::UnrecognizedInstruction));
    assert_eq!(chip.pc, 4);
    chip.pc = 0;
    assert_eq!(chip, before);
}

#[test]
fn return_on_an_empty_stack_is_a_fault() {
    let mut chip = Cpu::new();
    chip.pc = 0x300;
    let before = chip.clone();
    assert_eq!(chip.handle_opcode(0x00EE), Err(Fault::StackUnderflow));
    assert_eq!(chip, before);
    assert_eq!(chip.op_00ee(), Err(Fault::StackUnderflow));
    assert_eq!(chip, before);
}

#[test]
fn call_at_the_stack_limit_is_a_fault() {
    let mut chip = Cpu::new();
    for depth in 0..15u8 {
        assert_eq!(chip.sp, depth);
        chip.pc = 0x200 + 2 * depth as u16;
        assert_eq!(chip.handle_opcode(0x2400), Ok(Report::Executed));
        assert_eq!(chip.stack[depth as usize], 0x200 + 2 * depth as u16);
        assert_eq!(chip.pc, 0x400);
    }
    assert_eq!(chip.sp, 15);
    let before = chip.clone();
    assert_eq!(chip.handle_opcode(0x2400), Err(Fault::StackOverflow));
    assert_eq!(chip, before);
    assert_eq!(chip.op_2nnn(0x400), Err(Fault::StackOverflow));
    assert_eq!(chip, before);
}

#[test]
fn call_then_return_goes_back_to_the_pushed_address() {
    let mut chip = Cpu::new();
    chip.pc = 0x20A;
    chip.handle_opcode(0x2345).unwrap();
    assert_eq!((chip.pc, chip.sp, chip.stack[0]), (0x345, 1, 0x20A));
    chip.handle_opcode(0x00EE).unwrap();
    assert_eq!((chip.pc, chip.sp), (0x20A, 0));
}

#[test]
fn an_instruction_outside_memory_is_a_fault() {
    let mut chip = Cpu::new();
    chip.pc = 4094;
    assert_eq!(chip.handle_opcode(0x6105), Ok(Report::Executed));
    assert_eq!(chip.pc, 4096);
    let before = chip.clone();
    assert_eq!(chip.handle_opcode(0x6105), Err(Fault::ProgramCounterOutOfRange));
    assert_eq!(chip, before);
    chip.pc = 4095;
    assert_eq!(chip.handle_opcode(0x1200), Err(Fault::ProgramCounterOutOfRange));
    assert_eq!(chip.pc, 4095);
    chip.pc = 0xFFFF;
    assert_eq!(chip.handle_opcode(0x1200), Err(Fault::ProgramCounterOutOfRange));
    assert_eq!(chip.pc, 0xFFFF);
}

#[test]
fn skips_compare_registers_and_bytes() {
    let mut chip = Cpu::new();
    chip.v[4] = 0x42;
    chip.v[5] = 0x42;
    chip.v[6] = 0x43;
    assert_eq!(chip.op_3xkk(4, 0x42), ProgramCounterChange::Skip);
    assert_eq!(chip.op_3xkk(4, 0x41), ProgramCounterChange::Next);
    assert_eq!(chip.op_4xkk(4, 0x42), ProgramCounterChange::Next);
    assert_eq!(chip.op_4xkk(4, 0x41), ProgramCounterChange::Skip);
    assert_eq!(chip.op_5xy0(4, 5), ProgramCounterChange::Skip);
    assert_eq!(chip.op_5xy0(4, 6), ProgramCounterChange::Next);
    assert_eq!(chip.op_9xy0(4, 5), ProgramCounterChange::Next);
    assert_eq!(chip.op_9xy0(4, 6), ProgramCounterChange::Skip);

    chip.pc = 0x200;
    chip.handle_opcode(0x3442).unwrap();
    assert_eq!(chip.pc, 0x204);
    chip.handle_opcode(0x3443).unwrap();
    assert_eq!(chip.pc, 0x206);
    chip.handle_opcode(0x4442).unwrap();
    assert_eq!(chip.pc, 0x208);
    chip.handle_opcode(0x4443).unwrap();
    assert_eq!(chip.pc, 0x20C);
    chip.handle_opcode(0x9450).unwrap();
    assert_eq!(chip.pc, 0x20E);
    chip.handle_opcode(0x9460).unwrap();
    assert_eq!(chip.pc, 0x212);
}

#[test]
fn loads_moves_and_bitwise_operations_leave_the_flag() {
    let mut chip = Cpu::new();
    chip.v[0xF] = 9;
    chip.handle_opcode(0x61F0).unwrap();
    assert_eq!(chip.v[1], 0xF0);
    chip.handle_opcode(0x623C).unwrap();
    chip.handle_opcode(0x8320).unwrap();
    assert_eq!(chip.v[3], 0x3C);
    chip.handle_opcode(0x8121).unwrap();
    assert_eq!(chip.v[1], 0xFC);
    chip.v[1] = 0xF0;
    chip.handle_opcode(0x8122).unwrap();
    assert_eq!(chip.v[1], 0x30);
    chip.v[1] = 0xF0;
    chip.handle_opcode(0x8123).unwrap();
    assert_eq!(chip.v[1], 0xCC);
    assert_eq!(chip.v[2], 0x3C);
    assert_eq!(chip.v[0xF], 9);
    assert_eq!(chip.pc, 12);
}

#[test]
fn add_byte_wraps_and_leaves_the_flag() {
    let mut chip = Cpu::new();
    chip.v[1] = 250;
    chip.v[0xF] = 5;
    chip.handle_opcode(0x710A).unwrap();
    assert_eq!(chip.v[1], 4);
    assert_eq!(chip.v[0xF], 5);
    chip.handle_opcode(0x7101).unwrap();
    assert_eq!(chip.v[1], 5);
    chip.handle_opcode(0x71FF).unwrap();
    assert_eq!(chip.v[1], 4);
}

#[test]
fn index_register_operations() {
    let mut chip = Cpu::new();
    chip.handle_opcode(0xAABC).unwrap();
    assert_eq!(chip.i, 0xABC);
    chip.v[3] = 0xFF;
    chip.handle_opcode(0xF31E).unwrap();
    assert_eq!(chip.i, 0xABC + 0xFF);
    chip.i = 0xFFFF;
    chip.v[3] = 2;
    chip.handle_opcode(0xF31E).unwrap();
    assert_eq!(chip.i, 1);
    chip.i = 0xFF01;
    chip.v[3] = 0xFF;
    chip.handle_opcode(0xF31E).unwrap();
    assert_eq!(chip.i, 0);
}

#[test]
fn glyph_address_is_five_times_the_low_nibble() {
    let mut chip = Cpu::new();
    for value in 0..=255u8 {
        chip.v[2] = value;
        chip.op_fx29(2);
        assert_eq!(chip.i, (value as u16 % 16) * 5);
    }
    chip.v[2] = 0xA;
    chip.op_fx29(2);
    assert_eq!(chip.i, 50);
    assert_eq!(&chip.memory[50..55], &[0xF0, 0x90, 0xF0, 0x90, 0x90]);
    chip.v[2] = 0x3A;
    chip.op_fx29(2);
    assert_eq!(chip.i, 50);
}

#[test]
fn jump_with_offset_adds_register_zero() {
    let mut chip = Cpu::new();
    chip.v[0] = 0x10;
    chip.handle_opcode(0xB300).unwrap();
    assert_eq!(chip.pc, 0x310);
    chip.pc = 0;
    chip.v[0] = 0xFF;
    chip.handle_opcode(0xBFFF).unwrap();
    assert_eq!(chip.pc, 0xFFF + 0xFF);
    assert_eq!(chip.handle_opcode(0x6000), Err(Fault::ProgramCounterOutOfRange));
}

#[test]
fn random_keeps_within_the_mask() {
    let mut chip = Cpu::new();
    for _ in 0..200 {
        chip.pc = 0;
        chip.v[4] = 0xFF;
        assert_eq!(chip.handle_opcode(0xC40F), Ok(Report::Executed));
        assert_eq!(chip.v[4] & 0xF0, 0);
        assert_eq!(chip.pc, 2);
        chip.v[5] = 0xFF;
        assert_eq!(chip.op_cxkk(5, 0x00), ProgramCounterChange::Next);
        assert_eq!(chip.v[5], 0);
    }
}

#[test]
fn random_takes_every_bit_of_the_mask_sometimes() {
    let mut chip = Cpu::new();
    let mut ones = 0u8;
    let mut zeros = 0u8;
    for _ in 0..2000 {
        chip.op_cxkk(1, 0xFF);
        ones |= chip.v[1];
        zeros |= !chip.v[1];
    }
    assert_eq!(ones, 0xFF);
    assert_eq!(zeros, 0xFF);
}

#[test]
fn random_with_a_given_byte_is_the_masked_byte() {
    let mut chip = Cpu::new();
    assert_eq!(chip.op_cxkk_with(3, 0x3C, 0xA5), ProgramCounterChange::Next);
    assert_eq!(chip.v[3], 0x24);
    chip.op_cxkk_with(3, 0xFF, 0xA5);
    assert_eq!(chip.v[3], 0xA5);
    chip.op_cxkk_with(3, 0x00, 0xA5);
    assert_eq!(chip.v[3], 0x00);
    for kk in [0x00u8, 0x0F, 0x55, 0x80, 0xFF] {
        for byte in 0..=255u8 {
            chip.op_cxkk_with(7, kk, byte);
            assert_eq!(chip.v[7], kk & byte);
        }
    }
}

#[test]
fn key_skips_read_the_keypad() {
    let mut chip = Cpu::new();
    chip.keyboard.press_key(0xA);
    chip.v[1] = 0xA;
    chip.v[2] = 0xB;
    chip.v[3] = 0x1A;
    assert_eq!(chip.op_ex9e(1), ProgramCounterChange::Skip);
    assert_eq!(chip.op_ex9e(2), ProgramCounterChange::Next);
    assert_eq!(chip.op_ex9e(3), ProgramCounterChange::Next);
    assert_eq!(chip.op_exa1(1), ProgramCounterChange::Next);
    assert_eq!(chip.op_exa1(2), ProgramCounterChange::Skip);
    assert_eq!(chip.op_exa1(3), ProgramCounterChange::Skip);
    chip.handle_opcode(0xE19E).unwrap();
    assert_eq!(chip.pc, 4);
    chip.handle_opcode(0xE1A1).unwrap();
    assert_eq!(chip.pc, 6);
    chip.handle_opcode(0xE3A1).unwrap();
    assert_eq!(chip.pc, 10);
}

#[test]
fn timers_are_read_and_set() {
    let mut chip = Cpu::new();
    chip.v[1] = 60;
    chip.v[2] = 30;
    chip.handle_opcode(0xF115).unwrap();
    chip.handle_opcode(0xF218).unwrap();
    assert_eq!((chip.dt, chip.st), (60, 30));
    chip.handle_opcode(0xF307).unwrap();
    assert_eq!(chip.v[3], 60);
    assert_eq!((chip.dt, chip.st), (60, 30));
}

#[test]
fn bcd_stores_three_digits() {
    let mut chip = Cpu::new();
    chip.i = 0x300;
    chip.v[5] = 254;
    assert_eq!(chip.handle_opcode(0xF533), Ok(Report::Executed));
    assert_eq!(&chip.memory[0x300..0x303], &[2, 5, 4]);
    chip.v[5] = 7;
    chip.handle_opcode(0xF533).unwrap();
    assert_eq!(&chip.memory[0x300..0x303], &[0, 0, 7]);
    chip.v[5] = 100;
    chip.handle_opcode(0xF533).unwrap();
    assert_eq!(&chip.memory[0x300..0x303], &[1, 0, 0]);
    assert_eq!(chip.i, 0x300);
    assert_eq!(chip.memory[0x2FF], 0);
    assert_eq!(chip.memory[0x303], 0);
}

#[test]
fn bcd_at_the_end_of_memory() {
    let mut chip = Cpu::new();
    chip.v[5] = 123;
    chip.i = 4093;
    assert_eq!(chip.handle_opcode(0xF533), Ok(Report::Executed));
    assert_eq!(&chip.memory[4093..4096], &[1, 2, 3]);
    for i in [4094u16, 4095, 4096, 0xFFFF] {
        chip.i = i;
        chip.pc = 0;
        let before = chip.clone();
        assert_eq!(chip.handle_opcode(0xF533), Ok(Report::MemoryOutOfRange));
        assert_eq!(chip.pc, 2);
        chip.pc = 0;
        assert_eq!(chip, before);
        assert_eq!(chip.op_fx33(5), None);
        assert_eq!(chip, before);
    }
}

#[test]
fn store_registers_includes_the_last_one() {
    let mut chip = Cpu::new();
    for k in 0..16 {
        chip.v[k] = 0x10 + k as u8;
    }
    chip.i = 0x400;
    assert_eq!(chip.handle_opcode(0xF055), Ok(Report::Executed));
    assert_eq!(&chip.memory[0x400..0x402], &[0x10, 0]);
    assert_eq!(chip.handle_opcode(0xF355), Ok(Report::Executed));
    assert_eq!(&chip.memory[0x400..0x405], &[0x10, 0x11, 0x12, 0x13, 0]);
    assert_eq!(chip.handle_opcode(0xFF55), Ok(Report::Executed));
    for k in 0..16 {
        assert_eq!(chip.memory[0x400 + k], 0x10 + k as u8);
    }
    assert_eq!(chip.memory[0x3FF], 0);
    assert_eq!(chip.memory[0x410], 0);
    assert_eq!(chip.i, 0x400);
}

#[test]
fn load_registers_includes_the_last_one() {
    let mut chip = Cpu::new();
    for k in 0..16 {
        chip.memory[0x400 + k] = 0x20 + k as u8;
        chip.v[k] = 0xEE;
    }
    chip.i = 0x400;
    assert_eq!(chip.handle_opcode(0xF065), Ok(Report::Executed));
    assert_eq!(&chip.v[0..2], &[0x20, 0xEE]);
    assert_eq!(chip.handle_opcode(0xF365), Ok(Report::Executed));
    assert_eq!(&chip.v[0..5], &[0x20, 0x21, 0x22, 0x23, 0xEE]);
    assert_eq!(chip.handle_opcode(0xFF65), Ok(Report::Executed));
    for k in 0..16 {
        assert_eq!(chip.v[k], 0x20 + k as u8);
    }
    assert_eq!(chip.i, 0x400);
}

#[test]
fn register_transfer_beyond_memory_is_passed_over() {
    let mut chip = Cpu::new();
    for k in 0..16 {
        chip.v[k] = 0x10 + k as u8;
    }
    chip.i = 4092;
    assert_eq!(chip.handle_opcode(0xF355), Ok(Report::Executed));
    assert_eq!(&chip.memory[4092..4096], &[0x10, 0x11, 0x12, 0x13]);
    let before = chip.clone();
    assert_eq!(chip.handle_opcode(0xF455), Ok(Report::MemoryOutOfRange));
    assert_eq!(chip.handle_opcode(0xF465), Ok(Report::MemoryOutOfRange));
    assert_eq!(chip.pc, before.pc + 4);
    chip.pc = before.pc;
    assert_eq!(chip, before);
    assert_eq!(chip.op_fx55(4), None);
    assert_eq!(chip.op_fx65(4), None);
    assert_eq!(chip, before);
    chip.i = 0xFFFF;
    assert_eq!(chip.op_fx55(0), None);
    assert_eq!(chip.op_fx65(0), None);
    chip.i = 4095;
    assert_eq!(chip.op_fx65(0), Some(ProgramCounterChange::Next));
    assert_eq!(chip.v[0], 0x13);
}

#[test]
fn wait_for_key_suspends_with_a_snapshot() {
    let mut chip = Cpu::new();
    chip.keyboard.press_key(2);
    assert!(!chip.paused());
    assert_eq!(chip.handle_opcode(0xF70A), Ok(Report::Executed));
    assert!(chip.paused());
    assert_eq!(chip.pc, 2);
    let mut snapshot = [false; 16];
    snapshot[2] = true;
    assert_eq!(chip.wait, WaitState::WaitingForKey { register: 7, snapshot });
}
