use chip8::cpu::Cpu;
use chip8::machine::{ProgramCounterChange, Report};

fn lit(chip: &Cpu) -> Vec<(usize, usize)> {
    let mut cells = Vec::new();
    for row in 0..32 {
        for column in 0..64 {
            assert!(chip.display[row][column] <= 1);
            if chip.display[row][column] == 1 {
                cells.push((row, column));
            }
        }
    }
    cells
}

#[test]
fn draw_puts_the_bits_of_each_row_most_significant_first() {
    let mut chip = Cpu::new();
    chip.memory[0x300] = 0b1010_0001;
    chip.memory[0x301] = 0b0100_0000;
    chip.i = 0x300;
    chip.v[1] = 10;
    chip.v[2] = 5;
    chip.v[0xF] = 1;
    assert_eq!(chip.handle_opcode(0xD122), Ok(Report::Executed));
    assert_eq!(lit(&chip), vec![(5, 10), (5, 12), (5, 17), (6, 11)]);
    assert_eq!(chip.v[0xF], 0);
    assert_eq!(chip.pc, 2);
    assert_eq!(chip.i, 0x300);
}

#[test]
fn draw_of_a_glyph() {
    let mut chip = Cpu::new();
    chip.v[0] = 1;
    chip.op_fx29(0);
    assert_eq!(chip.op_dxyn(3, 3, 5), Some(ProgramCounterChange::Next));
    // 0x20, 0x60, 0x20, 0x20, 0x70 at the origin
    assert_eq!(
        lit(&chip),
        vec![(0, 2), (1, 1), (1, 2), (2, 2), (3, 2), (4, 1), (4, 2), (4, 3)]
    );
}

#[test]
fn draw_wraps_around_both_edges() {
    let mut chip = Cpu::new();
    chip.memory[0x300] = 0xFF;
    chip.memory[0x301] = 0x81;
    chip.i = 0x300;
    chip.v[1] = 60;
    chip.v[2] = 31;
    assert_eq!(chip.handle_opcode(0xD122), Ok(Report::Executed));
    assert_eq!(
        lit(&chip),
        vec![
            (0, 3),
            (0, 60),
            (31, 0),
            (31, 1),
            (31, 2),
            (31, 3),
            (31, 60),
            (31, 61),
            (31, 62),
            (31, 63)
        ]
    );
    assert_eq!(chip.v[0xF], 0);
}

#[test]
fn draw_takes_the_origin_modulo_the_display() {
    let mut a = Cpu::new();
    a.memory[0x300] = 0xC3;
    a.i = 0x300;
    a.v[1] = 64 + 7;
    a.v[2] = 32 * 3 + 9;
    a.handle_opcode(0xD121).unwrap();
    assert_eq!(lit(&a), vec![(9, 7), (9, 8), (9, 13), (9, 14)]);

    let mut b = Cpu::new();
    b.memory[0x300] = 0xC3;
    b.i = 0x300;
    b.v[1] = 255;
    b.v[2] = 255;
    b.handle_opcode(0xD121).unwrap();
    assert_eq!(lit(&b), vec![(31, 0), (31, 5), (31, 6), (31, 63)]);
}

#[test]
fn draw_reports_a_collision_and_flips_the_cell() {
    let mut chip = Cpu::new();
    chip.memory[0x300] = 0b1100_0000;
    chip.memory[0x301] = 0b0110_0000;
    chip.i = 0x300;
    chip.v[1] = 0;
    chip.v[2] = 0;
    chip.handle_opcode(0xD121).unwrap();
    assert_eq!(lit(&chip), vec![(0, 0), (0, 1)]);
    assert_eq!(chip.v[0xF], 0);

    chip.i = 0x301;
    chip.handle_opcode(0xD121).unwrap();
    assert_eq!(lit(&chip), vec![(0, 0), (0, 2)]);
    assert_eq!(chip.v[0xF], 1);

    // no collision this time: the flag goes back to 0
    chip.v[2] = 4;
    chip.handle_opcode(0xD121).unwrap();
    assert_eq!(lit(&chip), vec![(0, 0), (0, 2), (4, 1), (4, 2)]);
    assert_eq!(chip.v[0xF], 0);
}

#[test]
fn a_collision_early_in_the_sprite_is_kept() {
    let mut chip = Cpu::new();
    chip.display[10][20] = 1;
    chip.memory[0x300] = 0x80;
    chip.memory[0x301] = 0x80;
    chip.memory[0x302] = 0x80;
    chip.i = 0x300;
    chip.v[1] = 20;
    chip.v[2] = 10;
    chip.handle_opcode(0xD123).unwrap();
    assert_eq!(lit(&chip), vec![(11, 20), (12, 20)]);
    assert_eq!(chip.v[0xF], 1);
}

#[test]
fn drawing_twice_restores_the_display() {
    let mut chip = Cpu::new();
    for k in 0..15 {
        chip.memory[0x300 + k] = (k as u8).wrapping_mul(37) ^ 0x5A;
    }
    chip.memory[0x400] = 0xFF;
    chip.i = 0x400;
    chip.v[3] = 58;
    chip.v[4] = 25;
    chip.handle_opcode(0xD341).unwrap();
    let before = chip.display;
    assert_eq!(lit(&chip).len(), 8);

    chip.i = 0x300;
    for (left, top) in [(0u8, 0u8), (58, 25), (61, 30), (200, 77), (255, 255)] {
        chip.v[1] = left;
        chip.v[2] = top;
        chip.handle_opcode(0xD12F).unwrap();
        assert_ne!(chip.display, before);
        let collided = chip.v[0xF];
        chip.handle_opcode(0xD12F).unwrap();
        assert_eq!(chip.display, before);
        // the second draw turns off whatever the first turned on
        assert_eq!(chip.v[0xF], 1);
        assert!(collided <= 1);
    }
}

#[test]
fn draw_with_no_rows_draws_nothing() {
    let mut chip = Cpu::new();
    chip.display[1][1] = 1;
    chip.v[0xF] = 1;
    chip.i = 0x300;
    chip.memory[0x300] = 0xFF;
    assert_eq!(chip.handle_opcode(0xD000), Ok(Report::Executed));
    assert_eq!(lit(&chip), vec![(1, 1)]);
    assert_eq!(chip.v[0xF], 0);
    chip.i = 4096;
    assert_eq!(chip.handle_opcode(0xD000), Ok(Report::Executed));
}

#[test]
fn draw_reads_the_origin_before_it_writes_the_flag() {
    let mut chip = Cpu::new();
    chip.memory[0x300] = 0x80;
    chip.i = 0x300;
    chip.v[0xF] = 9;
    chip.v[1] = 3;
    chip.handle_opcode(0xDF11).unwrap();
    assert_eq!(lit(&chip), vec![(3, 9)]);
    assert_eq!(chip.v[0xF], 0);
}

#[test]
fn draw_beyond_memory_is_passed_over() {
    let mut chip = Cpu::new();
    chip.memory[4094] = 0x80;
    chip.memory[4095] = 0x40;
    chip.i = 4094;
    assert_eq!(chip.handle_opcode(0xD002), Ok(Report::Executed));
    assert_eq!(lit(&chip), vec![(0, 0), (1, 1)]);

    chip.v[0xF] = 1;
    chip.pc = 0;
    let before = chip.clone();
    assert_eq!(chip.handle_opcode(0xD003), Ok(Report::MemoryOutOfRange));
    assert_eq!(chip.pc, 2);
    chip.pc = 0;
    assert_eq!(chip, before);
    assert_eq!(chip.op_dxyn(0, 0, 3), None);
    chip.i = 0xFFFF;
    assert_eq!(chip.op_dxyn(0, 0, 1), None);
    assert_eq!(chip.op_dxyn(0, 0, 15), None);
    chip.i = 4094;
    assert_eq!(chip, before);
}
