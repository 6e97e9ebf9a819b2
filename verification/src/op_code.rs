//! Instruction words and their fields.

use vstd::prelude::*;

verus! {

/// The fields of one 16-bit instruction word.
///
/// `op_1` to `op_4` are the four nibbles of the word, most significant first.
/// The remaining fields are the operands an instruction may read: `x` and `y`
/// select registers, `n` is a 4-bit immediate, `kk` an 8-bit immediate and
/// `nnn` a 12-bit address.
#[derive(Clone, Copy, Debug, PartialEq, Eq)]
pub struct OpCode {
    pub op_1: usize,
    pub op_2: usize,
    pub op_3: usize,
    pub op_4: usize,
    pub nnn: usize,
    pub kk: u8,
    pub x: usize,
    pub y: usize,
    pub n: usize,
}

/// The fields of `word`, stated arithmetically: nibble `k` (counted from the
/// least significant one) is `word / 16^k % 16`.
pub open spec fn fields_of(word: u16) -> OpCode {
    OpCode {
        op_1: (word / 0x1000) as usize,
        op_2: (word / 0x100 % 0x10) as usize,
        op_3: (word / 0x10 % 0x10) as usize,
        op_4: (word % 0x10) as usize,
        nnn: (word % 0x1000) as usize,
        kk: (word % 0x100) as u8,
        x: (word / 0x100 % 0x10) as usize,
        y: (word / 0x10 % 0x10) as usize,
        n: (word % 0x10) as usize,
    }
}

/// Splits an instruction word into its fields. Every word decodes; whether it
/// names an instruction is decided later.
pub fn parse_op_codes_from_word(opcode: u16) -> (fields: OpCode)
    ensures
        fields == fields_of(opcode),
{
    assert((opcode & 0xF000) >> 12 == opcode / 0x1000) by (bit_vector);
    assert((opcode & 0x0F00) >> 8 == opcode / 0x100 % 0x10) by (bit_vector);
    assert((opcode & 0x00F0) >> 4 == opcode / 0x10 % 0x10) by (bit_vector);
    assert(opcode & 0x000F == opcode % 0x10) by (bit_vector);
    assert(opcode & 0x0FFF == opcode % 0x1000) by (bit_vector);
    assert(opcode & 0x00FF == opcode % 0x100) by (bit_vector);
    OpCode {
        op_1: ((opcode & 0xF000) >> 12) as usize,
        op_2: ((opcode & 0x0F00) >> 8) as usize,
        op_3: ((opcode & 0x00F0) >> 4) as usize,
        op_4: (opcode & 0x000F) as usize,
        nnn: (opcode & 0x0FFF) as usize,
        kk: (opcode & 0x00FF) as u8,
        x: ((opcode & 0x0F00) >> 8) as usize,
        y: ((opcode & 0x00F0) >> 4) as usize,
        n: (opcode & 0x000F) as usize,
    }
}

/// One instruction of the machine, with the operands it reads.
///
/// `x` and `y` select registers, `n` is a 4-bit immediate, `kk` an 8-bit
/// immediate and `nnn` a 12-bit address.
#[derive(Clone, Copy, Debug, PartialEq, Eq, Structural)]
pub enum Instruction {
    /// `00E0`: a call into machine code, which this interpreter ignores.
    Sys,
    /// `00EE`: return from a subroutine.
    Return,
    /// `1nnn`: jump to `nnn`.
    Jump { nnn: usize },
    /// `2nnn`: call the subroutine at `nnn`.
    Call { nnn: usize },
    /// `3xkk`: skip the next instruction if `Vx == kk`.
    SkipEqualByte { x: usize, kk: u8 },
    /// `4xkk`: skip the next instruction if `Vx != kk`.
    SkipNotEqualByte { x: usize, kk: u8 },
    /// `5xy0`: skip the next instruction if `Vx == Vy`.
    SkipEqual { x: usize, y: usize },
    /// `6xkk`: `Vx = kk`.
    LoadByte { x: usize, kk: u8 },
    /// `7xkk`: `Vx = Vx + kk`, wrapping, flag untouched.
    AddByte { x: usize, kk: u8 },
    /// `8xy0`: `Vx = Vy`.
    Move { x: usize, y: usize },
    /// `8xy1`: `Vx = Vx | Vy`.
    Or { x: usize, y: usize },
    /// `8xy2`: `Vx = Vx & Vy`.
    And { x: usize, y: usize },
    /// `8xy3`: `Vx = Vx ^ Vy`.
    Xor { x: usize, y: usize },
    /// `8xy4`: `Vx = Vx + Vy`, flag = carry.
    Add { x: usize, y: usize },
    /// `8xy5`: `Vx = Vx - Vy`, flag = no borrow.
    Sub { x: usize, y: usize },
    /// `8xy6`: `Vx = Vx >> 1`, flag = the bit shifted out.
    ShiftRight { x: usize },
    /// `8xy7`: `Vx = Vy - Vx`, flag = no borrow.
    SubReverse { x: usize, y: usize },
    /// `8xyE`: `Vx = Vx << 1`, flag = the bit shifted out.
    ShiftLeft { x: usize },
    /// `9xy0`: skip the next instruction if `Vx != Vy`.
    SkipNotEqual { x: usize, y: usize },
    /// `Annn`: `I = nnn`.
    LoadIndex { nnn: usize },
    /// `Bnnn`: jump to `nnn + V0`.
    JumpOffset { nnn: usize },
    /// `Cxkk`: `Vx = kk & r` for a random byte `r`.
    Random { x: usize, kk: u8 },
    /// `Dxyn`: draw the `n`-row sprite at `I` at `(Vx, Vy)`, flag = collision.
    Draw { x: usize, y: usize, n: usize },
    /// `Ex9E`: skip the next instruction if the key named by `Vx` is down.
    SkipKeyPressed { x: usize },
    /// `ExA1`: skip the next instruction if the key named by `Vx` is not down.
    SkipKeyReleased { x: usize },
    /// `Fx07`: `Vx = delay timer`.
    ReadDelay { x: usize },
    /// `Fx0A`: wait for a key press and store its index in `Vx`.
    WaitKey { x: usize },
    /// `Fx15`: `delay timer = Vx`.
    SetDelay { x: usize },
    /// `Fx18`: `sound timer = Vx`.
    SetSound { x: usize },
    /// `Fx1E`: `I = I + Vx`.
    AddIndex { x: usize },
    /// `Fx29`: `I =` address of the glyph for the low nibble of `Vx`.
    LoadGlyph { x: usize },
    /// `Fx33`: store the decimal digits of `Vx` at `I`, `I + 1`, `I + 2`.
    StoreBcd { x: usize },
    /// `Fx55`: store `V0..=Vx` at `I` onwards.
    StoreRegisters { x: usize },
    /// `Fx65`: load `V0..=Vx` from `I` onwards.
    LoadRegisters { x: usize },
    /// Any word that matches none of the patterns above.
    Unknown,
}

/// The instruction that a word with the given fields names: the decoding
/// table of the instruction set, keyed by the four nibbles.
pub open spec fn instruction_of(f: OpCode) -> Instruction {
    match (f.op_1, f.op_2, f.op_3, f.op_4) {
        (0x0, 0x0, 0xE, 0x0) => Instruction::Sys,
        (0x0, 0x0, 0xE, 0xE) => Instruction::Return,
        (0x1, _, _, _) => Instruction::Jump { nnn: f.nnn },
        (0x2, _, _, _) => Instruction::Call { nnn: f.nnn },
        (0x3, _, _, _) => Instruction::SkipEqualByte { x: f.x, kk: f.kk },
        (0x4, _, _, _) => Instruction::SkipNotEqualByte { x: f.x, kk: f.kk },
        (0x5, _, _, 0x0) => Instruction::SkipEqual { x: f.x, y: f.y },
        (0x6, _, _, _) => Instruction::LoadByte { x: f.x, kk: f.kk },
        (0x7, _, _, _) => Instruction::AddByte { x: f.x, kk: f.kk },
        (0x8, _, _, 0x0) => Instruction::Move { x: f.x, y: f.y },
        (0x8, _, _, 0x1) => Instruction::Or { x: f.x, y: f.y },
        (0x8, _, _, 0x2) => Instruction::And { x: f.x, y: f.y },
        (0x8, _, _, 0x3) => Instruction::Xor { x: f.x, y: f.y },
        (0x8, _, _, 0x4) => Instruction::Add { x: f.x, y: f.y },
        (0x8, _, _, 0x5) => Instruction::Sub { x: f.x, y: f.y },
        (0x8, _, _, 0x6) => Instruction::ShiftRight { x: f.x },
        (0x8, _, _, 0x7) => Instruction::SubReverse { x: f.x, y: f.y },
        (0x8, _, _, 0xE) => Instruction::ShiftLeft { x: f.x },
        (0x9, _, _, 0x0) => Instruction::SkipNotEqual { x: f.x, y: f.y },
        (0xA, _, _, _) => Instruction::LoadIndex { nnn: f.nnn },
        (0xB, _, _, _) => Instruction::JumpOffset { nnn: f.nnn },
        (0xC, _, _, _) => Instruction::Random { x: f.x, kk: f.kk },
        (0xD, _, _, _) => Instruction::Draw { x: f.x, y: f.y, n: f.n },
        (0xE, _, 0x9, 0xE) => Instruction::SkipKeyPressed { x: f.x },
        (0xE, _, 0xA, 0x1) => Instruction::SkipKeyReleased { x: f.x },
        (0xF, _, 0x0, 0x7) => Instruction::ReadDelay { x: f.x },
        (0xF, _, 0x0, 0xA) => Instruction::WaitKey { x: f.x },
        (0xF, _, 0x1, 0x5) => Instruction::SetDelay { x: f.x },
        (0xF, _, 0x1, 0x8) => Instruction::SetSound { x: f.x },
        (0xF, _, 0x1, 0xE) => Instruction::AddIndex { x: f.x },
        (0xF, _, 0x2, 0x9) => Instruction::LoadGlyph { x: f.x },
        (0xF, _, 0x3, 0x3) => Instruction::StoreBcd { x: f.x },
        (0xF, _, 0x5, 0x5) => Instruction::StoreRegisters { x: f.x },
        (0xF, _, 0x6, 0x5) => Instruction::LoadRegisters { x: f.x },
        _ => Instruction::Unknown,
    }
}

impl Instruction {
    /// Every operand is within the width of its field.
    pub open spec fn wf(self) -> bool {
        match self {
            Instruction::Sys | Instruction::Return | Instruction::Unknown => true,
            Instruction::Jump { nnn }
            | Instruction::Call { nnn }
            | Instruction::LoadIndex { nnn }
            | Instruction::JumpOffset { nnn } => nnn < 0x1000,
            Instruction::SkipEqualByte { x, .. }
            | Instruction::SkipNotEqualByte { x, .. }
            | Instruction::LoadByte { x, .. }
            | Instruction::AddByte { x, .. }
            | Instruction::Random { x, .. }
            | Instruction::ShiftRight { x }
            | Instruction::ShiftLeft { x }
            | Instruction::SkipKeyPressed { x }
            | Instruction::SkipKeyReleased { x }
            | Instruction::ReadDelay { x }
            | Instruction::WaitKey { x }
            | Instruction::SetDelay { x }
            | Instruction::SetSound { x }
            | Instruction::AddIndex { x }
            | Instruction::LoadGlyph { x }
            | Instruction::StoreBcd { x }
            | Instruction::StoreRegisters { x }
            | Instruction::LoadRegisters { x } => x < 0x10,
            Instruction::SkipEqual { x, y }
            | Instruction::Move { x, y }
            | Instruction::Or { x, y }
            | Instruction::And { x, y }
            | Instruction::Xor { x, y }
            | Instruction::Add { x, y }
            | Instruction::Sub { x, y }
            | Instruction::SubReverse { x, y }
            | Instruction::SkipNotEqual { x, y } => x < 0x10 && y < 0x10,
            Instruction::Draw { x, y, n } => x < 0x10 && y < 0x10 && n < 0x10,
        }
    }

    /// Decodes an instruction word. Total: a word that names no instruction
    /// decodes to [`Instruction::Unknown`].
    pub fn decode(opcode: u16) -> (instruction: Instruction)
        ensures
            instruction == instruction_of(fields_of(opcode)),
            instruction.wf(),
    {
        let f = parse_op_codes_from_word(opcode);
        let low = f.op_3 * 16 + f.op_4;
        match f.op_1 {
            0x0 => if f.nnn == 0x0E0 {
                Instruction::Sys
            } else if f.nnn == 0x0EE {
                Instruction::Return
            } else {
                Instruction::Unknown
            },
            0x1 => Instruction::Jump { nnn: f.nnn },
            0x2 => Instruction::Call { nnn: f.nnn },
            0x3 => Instruction::SkipEqualByte { x: f.x, kk: f.kk },
            0x4 => Instruction::SkipNotEqualByte { x: f.x, kk: f.kk },
            0x5 => if f.n == 0 {
                Instruction::SkipEqual { x: f.x, y: f.y }
            } else {
                Instruction::Unknown
            },
            0x6 => Instruction::LoadByte { x: f.x, kk: f.kk },
            0x7 => Instruction::AddByte { x: f.x, kk: f.kk },
            0x8 => match f.n {
                0x0 => Instruction::Move { x: f.x, y: f.y },
                0x1 => Instruction::Or { x: f.x, y: f.y },
                0x2 => Instruction::And { x: f.x, y: f.y },
                0x3 => Instruction::Xor { x: f.x, y: f.y },
                0x4 => Instruction::Add { x: f.x, y: f.y },
                0x5 => Instruction::Sub { x: f.x, y: f.y },
                0x6 => Instruction::ShiftRight { x: f.x },
                0x7 => Instruction::SubReverse { x: f.x, y: f.y },
                0xE => Instruction::ShiftLeft { x: f.x },
                _ => Instruction::Unknown,
            },
            0x9 => if f.n == 0 {
                Instruction::SkipNotEqual { x: f.x, y: f.y }
            } else {
                Instruction::Unknown
            },
            0xA => Instruction::LoadIndex { nnn: f.nnn },
            0xB => Instruction::JumpOffset { nnn: f.nnn },
            0xC => Instruction::Random { x: f.x, kk: f.kk },
            0xD => Instruction::Draw { x: f.x, y: f.y, n: f.n },
            0xE => match low {
                0x9E => Instruction::SkipKeyPressed { x: f.x },
                0xA1 => Instruction::SkipKeyReleased { x: f.x },
                _ => Instruction::Unknown,
            },
            0xF => match low {
                0x07 => Instruction::ReadDelay { x: f.x },
                0x0A => Instruction::WaitKey { x: f.x },
                0x15 => Instruction::SetDelay { x: f.x },
                0x18 => Instruction::SetSound { x: f.x },
                0x1E => Instruction::AddIndex { x: f.x },
                0x29 => Instruction::LoadGlyph { x: f.x },
                0x33 => Instruction::StoreBcd { x: f.x },
                0x55 => Instruction::StoreRegisters { x: f.x },
                0x65 => Instruction::LoadRegisters { x: f.x },
                _ => Instruction::Unknown,
            },
            _ => Instruction::Unknown,
        }
    }
}

/// A word is the concatenation of its four nibbles, and each operand is made
/// of the nibbles it spans: decoding loses nothing and invents nothing.
pub proof fn lemma_fields_reassemble(word: u16)
    ensures
        ({
            let f = fields_of(word);
            &&& f.op_1 < 16 && f.op_2 < 16 && f.op_3 < 16 && f.op_4 < 16
            &&& word == f.op_1 * 0x1000 + f.op_2 * 0x100 + f.op_3 * 0x10 + f.op_4
            &&& f.x == f.op_2 && f.y == f.op_3 && f.n == f.op_4
            &&& f.kk == f.op_3 * 0x10 + f.op_4
            &&& f.nnn == f.op_2 * 0x100 + f.op_3 * 0x10 + f.op_4
        }),
{
    assert(word / 0x1000 < 16) by (bit_vector);
    assert(word == (word / 0x1000) * 0x1000 + (word / 0x100 % 0x10) * 0x100 + (word / 0x10
        % 0x10) * 0x10 + word % 0x10) by (bit_vector);
    assert(word % 0x100 == (word / 0x10 % 0x10) * 0x10 + word % 0x10) by (bit_vector);
    assert(word % 0x1000 == (word / 0x100 % 0x10) * 0x100 + (word / 0x10 % 0x10) * 0x10 + word
        % 0x10) by (bit_vector);
}

} // verus!
