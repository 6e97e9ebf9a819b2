//! The interpreter: the machine's registers, memory, stack, timers, display
//! and keypad, and the cycle that drives them.

use vstd::prelude::*;
use crate::display::blank_display;
use crate::font::{FONT_SET, FONT_SIZE};
use crate::keyboard::{Keyboard, KEY_COUNT};
use crate::machine::{
    first_edge, has_edge, initial_memory, initial_state, is_edge, is_first_edge, Fault, LoadError,
    MachineState, ProgramCounterChange, Report, WaitView, MEMORY_SIZE, OP_SIZE, PROGRAM_START,
    STACK_LIMIT,
};
use crate::op_code::{fields_of, instruction_of, Instruction};

verus! {

/// Whether the machine runs or waits for a key.
#[derive(Clone, Copy, Debug, PartialEq, Eq)]
pub enum WaitState {
    /// Instructions are executed.
    Running,
    /// No instruction is executed until a key that was up in `snapshot` is
    /// down; its index then goes to register `register`.
    WaitingForKey { register: u8, snapshot: [bool; 16] },
}

impl View for WaitState {
    type V = WaitView;

    open spec fn view(&self) -> WaitView {
        match *self {
            WaitState::Running => WaitView::Running,
            WaitState::WaitingForKey { register, snapshot } => WaitView::WaitingForKey {
                register,
                snapshot: snapshot@,
            },
        }
    }
}

/// A program to run: what to call it and where it is kept.
#[derive(Clone, Debug, PartialEq, Eq)]
pub struct Game {
    pub name: String,
    pub path: String,
}

/// The machine.
#[derive(Clone, Debug, PartialEq, Eq)]
pub struct Cpu {
    /// The index register.
    pub i: u16,
    /// The program counter.
    pub pc: u16,
    /// Memory.
    pub memory: [u8; 4096],
    /// The registers; `v[0xF]` is the flag.
    pub v: [u8; 16],
    /// The keypad, which the host writes.
    pub keyboard: Keyboard,
    /// The display, `display[row][column]`, each cell 0 or 1.
    pub display: [[u8; 64]; 32],
    /// The call stack.
    pub stack: [u16; 16],
    /// The number of return addresses on the stack.
    pub sp: u8,
    /// The delay timer.
    pub dt: u8,
    /// The sound timer.
    pub st: u8,
    /// Whether the machine runs or waits for a key.
    pub wait: WaitState,
}

/// A display as a sequence of rows.
pub open spec fn display_view(display: [[u8; 64]; 32]) -> Seq<Seq<u8>> {
    Seq::new(32, |r: int| display[r]@)
}

impl View for Cpu {
    type V = MachineState;

    open spec fn view(&self) -> MachineState {
        MachineState {
            i: self.i,
            pc: self.pc,
            memory: self.memory@,
            v: self.v@,
            keys: self.keyboard@,
            display: display_view(self.display),
            stack: self.stack@,
            sp: self.sp,
            dt: self.dt,
            st: self.st,
            wait: self.wait@,
        }
    }
}

impl Cpu {
    /// The machine is in a state it can run from: every pixel is 0 or 1, the
    /// stack pointer is within its limit and a pending wait names a register.
    pub open spec fn wf(&self) -> bool {
        self@.wf()
    }

    /// Whether the machine is in a state it can run from. The fields are
    /// open to the host; this tells whether what it wrote left them sound.
    pub fn is_well_formed(&self) -> (sound: bool)
        ensures
            sound == self.wf(),
    {
        if self.sp > STACK_LIMIT {
            return false;
        }
        match self.wait {
            WaitState::Running => {},
            WaitState::WaitingForKey { register, .. } => {
                if register as usize >= KEY_COUNT {
                    return false;
                }
            },
        }
        let mut row: usize = 0;
        while row < 32
            invariant
                row <= 32,
                forall|r: int, c: int|
                    0 <= r < row && 0 <= c < 64 ==> #[trigger] self@.display[r][c] <= 1,
            decreases 32 - row,
        {
            let mut column: usize = 0;
            while column < 64
                invariant
                    row < 32,
                    column <= 64,
                    forall|r: int, c: int|
                        0 <= r < row && 0 <= c < 64 ==> #[trigger] self@.display[r][c] <= 1,
                    forall|c: int| 0 <= c < column ==> #[trigger] self@.display[row as int][c] <= 1,
                decreases 64 - column,
            {
                if self.display[row][column] > 1 {
                    assert(self@.display[row as int][column as int] > 1);
                    return false;
                }
                column += 1;
            }
            row += 1;
        }
        true
    }

    /// A machine with the glyph table in memory and everything else zero.
    pub fn new() -> (cpu: Cpu)
        ensures
            cpu@ == initial_state(),
            cpu.wf(),
    {
        let mut cpu = Cpu {
            i: 0,
            pc: 0,
            memory: [0; 4096],
            v: [0; 16],
            display: [[0; 64]; 32],
            keyboard: Keyboard::new(),
            stack: [0; 16],
            sp: 0,
            dt: 0,
            st: 0,
            wait: WaitState::Running,
        };
        cpu.install_font();
        assert(cpu@.display =~~= blank_display());
        assert(cpu@.v =~= initial_state().v);
        assert(cpu@.stack =~= initial_state().stack);
        cpu
    }

    /// Puts the machine back into the state of one just made, with the
    /// program counter at the start of the program.
    pub fn reset(&mut self)
        ensures
            final(self)@ == MachineState::reset_state(),
            final(self).wf(),
    {
        self.i = 0;
        self.pc = PROGRAM_START;
        self.memory = [0; 4096];
        self.v = [0; 16];
        self.display = [[0; 64]; 32];
        self.keyboard.reset();
        self.stack = [0; 16];
        self.sp = 0;
        self.dt = 0;
        self.st = 0;
        self.wait = WaitState::Running;
        self.install_font();
        assert(self@.display =~~= blank_display());
        assert(self@.v =~= initial_state().v);
        assert(self@.stack =~= initial_state().stack);
    }

    /// Copies `program` to memory from the start of the program. A program
    /// that does not fit is refused, and memory stays as it was.
    pub fn load_game(&mut self, program: &[u8]) -> (result: Result<(), LoadError>)
        ensures
            old(self).wf() ==> final(self).wf(),
            MachineState::fits(program@.len() as int) ==> result.is_ok() && final(self)@ == old(
                self,
            )@.loaded(program@),
            !MachineState::fits(program@.len() as int) ==> result == Err::<(), LoadError>(
                LoadError::ProgramTooLarge,
            ) && final(self)@ == old(self)@,
    {
        let count = program.len();
        if count > MEMORY_SIZE - PROGRAM_START as usize {
            return Err(LoadError::ProgramTooLarge);
        }
        let mut k: usize = 0;
        while k < count
            invariant
                k <= count <= 4096 - 0x200,
                count == program@.len(),
                forall|a: int|
                    0 <= a < 4096 ==> self.memory[a] == (if 0x200 <= a < 0x200 + k {
                        program@[a - 0x200]
                    } else {
                        old(self).memory[a]
                    }),
                self@ == (MachineState { memory: self.memory@, ..old(self)@ }),
            decreases count - k,
        {
            self.memory[PROGRAM_START as usize + k] = program[k];
            k += 1;
        }
        assert(self.memory@ =~= old(self)@.loaded(program@).memory);
        Ok(())
    }

    /// Whether the machine waits for a key.
    pub fn paused(&self) -> (waiting: bool)
        ensures
            waiting == self@.waiting(),
    {
        match self.wait {
            WaitState::Running => false,
            WaitState::WaitingForKey { .. } => true,
        }
    }

    /// One cycle. A waiting machine polls the keypad and executes nothing. A
    /// running machine executes the instruction at the program counter;
    /// unless that suspended it, the timers then tick. On a fault the
    /// machine stays as it was.
    ///
    /// The outcome is that of the model for the byte that a `Random`
    /// instruction draws; no other cycle depends on a byte.
    pub fn execute_cycle(&mut self) -> (result: Result<Report, Fault>)
        requires
            old(self).wf(),
        ensures
            final(self).wf(),
            exists|random: u8| (final(self)@, result) == old(self)@.cycle(random),
            !old(self)@.draws_random() ==> (final(self)@, result) == old(self)@.cycle(0),
    {
        if self.paused() {
            let key = self.detect_keyboard_change();
            let report = match key {
                Some(_) => Report::Resumed,
                None => Report::WaitingForKey,
            };
            assert((self@, Ok::<Report, Fault>(report)) == old(self)@.cycle(0));
            return Ok(report);
        }
        if self.pc as usize + OP_SIZE as usize > MEMORY_SIZE {
            assert((self@, Err::<Report, Fault>(Fault::ProgramCounterOutOfRange)) == old(
                self,
            )@.cycle(0));
            return Err(Fault::ProgramCounterOutOfRange);
        }
        let opcode = self.read_word();
        let result = self.handle_opcode(opcode);
        let ghost random = choose|random: u8| (self@, result) == old(self)@.handle(opcode, random);
        if result.is_ok() && !self.paused() {
            self.decrement_timers();
        }
        assert((self@, result) == old(self)@.cycle(random));
        result
    }

    /// Lets both timers tick: each goes down by one, and stays at zero.
    pub fn decrement_timers(&mut self)
        ensures
            final(self)@ == old(self)@.tick(),
            old(self).wf() ==> final(self).wf(),
    {
        if self.dt > 0 {
            self.dt -= 1;
        }
        if self.st > 0 {
            self.st -= 1;
        }
    }

    /// Polls the keypad. On a waiting machine, the lowest key that is down
    /// now and was up when the machine was suspended is returned, its index
    /// goes to the register that the wait names, and the machine runs again.
    /// Where there is no such key, or the machine runs, nothing changes and
    /// `None` is returned.
    pub fn detect_keyboard_change(&mut self) -> (key: Option<u8>)
        requires
            old(self).wf(),
        ensures
            final(self).wf(),
            final(self)@ == old(self)@.poll(),
            match old(self)@.wait {
                WaitView::Running => key.is_none(),
                WaitView::WaitingForKey { register, snapshot } => match key {
                    Some(k) => is_first_edge(snapshot, old(self)@.keys, k as int),
                    None => !has_edge(snapshot, old(self)@.keys),
                },
            },
    {
        match self.wait {
            WaitState::Running => None,
            WaitState::WaitingForKey { register, snapshot } => {
                let mut k: usize = 0;
                while k < KEY_COUNT
                    invariant
                        k <= 16,
                        *self == *old(self),
                        old(self).wf(),
                        old(self).wait == (WaitState::WaitingForKey { register, snapshot }),
                        forall|lower: int|
                            0 <= lower < k ==> !is_edge(snapshot@, self.keyboard@, lower),
                    decreases 16 - k,
                {
                    if !snapshot[k] && self.keyboard.keys[k] {
                        proof {
                            lemma_first_edge_is(snapshot@, self.keyboard@, k as int);
                        }
                        self.v[register as usize] = k as u8;
                        self.wait = WaitState::Running;
                        return Some(k as u8);
                    }
                    k += 1;
                }
                assert(!has_edge(snapshot@, self.keyboard@));
                None
            },
        }
    }

    /// The instruction word at the program counter, high byte first.
    pub fn read_word(&self) -> (word: u16)
        requires
            self@.can_fetch(),
        ensures
            word == self@.fetched(),
    {
        let high = self.memory[self.pc as usize];
        let low = self.memory[(self.pc + 1) as usize];
        assert((high as u16) << 8 | (low as u16) == high * 256 + low) by (bit_vector);
        (high as u16) << 8 | (low as u16)
    }

    /// Executes the instruction word `opcode` at the program counter: the
    /// instruction it names is executed and the program counter moved as the
    /// instruction asks. A word that names no instruction, a call into
    /// machine code and an instruction that would reach beyond memory are
    /// passed over, and the report says so. On a fault the machine stays as
    /// it was.
    ///
    /// The outcome is that of the model for the byte that a `Random`
    /// instruction draws; no other instruction depends on a byte.
    pub fn handle_opcode(&mut self, opcode: u16) -> (result: Result<Report, Fault>)
        requires
            old(self).wf(),
        ensures
            final(self).wf(),
            exists|random: u8| (final(self)@, result) == old(self)@.handle(opcode, random),
            !(instruction_of(fields_of(opcode)) is Random) ==> (final(self)@, result) == old(
                self,
            )@.handle(opcode, 0),
    {
        if self.pc as usize + OP_SIZE as usize > MEMORY_SIZE {
            assert((self@, Err::<Report, Fault>(Fault::ProgramCounterOutOfRange)) == old(
                self,
            )@.handle(opcode, 0));
            return Err(Fault::ProgramCounterOutOfRange);
        }
        let instruction = Instruction::decode(opcode);
        let ghost mut random: u8 = 0;
        // Execute the instruction, then see what it asks of the program counter.
        let (pc_action, report) = match instruction {
            Instruction::Sys => (self.op_00e0(), Report::SystemCallIgnored),
            Instruction::Return => match self.op_00ee() {
                Ok(change) => (change, Report::Executed),
                Err(fault) => {
                    assert((self@, Err::<Report, Fault>(fault)) == old(self)@.handle(opcode, 0));
                    return Err(fault);
                },
            },
            Instruction::Jump { nnn } => (self.op_1nnn(nnn), Report::Executed),
            Instruction::Call { nnn } => match self.op_2nnn(nnn) {
                Ok(change) => (change, Report::Executed),
                Err(fault) => {
                    assert((self@, Err::<Report, Fault>(fault)) == old(self)@.handle(opcode, 0));
                    return Err(fault);
                },
            },
            Instruction::SkipEqualByte { x, kk } => (self.op_3xkk(x, kk), Report::Executed),
            Instruction::SkipNotEqualByte { x, kk } => (self.op_4xkk(x, kk), Report::Executed),
            Instruction::SkipEqual { x, y } => (self.op_5xy0(x, y), Report::Executed),
            Instruction::LoadByte { x, kk } => (self.op_6xkk(x, kk), Report::Executed),
            Instruction::AddByte { x, kk } => (self.op_7xkk(x, kk), Report::Executed),
            Instruction::Move { x, y } => (self.op_8xy0(x, y), Report::Executed),
            Instruction::Or { x, y } => (self.op_8xy1(x, y), Report::Executed),
            Instruction::And { x, y } => (self.op_8xy2(x, y), Report::Executed),
            Instruction::Xor { x, y } => (self.op_8xy3(x, y), Report::Executed),
            Instruction::Add { x, y } => (self.op_8xy4(x, y), Report::Executed),
            Instruction::Sub { x, y } => (self.op_8xy5(x, y), Report::Executed),
            Instruction::ShiftRight { x } => (self.op_8x06(x), Report::Executed),
            Instruction::SubReverse { x, y } => (self.op_8xy7(x, y), Report::Executed),
            Instruction::ShiftLeft { x } => (self.op_8x0e(x), Report::Executed),
            Instruction::SkipNotEqual { x, y } => (self.op_9xy0(x, y), Report::Executed),
            Instruction::LoadIndex { nnn } => (self.op_annn(nnn), Report::Executed),
            Instruction::JumpOffset { nnn } => (self.op_bnnn(nnn), Report::Executed),
            Instruction::Random { x, kk } => {
                let change = self.op_cxkk(x, kk);
                proof {
                    random = choose|random: u8|
                        self@ == old(self)@.with_register(x as int, kk & random);
                }
                (change, Report::Executed)
            },
            Instruction::Draw { x, y, n } => match self.op_dxyn(x, y, n) {
                Some(change) => (change, Report::Executed),
                None => (ProgramCounterChange::Next, Report::MemoryOutOfRange),
            },
            Instruction::SkipKeyPressed { x } => (self.op_ex9e(x), Report::Executed),
            Instruction::SkipKeyReleased { x } => (self.op_exa1(x), Report::Executed),
            Instruction::ReadDelay { x } => (self.op_fx07(x), Report::Executed),
            Instruction::WaitKey { x } => (self.op_fx0a(x), Report::Executed),
            Instruction::SetDelay { x } => (self.op_fx15(x), Report::Executed),
            Instruction::SetSound { x } => (self.op_fx18(x), Report::Executed),
            Instruction::AddIndex { x } => (self.op_fx1e(x), Report::Executed),
            Instruction::LoadGlyph { x } => (self.op_fx29(x), Report::Executed),
            Instruction::StoreBcd { x } => match self.op_fx33(x) {
                Some(change) => (change, Report::Executed),
                None => (ProgramCounterChange::Next, Report::MemoryOutOfRange),
            },
            Instruction::StoreRegisters { x } => match self.op_fx55(x) {
                Some(change) => (change, Report::Executed),
                None => (ProgramCounterChange::Next, Report::MemoryOutOfRange),
            },
            Instruction::LoadRegisters { x } => match self.op_fx65(x) {
                Some(change) => (change, Report::Executed),
                None => (ProgramCounterChange::Next, Report::MemoryOutOfRange),
            },
            Instruction::Unknown => (ProgramCounterChange::Next, Report::UnrecognizedInstruction),
        };
        // Move the program counter.
        match pc_action {
            ProgramCounterChange::Next => self.pc += OP_SIZE,
            ProgramCounterChange::Skip => self.pc += 2 * OP_SIZE,
            ProgramCounterChange::Jump(target) => self.pc = target,
        }
        assert((self@, Ok::<Report, Fault>(report)) == old(self)@.handle(opcode, random));
        Ok(report)
    }

    /// Copies the glyph table to the start of a zeroed memory.
    fn install_font(&mut self)
        requires
            forall|a: int| 0 <= a < 4096 ==> old(self).memory[a] == 0,
        ensures
            final(self).memory@ == initial_memory(),
            final(self)@ == (MachineState { memory: initial_memory(), ..old(self)@ }),
    {
        let mut a: usize = 0;
        while a < FONT_SIZE
            invariant
                a <= 80,
                forall|b: int| 0 <= b < a ==> self.memory[b] == FONT_SET[b],
                forall|b: int| a <= b < 4096 ==> self.memory[b] == 0,
                self@ == (MachineState { memory: self.memory@, ..old(self)@ }),
            decreases 80 - a,
        {
            self.memory[a] = FONT_SET[a];
            a += 1;
        }
        assert(self.memory@ =~= initial_memory());
    }
}

/// The key that a scan from key 0 upwards meets first is the first edge.
proof fn lemma_first_edge_is(snapshot: Seq<bool>, live: Seq<bool>, key: int)
    requires
        is_first_edge(snapshot, live, key),
    ensures
        has_edge(snapshot, live),
        first_edge(snapshot, live) == key,
{
    let chosen = first_edge(snapshot, live);
    assert(is_first_edge(snapshot, live, chosen));
    if chosen < key {
        assert(!is_edge(snapshot, live, chosen));
    }
    if key < chosen {
        assert(!is_edge(snapshot, live, key));
    }
}

} // verus!
