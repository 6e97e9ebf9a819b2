//! The machine as mathematics: its state, and what each instruction, each
//! keypad poll and each cycle make of a state.
//!
//! Everything here is specification. The interpreter in [`crate::cpu`] is
//! proved to compute exactly these functions.

use vstd::prelude::*;
use crate::display::{
    blank_display, blit, collides, display_wf, lemma_blit_twice, lemma_blit_wf,
};
use crate::font::FONT_SET;
use crate::keyboard::{all_released, is_pressed};
use crate::op_code::{fields_of, instruction_of, lemma_fields_reassemble, Instruction};

verus! {

/// Number of bytes of memory.
pub const MEMORY_SIZE: usize = 4096;

/// Number of bytes of one instruction.
pub const OP_SIZE: u16 = 2;

/// Address at which programs are loaded and at which a reset machine starts.
pub const PROGRAM_START: u16 = 0x200;

/// Index of the flag register.
pub const FLAG_REGISTER: usize = 0xF;

/// Highest value the stack pointer may take.
pub const STACK_LIMIT: u8 = 15;

/// What an instruction asks to be done with the program counter.
#[derive(Clone, Copy, Debug, PartialEq, Eq, Structural)]
pub enum ProgramCounterChange {
    /// Go on with the following instruction.
    Next,
    /// Pass over the following instruction.
    Skip,
    /// Go on at the given address.
    Jump(u16),
}

/// A condition that stops the machine. The cycle that meets it changes
/// nothing, so every later cycle meets it again.
#[derive(Clone, Copy, Debug, PartialEq, Eq, Structural)]
pub enum Fault {
    /// A call would move the stack pointer past its limit.
    StackOverflow,
    /// A return found the stack empty.
    StackUnderflow,
    /// The program counter does not address a whole instruction in memory.
    ProgramCounterOutOfRange,
}

/// What a cycle that went through has to say.
#[derive(Clone, Copy, Debug, PartialEq, Eq, Structural)]
pub enum Report {
    /// An instruction was executed.
    Executed,
    /// The instruction was a call into machine code; it was passed over.
    SystemCallIgnored,
    /// The word names no instruction; it was passed over.
    UnrecognizedInstruction,
    /// The instruction would have reached beyond the end of memory; it was
    /// passed over.
    MemoryOutOfRange,
    /// The machine is waiting for a key and none went down.
    WaitingForKey,
    /// The machine was waiting for a key, one went down, and its index was
    /// stored.
    Resumed,
}

/// Why a program was not loaded.
#[derive(Clone, Copy, Debug, PartialEq, Eq, Structural)]
pub enum LoadError {
    /// The program does not fit between the start of the program and the end
    /// of memory. Nothing was copied.
    ProgramTooLarge,
}

/// Whether the machine runs or waits for a key.
pub enum WaitView {
    /// Instructions are executed.
    Running,
    /// No instruction is executed until a key that was up in `snapshot` is
    /// down; its index then goes to register `register`.
    WaitingForKey { register: u8, snapshot: Seq<bool> },
}

/// A state of the machine.
pub struct MachineState {
    /// The index register.
    pub i: u16,
    /// The program counter.
    pub pc: u16,
    /// The 4096 bytes of memory.
    pub memory: Seq<u8>,
    /// The 16 registers; register 15 is the flag.
    pub v: Seq<u8>,
    /// The 16 keys: `true` while held down.
    pub keys: Seq<bool>,
    /// The 32 rows of 64 pixels.
    pub display: Seq<Seq<u8>>,
    /// The 16 slots of the call stack.
    pub stack: Seq<u16>,
    /// The number of return addresses on the stack.
    pub sp: u8,
    /// The delay timer.
    pub dt: u8,
    /// The sound timer.
    pub st: u8,
    /// Whether the machine runs or waits.
    pub wait: WaitView,
}

/// What executing one instruction yields: the state it leaves (program
/// counter not yet moved), what to do with the program counter, and what to
/// report.
pub struct Step {
    pub state: MachineState,
    pub change: ProgramCounterChange,
    pub report: Report,
}

/// An instruction that was executed.
pub open spec fn done(state: MachineState, change: ProgramCounterChange) -> Step {
    Step { state, change, report: Report::Executed }
}

/// An instruction that was passed over for the given reason.
pub open spec fn passed_over(state: MachineState, report: Report) -> Step {
    Step { state, change: ProgramCounterChange::Next, report }
}

/// `Skip` if the condition holds, else `Next`.
pub open spec fn skip_if(condition: bool) -> ProgramCounterChange {
    if condition {
        ProgramCounterChange::Skip
    } else {
        ProgramCounterChange::Next
    }
}

/// The program counter after `change` is applied to `pc`.
pub open spec fn moved(pc: u16, change: ProgramCounterChange) -> u16 {
    match change {
        ProgramCounterChange::Next => (pc + 2) as u16,
        ProgramCounterChange::Skip => (pc + 4) as u16,
        ProgramCounterChange::Jump(target) => target,
    }
}

/// 1 if the condition holds, else 0.
pub open spec fn flag_of(condition: bool) -> u8 {
    if condition {
        1
    } else {
        0
    }
}

/// A timer one tick later.
pub open spec fn ticked(timer: u8) -> u8 {
    if timer > 0 {
        (timer - 1) as u8
    } else {
        0
    }
}

/// Key `key` was up in `snapshot` and is down in `live`.
pub open spec fn is_edge(snapshot: Seq<bool>, live: Seq<bool>, key: int) -> bool {
    0 <= key < 16 && !snapshot[key] && live[key]
}

/// `key` is the lowest key that was up in `snapshot` and is down in `live`.
pub open spec fn is_first_edge(snapshot: Seq<bool>, live: Seq<bool>, key: int) -> bool {
    is_edge(snapshot, live, key) && forall|lower: int|
        0 <= lower < key ==> !is_edge(snapshot, live, lower)
}

/// Some key was up in `snapshot` and is down in `live`.
pub open spec fn has_edge(snapshot: Seq<bool>, live: Seq<bool>) -> bool {
    exists|key: int| is_edge(snapshot, live, key)
}

/// The lowest key that was up in `snapshot` and is down in `live`, where
/// there is one.
pub open spec fn first_edge(snapshot: Seq<bool>, live: Seq<bool>) -> int {
    choose|key: int| is_first_edge(snapshot, live, key)
}

/// The memory of a machine that was just made: the glyph table from address
/// 0, and zeros.
pub open spec fn initial_memory() -> Seq<u8> {
    Seq::new(
        4096,
        |a: int|
            if a < 80 {
                FONT_SET[a]
            } else {
                0u8
            },
    )
}

/// The state of a machine that was just made.
pub open spec fn initial_state() -> MachineState {
    MachineState {
        i: 0,
        pc: 0,
        memory: initial_memory(),
        v: Seq::new(16, |k: int| 0u8),
        keys: all_released(),
        display: blank_display(),
        stack: Seq::new(16, |k: int| 0u16),
        sp: 0,
        dt: 0,
        st: 0,
        wait: WaitView::Running,
    }
}

impl MachineState {
    /// The state has the shape of a machine: the sequences have their
    /// lengths, every pixel is 0 or 1, the stack pointer is within its limit
    /// and a pending wait names a register.
    pub open spec fn wf(self) -> bool {
        &&& self.memory.len() == 4096
        &&& self.v.len() == 16
        &&& self.keys.len() == 16
        &&& self.stack.len() == 16
        &&& display_wf(self.display)
        &&& self.sp <= 15
        &&& (self.wait matches WaitView::WaitingForKey { register, snapshot } ==> register < 16
            && snapshot.len() == 16)
    }

    /// The state with register `x` set to `value`.
    pub open spec fn with_register(self, x: int, value: u8) -> MachineState {
        MachineState { v: self.v.update(x, value), ..self }
    }

    /// The state with register `x` set to `value` and then the flag register
    /// set to `flag`: where `x` is the flag register, the flag stays.
    pub open spec fn with_result_and_flag(self, x: int, value: u8, flag: u8) -> MachineState {
        MachineState { v: self.v.update(x, value).update(0xF, flag), ..self }
    }

    /// Whether a return can be executed: the stack is not empty.
    pub open spec fn can_return(self) -> bool {
        self.sp > 0
    }

    /// The address a return goes to: the one on top of the stack.
    pub open spec fn return_address(self) -> u16 {
        self.stack[self.sp - 1]
    }

    /// The state after the top of the stack is taken off.
    pub open spec fn popped(self) -> MachineState {
        MachineState { sp: (self.sp - 1) as u8, ..self }
    }

    /// Whether a call can be executed: the stack pointer is below its limit.
    pub open spec fn can_call(self) -> bool {
        self.sp < 15
    }

    /// The state after the program counter is put on the stack.
    pub open spec fn pushed(self) -> MachineState {
        MachineState {
            stack: self.stack.update(self.sp as int, self.pc),
            sp: (self.sp + 1) as u8,
            ..self
        }
    }

    /// `Vx = Vx + kk`, modulo 256.
    pub open spec fn add_byte(self, x: int, kk: u8) -> MachineState {
        self.with_register(x, ((self.v[x] + kk) % 256) as u8)
    }

    /// `Vx = Vx + Vy` modulo 256; flag = 1 exactly if the sum exceeds 255.
    pub open spec fn add_registers(self, x: int, y: int) -> MachineState {
        let sum = self.v[x] + self.v[y];
        self.with_result_and_flag(x, (sum % 256) as u8, flag_of(sum >= 256))
    }

    /// `Vx = a - b` modulo 256; flag = 1 exactly if `a >= b`.
    pub open spec fn with_difference(self, x: int, a: u8, b: u8) -> MachineState {
        self.with_result_and_flag(x, ((a - b) % 256) as u8, flag_of(a >= b))
    }

    /// `Vx = Vx - Vy`.
    pub open spec fn sub_registers(self, x: int, y: int) -> MachineState {
        self.with_difference(x, self.v[x], self.v[y])
    }

    /// `Vx = Vy - Vx`.
    pub open spec fn sub_reverse(self, x: int, y: int) -> MachineState {
        self.with_difference(x, self.v[y], self.v[x])
    }

    /// `Vx = Vx / 2`; flag = the lowest bit of `Vx`.
    pub open spec fn shift_right(self, x: int) -> MachineState {
        self.with_result_and_flag(x, self.v[x] / 2, self.v[x] % 2)
    }

    /// `Vx = 2 * Vx` modulo 256; flag = the highest bit of `Vx`.
    pub open spec fn shift_left(self, x: int) -> MachineState {
        self.with_result_and_flag(x, ((self.v[x] * 2) % 256) as u8, self.v[x] / 128)
    }

    /// `I = I + Vx`, modulo 65536.
    pub open spec fn add_index(self, x: int) -> MachineState {
        MachineState { i: ((self.i + self.v[x]) % 0x10000) as u16, ..self }
    }

    /// `I =` the address of the glyph of the low nibble of `Vx`.
    pub open spec fn load_glyph(self, x: int) -> MachineState {
        MachineState { i: ((self.v[x] % 16) * 5) as u16, ..self }
    }

    /// Whether `count` bytes from `I` onwards lie within memory.
    pub open spec fn in_memory(self, count: int) -> bool {
        self.i + count <= 4096
    }

    /// The `n` bytes at `I`, read as a sprite.
    pub open spec fn sprite(self, n: int) -> Seq<u8> {
        self.memory.subrange(self.i as int, self.i + n)
    }

    /// The sprite of `n` rows at `I` drawn at `(Vx, Vy)`; flag = 1 exactly if
    /// a lit pixel was turned off.
    pub open spec fn draw(self, x: int, y: int, n: int) -> MachineState {
        let left = self.v[x] as int;
        let top = self.v[y] as int;
        MachineState {
            display: blit(self.display, self.sprite(n), left, top),
            v: self.v.update(0xF, flag_of(collides(self.display, self.sprite(n), left, top))),
            ..self
        }
    }

    /// The machine suspended until a key goes down, its index to go to `Vx`.
    pub open spec fn wait_for_key(self, x: int) -> MachineState {
        MachineState {
            wait: WaitView::WaitingForKey { register: x as u8, snapshot: self.keys },
            ..self
        }
    }

    /// The hundreds, tens and units of `Vx` stored at `I`, `I + 1`, `I + 2`.
    pub open spec fn store_bcd(self, x: int) -> MachineState {
        let value = self.v[x];
        MachineState {
            memory: self.memory.update(self.i as int, value / 100).update(
                self.i + 1,
                value / 10 % 10,
            ).update(self.i + 2, value % 10),
            ..self
        }
    }

    /// `V0..=Vx` stored at `I` onwards.
    pub open spec fn store_registers(self, x: int) -> MachineState {
        MachineState {
            memory: Seq::new(
                4096,
                |a: int|
                    if self.i <= a <= self.i + x {
                        self.v[a - self.i]
                    } else {
                        self.memory[a]
                    },
            ),
            ..self
        }
    }

    /// `V0..=Vx` loaded from `I` onwards.
    pub open spec fn load_registers(self, x: int) -> MachineState {
        MachineState {
            v: Seq::new(
                16,
                |k: int|
                    if k <= x {
                        self.memory[self.i + k]
                    } else {
                        self.v[k]
                    },
            ),
            ..self
        }
    }

    /// What executing `instruction` yields, the program counter not yet
    /// moved; `random` is the byte that `Random` draws. A fault leaves no
    /// state behind: the machine stays as it was.
    pub open spec fn execute(self, instruction: Instruction, random: u8) -> Result<Step, Fault> {
        match instruction {
            Instruction::Sys => Ok(passed_over(self, Report::SystemCallIgnored)),
            Instruction::Unknown => Ok(passed_over(self, Report::UnrecognizedInstruction)),
            Instruction::Return => if self.can_return() {
                Ok(done(self.popped(), ProgramCounterChange::Jump(self.return_address())))
            } else {
                Err(Fault::StackUnderflow)
            },
            Instruction::Jump { nnn } => Ok(done(self, ProgramCounterChange::Jump(nnn as u16))),
            Instruction::Call { nnn } => if self.can_call() {
                Ok(done(self.pushed(), ProgramCounterChange::Jump(nnn as u16)))
            } else {
                Err(Fault::StackOverflow)
            },
            Instruction::SkipEqualByte { x, kk } => Ok(done(self, skip_if(self.v[x as int] == kk))),
            Instruction::SkipNotEqualByte { x, kk } => Ok(
                done(self, skip_if(self.v[x as int] != kk)),
            ),
            Instruction::SkipEqual { x, y } => Ok(
                done(self, skip_if(self.v[x as int] == self.v[y as int])),
            ),
            Instruction::SkipNotEqual { x, y } => Ok(
                done(self, skip_if(self.v[x as int] != self.v[y as int])),
            ),
            Instruction::LoadByte { x, kk } => Ok(
                done(self.with_register(x as int, kk), ProgramCounterChange::Next),
            ),
            Instruction::AddByte { x, kk } => Ok(
                done(self.add_byte(x as int, kk), ProgramCounterChange::Next),
            ),
            Instruction::Move { x, y } => Ok(
                done(self.with_register(x as int, self.v[y as int]), ProgramCounterChange::Next),
            ),
            Instruction::Or { x, y } => Ok(
                done(
                    self.with_register(x as int, self.v[x as int] | self.v[y as int]),
                    ProgramCounterChange::Next,
                ),
            ),
            Instruction::And { x, y } => Ok(
                done(
                    self.with_register(x as int, self.v[x as int] & self.v[y as int]),
                    ProgramCounterChange::Next,
                ),
            ),
            Instruction::Xor { x, y } => Ok(
                done(
                    self.with_register(x as int, self.v[x as int] ^ self.v[y as int]),
                    ProgramCounterChange::Next,
                ),
            ),
            Instruction::Add { x, y } => Ok(
                done(self.add_registers(x as int, y as int), ProgramCounterChange::Next),
            ),
            Instruction::Sub { x, y } => Ok(
                done(self.sub_registers(x as int, y as int), ProgramCounterChange::Next),
            ),
            Instruction::SubReverse { x, y } => Ok(
                done(self.sub_reverse(x as int, y as int), ProgramCounterChange::Next),
            ),
            Instruction::ShiftRight { x } => Ok(
                done(self.shift_right(x as int), ProgramCounterChange::Next),
            ),
            Instruction::ShiftLeft { x } => Ok(
                done(self.shift_left(x as int), ProgramCounterChange::Next),
            ),
            Instruction::LoadIndex { nnn } => Ok(
                done(MachineState { i: nnn as u16, ..self }, ProgramCounterChange::Next),
            ),
            Instruction::JumpOffset { nnn } => Ok(
                done(self, ProgramCounterChange::Jump((self.v[0] + nnn) as u16)),
            ),
            Instruction::Random { x, kk } => Ok(
                done(self.with_register(x as int, kk & random), ProgramCounterChange::Next),
            ),
            Instruction::Draw { x, y, n } => if self.in_memory(n as int) {
                Ok(done(self.draw(x as int, y as int, n as int), ProgramCounterChange::Next))
            } else {
                Ok(passed_over(self, Report::MemoryOutOfRange))
            },
            Instruction::SkipKeyPressed { x } => Ok(
                done(self, skip_if(is_pressed(self.keys, self.v[x as int]))),
            ),
            Instruction::SkipKeyReleased { x } => Ok(
                done(self, skip_if(!is_pressed(self.keys, self.v[x as int]))),
            ),
            Instruction::ReadDelay { x } => Ok(
                done(self.with_register(x as int, self.dt), ProgramCounterChange::Next),
            ),
            Instruction::WaitKey { x } => Ok(
                done(self.wait_for_key(x as int), ProgramCounterChange::Next),
            ),
            Instruction::SetDelay { x } => Ok(
                done(MachineState { dt: self.v[x as int], ..self }, ProgramCounterChange::Next),
            ),
            Instruction::SetSound { x } => Ok(
                done(MachineState { st: self.v[x as int], ..self }, ProgramCounterChange::Next),
            ),
            Instruction::AddIndex { x } => Ok(
                done(self.add_index(x as int), ProgramCounterChange::Next),
            ),
            Instruction::LoadGlyph { x } => Ok(
                done(self.load_glyph(x as int), ProgramCounterChange::Next),
            ),
            Instruction::StoreBcd { x } => if self.in_memory(3) {
                Ok(done(self.store_bcd(x as int), ProgramCounterChange::Next))
            } else {
                Ok(passed_over(self, Report::MemoryOutOfRange))
            },
            Instruction::StoreRegisters { x } => if self.in_memory(x + 1) {
                Ok(done(self.store_registers(x as int), ProgramCounterChange::Next))
            } else {
                Ok(passed_over(self, Report::MemoryOutOfRange))
            },
            Instruction::LoadRegisters { x } => if self.in_memory(x + 1) {
                Ok(done(self.load_registers(x as int), ProgramCounterChange::Next))
            } else {
                Ok(passed_over(self, Report::MemoryOutOfRange))
            },
        }
    }

    /// Whether the program counter addresses a whole instruction in memory.
    pub open spec fn can_fetch(self) -> bool {
        self.pc + 1 < 4096
    }

    /// The instruction word at the program counter, high byte first.
    pub open spec fn fetched(self) -> u16 {
        (self.memory[self.pc as int] * 256 + self.memory[self.pc + 1]) as u16
    }

    /// The state and the report after the word `opcode` is executed at the
    /// program counter: the instruction it names is executed and the program
    /// counter moved as the instruction asks. On a fault nothing changes.
    pub open spec fn handle(self, opcode: u16, random: u8) -> (MachineState, Result<Report, Fault>) {
        if !self.can_fetch() {
            (self, Err(Fault::ProgramCounterOutOfRange))
        } else {
            match self.execute(instruction_of(fields_of(opcode)), random) {
                Ok(step) => (
                    MachineState { pc: moved(self.pc, step.change), ..step.state },
                    Ok(step.report),
                ),
                Err(fault) => (self, Err(fault)),
            }
        }
    }

    /// Whether the next cycle draws a random byte: the machine runs and the
    /// program counter is at a `Random` instruction.
    pub open spec fn draws_random(self) -> bool {
        self.wait is Running && self.can_fetch() && instruction_of(
            fields_of(self.fetched()),
        ) is Random
    }

    /// The state after both timers tick.
    pub open spec fn tick(self) -> MachineState {
        MachineState { dt: ticked(self.dt), st: ticked(self.st), ..self }
    }

    /// Whether the machine waits for a key.
    pub open spec fn waiting(self) -> bool {
        self.wait is WaitingForKey
    }

    /// The state after the keypad is polled: a waiting machine on whose
    /// keypad a key went down since it was suspended gets the index of the
    /// lowest such key in its target register and runs again; any other
    /// machine stays as it is.
    pub open spec fn poll(self) -> MachineState {
        match self.wait {
            WaitView::Running => self,
            WaitView::WaitingForKey { register, snapshot } => if has_edge(snapshot, self.keys) {
                MachineState {
                    v: self.v.update(register as int, first_edge(snapshot, self.keys) as u8),
                    wait: WaitView::Running,
                    ..self
                }
            } else {
                self
            },
        }
    }

    /// The state and the report after one cycle. A waiting machine polls the
    /// keypad and executes nothing. A running machine executes the
    /// instruction at the program counter; unless that suspended it, the
    /// timers then tick.
    pub open spec fn cycle(self, random: u8) -> (MachineState, Result<Report, Fault>) {
        match self.wait {
            WaitView::WaitingForKey { register, snapshot } => (
                self.poll(),
                Ok(
                    if has_edge(snapshot, self.keys) {
                        Report::Resumed
                    } else {
                        Report::WaitingForKey
                    },
                ),
            ),
            WaitView::Running => {
                let (after, result) = self.handle(self.fetched(), random);
                if result is Ok && !after.waiting() {
                    (after.tick(), result)
                } else {
                    (after, result)
                }
            },
        }
    }

    /// The state after a reset: that of a machine just made, with the program
    /// counter at the start of the program.
    pub open spec fn reset_state() -> MachineState {
        MachineState { pc: 0x200, ..initial_state() }
    }

    /// Whether `count` bytes fit in memory from the start of the program.
    pub open spec fn fits(count: int) -> bool {
        0x200 + count <= 4096
    }

    /// The state after `program` is copied to memory from the start of the
    /// program.
    pub open spec fn loaded(self, program: Seq<u8>) -> MachineState {
        MachineState {
            memory: Seq::new(
                4096,
                |a: int|
                    if 0x200 <= a < 0x200 + program.len() {
                        program[a - 0x200]
                    } else {
                        self.memory[a]
                    },
            ),
            ..self
        }
    }
}

/// Below an edge there is a first edge.
proof fn lemma_first_edge_exists(snapshot: Seq<bool>, live: Seq<bool>, key: int)
    requires
        is_edge(snapshot, live, key),
    ensures
        exists|first: int| is_first_edge(snapshot, live, first) && first <= key,
    decreases key,
{
    if exists|lower: int| 0 <= lower < key && is_edge(snapshot, live, lower) {
        let lower = choose|lower: int| 0 <= lower < key && is_edge(snapshot, live, lower);
        lemma_first_edge_exists(snapshot, live, lower);
    } else {
        assert(is_first_edge(snapshot, live, key));
    }
}

/// Where some key went down, `first_edge` is the lowest key that did.
pub proof fn lemma_first_edge_is_lowest(snapshot: Seq<bool>, live: Seq<bool>)
    requires
        has_edge(snapshot, live),
    ensures
        is_first_edge(snapshot, live, first_edge(snapshot, live)),
        forall|key: int| is_edge(snapshot, live, key) ==> first_edge(snapshot, live) <= key,
{
    let some = choose|key: int| is_edge(snapshot, live, key);
    lemma_first_edge_exists(snapshot, live, some);
    let first = first_edge(snapshot, live);
    assert forall|key: int| is_edge(snapshot, live, key) implies first <= key by {
        if key < first {
            assert(!is_edge(snapshot, live, key));
        }
    }
}

/// A waiting machine resumes once, on the lowest key that went down. The
/// poll that finds keys down that were up at the suspension writes the index
/// of the lowest of them, however many there are, to the register the wait
/// names and to nothing else, and the machine runs; a second poll changes
/// nothing.
pub proof fn lemma_poll_resumes_once(s: MachineState)
    requires
        s.wf(),
        s.wait matches WaitView::WaitingForKey { register, snapshot } && has_edge(
            snapshot,
            s.keys,
        ),
    ensures
        ({
            let register = s.wait->register;
            let snapshot = s.wait->snapshot;
            let key = first_edge(snapshot, s.keys);
            &&& is_first_edge(snapshot, s.keys, key)
            &&& forall|other: int| is_edge(snapshot, s.keys, other) ==> key <= other
            &&& s.poll() == (MachineState {
                v: s.v.update(register as int, key as u8),
                wait: WaitView::Running,
                ..s
            })
            &&& s.poll().v[register as int] == key
            &&& forall|other: int|
                0 <= other < 16 && other != register ==> s.poll().v[other] == s.v[other]
            &&& s.poll().poll() == s.poll()
        }),
{
    lemma_first_edge_is_lowest(s.wait->snapshot, s.keys);
}

/// Drawing a sprite twice at the same place restores the display: where the
/// first draw leaves the registers that hold the place as they were, a second
/// draw of the same rows undoes it.
pub proof fn lemma_draw_twice(s: MachineState, x: int, y: int, n: int)
    requires
        s.wf(),
        0 <= x < 16,
        0 <= y < 16,
        0 <= n,
        s.draw(x, y, n).v[x] == s.v[x],
        s.draw(x, y, n).v[y] == s.v[y],
    ensures
        s.draw(x, y, n).sprite(n) == s.sprite(n),
        s.draw(x, y, n).draw(x, y, n).display == s.display,
{
    lemma_blit_twice(s.display, s.sprite(n), s.v[x] as int, s.v[y] as int);
}

/// Whatever is executed, polled or drawn, the machine keeps its shape: a
/// cycle takes a well-formed state to a well-formed state. So every pixel
/// stays 0 or 1 and the stack pointer stays within its limit.
pub proof fn lemma_cycle_keeps_wf(s: MachineState, random: u8)
    requires
        s.wf(),
    ensures
        s.cycle(random).0.wf(),
        forall|opcode: u16| (#[trigger] s.handle(opcode, random)).0.wf(),
        s.poll().wf(),
        s.tick().wf(),
{
    assert forall|opcode: u16| (#[trigger] s.handle(opcode, random)).0.wf() by {
        lemma_fields_reassemble(opcode);
        let instruction = instruction_of(fields_of(opcode));
        if let Instruction::Draw { x, y, n } = instruction {
            lemma_blit_wf(s.display, s.sprite(n as int), s.v[x as int] as int, s.v[y as int] as int);
        }
    }
    let after = s.handle(s.fetched(), random).0;
    assert(after.wf());
    assert(after.tick().wf());
}

/// A fault stops the machine: the cycle that meets it changes nothing, so
/// the next cycle meets it again, whatever byte would be drawn.
pub proof fn lemma_fault_is_final(s: MachineState, random: u8, later: u8)
    requires
        s.cycle(random).1 is Err,
    ensures
        s.cycle(random).0 == s,
        s.cycle(random).0.cycle(later) == s.cycle(random),
{
}

/// Only a `Random` instruction depends on the byte drawn.
pub proof fn lemma_random_matters_to_random_only(s: MachineState, random: u8, other: u8)
    requires
        !s.draws_random(),
    ensures
        s.cycle(random) == s.cycle(other),
{
}

} // verus!
