use vstd::prelude::*;

use crate::instruction::{decode_spec, Instruction};
use crate::timer::{delay_set, delay_update, DelayTimer, DelayTimerView};

verus! {

/// Size of the address space in bytes.
pub const MEMORY_SIZE: usize = 4096;

/// Address at which the program image is loaded and execution starts.
pub const PROGRAM_START: u16 = 0x200;

/// Largest program image that fits between the start address and the top of memory.
pub const MAX_PROGRAM_LEN: usize = 3584;

/// Display width in pixels.
pub const DISPLAY_WIDTH: usize = 64;

/// Display height in pixels.
pub const DISPLAY_HEIGHT: usize = 32;

/// Number of display cells; cell `(x, y)` is at index `x * DISPLAY_HEIGHT + y` (column-major).
pub const DISPLAY_CELLS: usize = 2048;

/// Number of call stack slots; slot zero is never written, so at most fifteen calls nest.
pub const STACK_SIZE: usize = 16;

/// Failures that end a run.
#[derive(Clone, Copy, Debug, PartialEq, Eq, Structural)]
pub enum Chip8Error {
    /// The program counter reached the last two-byte slot of memory: the program is over.
    EndOfProgram,
    /// A return was executed with an empty call stack.
    StackUnderflow,
    /// A call was executed with every stack slot in use.
    StackOverflow,
}

/// What the presentation backend must do after an instruction.
#[derive(Clone, Copy, Debug, PartialEq, Eq, Structural)]
pub enum Effect {
    /// Nothing changed on screen.
    Nothing,
    /// The display was cleared: blank the presentation surface.
    Clear,
    /// A sprite was drawn: present the display grid.
    Redraw,
}

/// The sixteen font glyphs, five bytes each, for the hex digits 0 to F.
pub open spec fn font_spec() -> Seq<u8> {
    seq![
        0xF0u8, 0x90, 0x90, 0x90, 0xF0, 0x20, 0x60, 0x20, 0x20, 0x70, 0xF0, 0x10, 0xF0, 0x80,
        0xF0, 0xF0, 0x10, 0xF0, 0x10, 0xF0, 0x90, 0x90, 0xF0, 0x10, 0x10, 0xF0, 0x80, 0xF0,
        0x10, 0xF0, 0xF0, 0x80, 0xF0, 0x90, 0xF0, 0xF0, 0x10, 0x20, 0x40, 0x40, 0xF0, 0x90,
        0xF0, 0x90, 0xF0, 0xF0, 0x90, 0xF0, 0x10, 0xF0, 0xF0, 0x90, 0xF0, 0x90, 0x90, 0xE0,
        0x90, 0xE0, 0x90, 0xE0, 0xF0, 0x80, 0x80, 0x80, 0xF0, 0xE0, 0x90, 0x90, 0x90, 0xE0,
        0xF0, 0x80, 0xF0, 0x80, 0xF0, 0xF0, 0x80, 0xF0, 0x80, 0x80,
    ]
}

/// The memory image at start: font glyphs at the bottom, the program at `PROGRAM_START`,
/// zero everywhere else.
pub open spec fn initial_memory(program: Seq<u8>) -> Seq<u8> {
    Seq::new(
        MEMORY_SIZE as nat,
        |a: int|
            if a < 80 {
                font_spec()[a]
            } else if PROGRAM_START <= a < PROGRAM_START + program.len() {
                program[a - PROGRAM_START]
            } else {
                0u8
            },
    )
}

/// The machine state as mathematical values.
pub struct Chip8View {
    pub pc: u16,
    pub stack: Seq<u16>,
    pub sp: u8,
    pub registers: Seq<u8>,
    pub index: u16,
    pub memory: Seq<u8>,
    pub display: Seq<bool>,
    pub delay: DelayTimerView,
}

impl Chip8View {
    pub open spec fn wf(self) -> bool {
        &&& self.stack.len() == STACK_SIZE
        &&& self.sp < STACK_SIZE
        &&& self.registers.len() == 16
        &&& self.memory.len() == MEMORY_SIZE
        &&& self.display.len() == DISPLAY_CELLS
    }

    pub open spec fn with_pc(self, pc: u16) -> Chip8View {
        Chip8View { pc, ..self }
    }

    pub open spec fn with_registers(self, registers: Seq<u8>) -> Chip8View {
        Chip8View { registers, ..self }
    }

    /// Register `x` set to `v`.
    pub open spec fn set_reg(self, x: u8, v: u8) -> Chip8View {
        self.with_registers(self.registers.update(x as int, v))
    }

    /// Register `x` set to `v`, then `VF` set to `flag`.
    pub open spec fn set_reg_flag(self, x: u8, v: u8, flag: u8) -> Chip8View {
        self.with_registers(self.registers.update(x as int, v).update(15, flag))
    }

    /// The program counter moved past the next instruction when `cond` holds.
    pub open spec fn skip_if(self, cond: bool) -> Chip8View {
        if cond {
            self.with_pc(((self.pc + 2) % 0x10000) as u16)
        } else {
            self
        }
    }

    /// The big-endian word at the program counter.
    pub open spec fn word_at_pc(self) -> u16 {
        (self.memory[self.pc as int] * 256 + self.memory[self.pc + 1]) as u16
    }
}

/// Whether hex key `k` is held in the keyboard snapshot.
pub open spec fn key_down(keys: Seq<bool>, k: u8) -> bool {
    k < 16 && keys[k as int]
}

/// Whether bit `k` (0 the lowest) of `b` is set.
pub open spec fn pixel_bit(b: u8, k: u8) -> bool {
    (b >> k) & 1u8 == 1u8
}

/// Whether the sprite of `n` rows at `index`, drawn with its top left corner at `(vx, vy)`
/// with coordinates wrapping, has a set bit over display cell `k`.
pub open spec fn sprite_covers(memory: Seq<u8>, index: u16, vx: u8, vy: u8, n: u8, k: int) -> bool {
    let dx = (k / DISPLAY_HEIGHT as int - vx) % DISPLAY_WIDTH as int;
    let dy = (k % DISPLAY_HEIGHT as int - vy) % DISPLAY_HEIGHT as int;
    dx < 8 && dy < n && pixel_bit(memory[(index + dy) % MEMORY_SIZE as int], (7 - dx) as u8)
}

/// The display after XOR-drawing a sprite: each covered cell flips.
pub open spec fn draw_display(s: Chip8View, vx: u8, vy: u8, n: u8) -> Seq<bool> {
    Seq::new(
        DISPLAY_CELLS as nat,
        |k: int| s.display[k] != sprite_covers(s.memory, s.index, vx, vy, n, k),
    )
}

/// Memory after `FX55`: registers `V0..=VX` stored from `I` on, addresses wrapping.
pub open spec fn store_registers(s: Chip8View, x: u8) -> Seq<u8> {
    Seq::new(
        MEMORY_SIZE as nat,
        |a: int|
            {
                let d = (a - s.index) % MEMORY_SIZE as int;
                if d <= x {
                    s.registers[d]
                } else {
                    s.memory[a]
                }
            },
    )
}

/// Registers after `FX65`: `V0..=VX` loaded from `I` on, addresses wrapping.
pub open spec fn load_registers(s: Chip8View, x: u8) -> Seq<u8> {
    Seq::new(
        16,
        |r: int|
            if r <= x {
                s.memory[(s.index + r) % MEMORY_SIZE as int]
            } else {
                s.registers[r]
            },
    )
}

/// Memory after `FX33`: hundreds, tens and ones of `v` stored at `I`, `I+1`, `I+2`, wrapping.
pub open spec fn store_bcd(s: Chip8View, v: u8) -> Seq<u8> {
    s.memory
        .update(s.index as int % MEMORY_SIZE as int, v / 100)
        .update((s.index + 1) % MEMORY_SIZE as int, (v / 10) % 10)
        .update((s.index + 2) % MEMORY_SIZE as int, v % 10)
}

/// The state after an instruction that moves the program counter past the next instruction
/// on a condition (`3XNN`, `4XNN`, `5XY_`, `9XY_`, `EX9E`, `EXA1`).
pub open spec fn skip_spec(s: Chip8View, ins: Instruction, keys: Seq<bool>) -> Chip8View {
    let regs = s.registers;
    match ins {
        Instruction::SkipIfEqual { x, nn } => s.skip_if(regs[x as int] == nn),
        Instruction::SkipIfNotEqual { x, nn } => s.skip_if(regs[x as int] != nn),
        Instruction::SkipIfRegistersEqual { x, y } => s.skip_if(regs[x as int] == regs[y as int]),
        Instruction::SkipIfRegistersNotEqual { x, y } => s.skip_if(regs[x as int] != regs[y as int]),
        Instruction::SkipIfKeyPressed { x } => s.skip_if(key_down(keys, regs[x as int])),
        Instruction::SkipIfKeyNotPressed { x } => s.skip_if(!key_down(keys, regs[x as int])),
        _ => s,
    }
}

/// The state after a register instruction (`6XNN`, `7XNN`, `8XY_`, `CXNN`); `rnd` is the
/// random byte that `CXNN` masks.
pub open spec fn alu_spec(s: Chip8View, ins: Instruction, rnd: u8) -> Chip8View {
    let regs = s.registers;
    match ins {
        Instruction::Load { x, nn } => s.set_reg(x, nn),
        Instruction::AddImmediate { x, nn } => s.set_reg(x, ((regs[x as int] + nn) % 256) as u8),
        Instruction::Move { x, y } => s.set_reg(x, regs[y as int]),
        Instruction::Or { x, y } => s.set_reg(x, regs[x as int] | regs[y as int]),
        Instruction::And { x, y } => s.set_reg(x, regs[x as int] & regs[y as int]),
        Instruction::Xor { x, y } => s.set_reg(x, regs[x as int] ^ regs[y as int]),
        Instruction::AddWithCarry { x, y } => {
            let sum = regs[x as int] + regs[y as int];
            s.set_reg_flag(x, (sum % 256) as u8, if sum >= 256 { 1 } else { 0 })
        },
        Instruction::SubWithBorrow { x, y } => {
            let d = regs[x as int] - regs[y as int];
            s.set_reg_flag(x, (d % 256) as u8, if d < 0 { 1 } else { 0 })
        },
        Instruction::ReverseSubWithBorrow { x, y } => {
            let d = regs[y as int] - regs[x as int];
            s.set_reg_flag(x, (d % 256) as u8, if d < 0 { 1 } else { 0 })
        },
        Instruction::ShiftRight { x, .. } => s.set_reg_flag(x, regs[x as int] / 2, regs[x as int] % 2),
        Instruction::ShiftLeft { x, .. } => s.set_reg_flag(
            x,
            ((regs[x as int] * 2) % 256) as u8,
            regs[x as int] / 128,
        ),
        Instruction::Random { x, nn } => s.set_reg(x, nn & rnd),
        _ => s,
    }
}

/// The state after an index, timer or memory instruction (`ANNN`, `FX__`); `now` is the clock
/// reading that `FX15` arms the countdown with.
pub open spec fn index_spec(s: Chip8View, ins: Instruction, now: u64) -> Chip8View {
    let regs = s.registers;
    match ins {
        Instruction::SetIndex { addr } => Chip8View { index: addr, ..s },
        Instruction::ReadDelayTimer { x } => s.set_reg(x, s.delay.value),
        Instruction::SetDelayTimer { x } => Chip8View { delay: delay_set(s.delay, regs[x as int], now), ..s },
        Instruction::AddToIndex { x } => Chip8View {
            index: ((s.index + regs[x as int]) % 0x10000) as u16,
            ..s
        },
        Instruction::FontGlyph { x } => Chip8View { index: ((regs[x as int] % 16) * 5) as u16, ..s },
        Instruction::StoreBcd { x } => Chip8View { memory: store_bcd(s, regs[x as int]), ..s },
        Instruction::StoreRegisters { x } => Chip8View { memory: store_registers(s, x), ..s },
        Instruction::LoadRegisters { x } => s.with_registers(load_registers(s, x)),
        _ => s,
    }
}

/// Whether `ins` is one of the conditional skips.
pub open spec fn is_skip(ins: Instruction) -> bool {
    ins is SkipIfEqual || ins is SkipIfNotEqual || ins is SkipIfRegistersEqual
        || ins is SkipIfRegistersNotEqual || ins is SkipIfKeyPressed || ins is SkipIfKeyNotPressed
}

/// Whether `ins` is one of the register instructions.
pub open spec fn is_alu(ins: Instruction) -> bool {
    ins is Load || ins is AddImmediate || ins is Move || ins is Or || ins is And || ins is Xor
        || ins is AddWithCarry || ins is SubWithBorrow || ins is ShiftRight
        || ins is ReverseSubWithBorrow || ins is ShiftLeft || ins is Random
}

/// The result of executing one decoded instruction, given the held keys, the clock reading
/// `now` and the random byte `rnd` (read only by `CXNN`). Unrecognised instructions, `FX0A`
/// and `FX18` change nothing. On failure the state is unchanged.
pub open spec fn exec_spec(s: Chip8View, ins: Instruction, keys: Seq<bool>, now: u64, rnd: u8) -> Result<
    (Chip8View, Effect),
    Chip8Error,
> {
    if is_skip(ins) {
        Ok((skip_spec(s, ins, keys), Effect::Nothing))
    } else if is_alu(ins) {
        Ok((alu_spec(s, ins, rnd), Effect::Nothing))
    } else {
        match ins {
            Instruction::ClearScreen => Ok(
                (
                    Chip8View { display: Seq::new(DISPLAY_CELLS as nat, |k: int| false), ..s },
                    Effect::Clear,
                ),
            ),
            Instruction::Return => if s.sp == 0 {
                Err(Chip8Error::StackUnderflow)
            } else {
                Ok(
                    (
                        Chip8View { pc: s.stack[s.sp as int], sp: (s.sp - 1) as u8, ..s },
                        Effect::Nothing,
                    ),
                )
            },
            Instruction::Jump { addr } => Ok((s.with_pc(addr), Effect::Nothing)),
            Instruction::Call { addr } => if s.sp + 1 >= STACK_SIZE {
                Err(Chip8Error::StackOverflow)
            } else {
                Ok(
                    (
                        Chip8View {
                            pc: addr,
                            sp: (s.sp + 1) as u8,
                            stack: s.stack.update(s.sp + 1, s.pc),
                            ..s
                        },
                        Effect::Nothing,
                    ),
                )
            },
            Instruction::JumpWithOffset { addr } => Ok(
                (s.with_pc((addr + s.registers[0]) as u16), Effect::Nothing),
            ),
            Instruction::Draw { x, y, n } => Ok(
                (
                    Chip8View {
                        display: draw_display(s, s.registers[x as int], s.registers[y as int], n),
                        ..s
                    },
                    Effect::Redraw,
                ),
            ),
            _ => Ok((index_spec(s, ins, now), Effect::Nothing)),
        }
    }
}

/// The state after fetching: `Err(EndOfProgram)` once the program counter reaches the last
/// two-byte slot of memory (or beyond), else the program counter moves past the word.
pub open spec fn fetch_spec(s: Chip8View) -> Result<(Chip8View, u16), Chip8Error> {
    if s.pc >= MEMORY_SIZE - 2 {
        Err(Chip8Error::EndOfProgram)
    } else {
        Ok((s.with_pc((s.pc + 2) as u16), s.word_at_pc()))
    }
}

/// One full cycle: fetch, decode, execute. On failure the state is unchanged.
pub open spec fn step_spec(s: Chip8View, keys: Seq<bool>, now: u64, rnd: u8) -> Result<
    (Chip8View, Effect),
    Chip8Error,
> {
    match fetch_spec(s) {
        Err(e) => Err(e),
        Ok((f, w)) => match exec_spec(f, decode_spec(w), keys, now, rnd) {
            Ok(p) => Ok(p),
            Err(e) => Err(e),
        },
    }
}

/// Whether an executable result `r` and a final state `after` agree with the modelled
/// outcome `m`, the state staying `before` on failure.
pub open spec fn agrees(
    m: Result<(Chip8View, Effect), Chip8Error>,
    r: Result<Effect, Chip8Error>,
    before: Chip8View,
    after: Chip8View,
) -> bool {
    match m {
        Ok((s, e)) => r == Ok::<Effect, Chip8Error>(e) && after == s,
        Err(e) => r == Err::<Effect, Chip8Error>(e) && after == before,
    }
}

/// A CHIP-8 machine: program counter, call stack, registers, index register, memory,
/// display and countdown timer.
pub struct Chip8 {
    program_counter: u16,
    stack: [u16; 16],
    stack_pointer: u8,
    registers: [u8; 16],
    v_i: u16,
    memory: [u8; 4096],
    display: [bool; 2048],
    delay_timer: DelayTimer,
}

impl View for Chip8 {
    type V = Chip8View;

    closed spec fn view(&self) -> Chip8View {
        Chip8View {
            pc: self.program_counter,
            stack: self.stack@,
            sp: self.stack_pointer,
            registers: self.registers@,
            index: self.v_i,
            memory: self.memory@,
            display: self.display@,
            delay: self.delay_timer@,
        }
    }
}

/// The sixteen font glyphs.
fn font() -> (r: [u8; 80])
    ensures
        r@ == font_spec(),
{
    let r: [u8; 80] = [
        0xF0, 0x90, 0x90, 0x90, 0xF0, 0x20, 0x60, 0x20, 0x20, 0x70, 0xF0, 0x10, 0xF0, 0x80,
        0xF0, 0xF0, 0x10, 0xF0, 0x10, 0xF0, 0x90, 0x90, 0xF0, 0x10, 0x10, 0xF0, 0x80, 0xF0,
        0x10, 0xF0, 0xF0, 0x80, 0xF0, 0x90, 0xF0, 0xF0, 0x10, 0x20, 0x40, 0x40, 0xF0, 0x90,
        0xF0, 0x90, 0xF0, 0xF0, 0x90, 0xF0, 0x10, 0xF0, 0xF0, 0x90, 0xF0, 0x90, 0x90, 0xE0,
        0x90, 0xE0, 0x90, 0xE0, 0xF0, 0x80, 0x80, 0x80, 0xF0, 0xE0, 0x90, 0x90, 0x90, 0xE0,
        0xF0, 0x80, 0xF0, 0x80, 0xF0, 0xF0, 0x80, 0xF0, 0x80, 0x80,
    ];
    assert(r@ =~= font_spec());
    r
}

impl Chip8 {
    pub open spec fn wf(&self) -> bool {
        self@.wf()
    }

    /// Builds the memory image: font glyphs at the bottom, the program at `PROGRAM_START`.
    fn load_memory(program: &[u8]) -> (r: [u8; 4096])
        requires
            program@.len() <= MAX_PROGRAM_LEN,
        ensures
            r@ == initial_memory(program@),
    {
        let mut memory: [u8; 4096] = [0; 4096];
        let glyphs = font();
        let mut i: usize = 0;
        while i < 80
            invariant
                i <= 80,
                glyphs@ == font_spec(),
                memory@.len() == MEMORY_SIZE,
                forall|a: int| 0 <= a < i ==> memory@[a] == font_spec()[a],
                forall|a: int| i <= a < MEMORY_SIZE ==> memory@[a] == 0,
            decreases 80 - i,
        {
            memory[i] = glyphs[i];
            i = i + 1;
        }
        let mut j: usize = 0;
        while j < program.len()
            invariant
                j <= program@.len() <= MAX_PROGRAM_LEN,
                memory@.len() == MEMORY_SIZE,
                forall|a: int| 0 <= a < 80 ==> memory@[a] == font_spec()[a],
                forall|a: int|
                    PROGRAM_START <= a < PROGRAM_START + j ==> memory@[a] == program@[a
                        - PROGRAM_START],
                forall|a: int|
                    80 <= a < MEMORY_SIZE && !(PROGRAM_START <= a < PROGRAM_START + j)
                        ==> memory@[a] == 0,
            decreases program@.len() - j,
        {
            memory[j + 512] = program[j];
            j = j + 1;
        }
        assert(memory@ =~= initial_memory(program@));
        memory
    }

    /// A machine with `program` loaded at `PROGRAM_START`, the program counter there, empty
    /// stack, zeroed registers and index, a blank display and a stopped countdown.
    pub fn new(program: &[u8]) -> (r: Chip8)
        requires
            program@.len() <= MAX_PROGRAM_LEN,
        ensures
            r.wf(),
            r@.pc == PROGRAM_START,
            r@.sp == 0,
            r@.stack == Seq::new(STACK_SIZE as nat, |i: int| 0u16),
            r@.registers == Seq::new(16, |i: int| 0u8),
            r@.index == 0,
            r@.memory == initial_memory(program@),
            r@.display == Seq::new(DISPLAY_CELLS as nat, |k: int| false),
            r@.delay.value == 0,
    {
        let r = Chip8 {
            program_counter: PROGRAM_START,
            stack: [0; 16],
            stack_pointer: 0,
            registers: [0; 16],
            v_i: 0,
            memory: Chip8::load_memory(program),
            display: [false; 2048],
            delay_timer: DelayTimer::new(),
        };
        assert(r@.stack =~= Seq::new(STACK_SIZE as nat, |i: int| 0u16));
        assert(r@.registers =~= Seq::new(16, |i: int| 0u8));
        assert(r@.display =~= Seq::new(DISPLAY_CELLS as nat, |k: int| false));
        r
    }

    /// Reads the big-endian word at the program counter and moves past it; fails with
    /// `EndOfProgram` once the program counter reaches the last two-byte slot of memory.
    fn get_command(&mut self) -> (r: Result<u16, Chip8Error>)
        requires
            old(self).wf(),
        ensures
            final(self).wf(),
            match fetch_spec(old(self)@) {
                Ok((f, w)) => r == Ok::<u16, Chip8Error>(w) && final(self)@ == f,
                Err(e) => r == Err::<u16, Chip8Error>(e) && final(self)@ == old(self)@,
            },
    {
        if self.program_counter as usize >= MEMORY_SIZE - 2 {
            Err(Chip8Error::EndOfProgram)
        } else {
            let pc = self.program_counter as usize;
            let high = self.memory[pc];
            let low = self.memory[pc + 1];
            self.program_counter = self.program_counter + 2;
            Ok((high as u16) * 256 + (low as u16))
        }
    }

    /// Moves past the next instruction when `cond` holds.
    fn skip_if(&mut self, cond: bool)
        ensures
            final(self)@ == old(self)@.skip_if(cond),
    {
        if cond {
            if self.program_counter <= 0xFFFD {
                self.program_counter = self.program_counter + 2;
            } else {
                self.program_counter = self.program_counter - 0xFFFE;
            }
        }
    }

    /// Sets register `x` to `v`, then `VF` to `flag`.
    fn set_with_flag(&mut self, x: u8, v: u8, flag: u8)
        requires
            x < 16,
        ensures
            final(self)@ == old(self)@.set_reg_flag(x, v, flag),
    {
        self.registers[x as usize] = v;
        self.registers[15] = flag;
    }

    /// Executes a register instruction (`6XNN`, `7XNN`, `8XY_`, `CXNN`).
    fn do_alu(&mut self, ins: Instruction, random: u8)
        requires
            old(self).wf(),
            ins.wf(),
            is_alu(ins),
        ensures
            final(self).wf(),
            final(self)@ == alu_spec(old(self)@, ins, random),
    {
        match ins {
            Instruction::Load { x, nn } => {
                self.registers[x as usize] = nn;
            },
            Instruction::AddImmediate { x, nn } => {
                let v = self.registers[x as usize];
                self.registers[x as usize] = ((v as u16 + nn as u16) % 256) as u8;
            },
            Instruction::Random { x, nn } => {
                self.registers[x as usize] = nn & random;
            },
            Instruction::Move { x, y } => {
                self.registers[x as usize] = self.registers[y as usize];
            },
            Instruction::Or { x, y } => {
                self.registers[x as usize] = self.registers[x as usize] | self.registers[y as usize];
            },
            Instruction::And { x, y } => {
                self.registers[x as usize] = self.registers[x as usize] & self.registers[y as usize];
            },
            Instruction::Xor { x, y } => {
                self.registers[x as usize] = self.registers[x as usize] ^ self.registers[y as usize];
            },
            Instruction::AddWithCarry { x, y } => {
                let sum: u16 = self.registers[x as usize] as u16 + self.registers[y as usize] as u16;
                self.set_with_flag(x, (sum % 256) as u8, if sum >= 256 { 1 } else { 0 });
            },
            Instruction::SubWithBorrow { x, y } => {
                let a = self.registers[x as usize];
                let b = self.registers[y as usize];
                if a >= b {
                    self.set_with_flag(x, a - b, 0);
                } else {
                    self.set_with_flag(x, ((a as u16 + 256) - b as u16) as u8, 1);
                }
            },
            Instruction::ReverseSubWithBorrow { x, y } => {
                let a = self.registers[x as usize];
                let b = self.registers[y as usize];
                if b >= a {
                    self.set_with_flag(x, b - a, 0);
                } else {
                    self.set_with_flag(x, ((b as u16 + 256) - a as u16) as u8, 1);
                }
            },
            Instruction::ShiftRight { x, .. } => {
                let a = self.registers[x as usize];
                self.set_with_flag(x, a / 2, a % 2);
            },
            Instruction::ShiftLeft { x, .. } => {
                let a = self.registers[x as usize];
                self.set_with_flag(x, ((a as u16 * 2) % 256) as u8, a / 128);
            },
            _ => {},
        }
    }

    /// Executes a conditional skip; a key outside `0..16` counts as not held.
    fn do_skip(&mut self, ins: Instruction, keys: &[bool; 16])
        requires
            old(self).wf(),
            ins.wf(),
            is_skip(ins),
        ensures
            final(self).wf(),
            final(self)@ == skip_spec(old(self)@, ins, keys@),
    {
        let cond = match ins {
            Instruction::SkipIfEqual { x, nn } => self.registers[x as usize] == nn,
            Instruction::SkipIfNotEqual { x, nn } => self.registers[x as usize] != nn,
            Instruction::SkipIfRegistersEqual { x, y } => self.registers[x as usize]
                == self.registers[y as usize],
            Instruction::SkipIfRegistersNotEqual { x, y } => self.registers[x as usize]
                != self.registers[y as usize],
            Instruction::SkipIfKeyPressed { x } => {
                let k = self.registers[x as usize];
                k < 16 && keys[k as usize]
            },
            Instruction::SkipIfKeyNotPressed { x } => {
                let k = self.registers[x as usize];
                !(k < 16 && keys[k as usize])
            },
            _ => false,
        };
        self.skip_if(cond);
    }

    /// Stores registers `V0..=VX` into memory from `I` on, addresses wrapping.
    fn store_registers(&mut self, x: u8)
        requires
            old(self).wf(),
            x < 16,
        ensures
            final(self).wf(),
            final(self)@ == (Chip8View { memory: store_registers(old(self)@, x), ..old(self)@ }),
    {
        let ghost s = self@;
        let base = self.v_i as usize;
        let mut r: usize = 0;
        while r <= x as usize
            invariant
                r <= x as usize + 1,
                x < 16,
                base == s.index,
                s.wf(),
                self@ == (Chip8View { memory: self@.memory, ..s }),
                self@.memory.len() == MEMORY_SIZE,
                forall|a: int|
                    0 <= a < MEMORY_SIZE ==> #[trigger] self@.memory[a] == if (a - s.index)
                        % MEMORY_SIZE as int <= r - 1 {
                        s.registers[(a - s.index) % MEMORY_SIZE as int]
                    } else {
                        s.memory[a]
                    },
            decreases x as usize + 1 - r,
        {
            let a = (base + r) % MEMORY_SIZE;
            assert(((a - s.index) % MEMORY_SIZE as int) == r);
            self.memory[a] = self.registers[r];
            r = r + 1;
        }
        assert(self@.memory =~= store_registers(s, x));
    }

    /// Loads registers `V0..=VX` from memory from `I` on, addresses wrapping.
    fn load_registers(&mut self, x: u8)
        requires
            old(self).wf(),
            x < 16,
        ensures
            final(self).wf(),
            final(self)@ == old(self)@.with_registers(load_registers(old(self)@, x)),
    {
        let ghost s = self@;
        let base = self.v_i as usize;
        let mut r: usize = 0;
        while r <= x as usize
            invariant
                r <= x as usize + 1,
                x < 16,
                base == s.index,
                s.wf(),
                self@ == s.with_registers(self@.registers),
                self@.registers.len() == 16,
                forall|i: int|
                    0 <= i < 16 ==> #[trigger] self@.registers[i] == if i < r {
                        s.memory[(s.index + i) % MEMORY_SIZE as int]
                    } else {
                        s.registers[i]
                    },
            decreases x as usize + 1 - r,
        {
            self.registers[r] = self.memory[(base + r) % MEMORY_SIZE];
            r = r + 1;
        }
        assert(self@.registers =~= load_registers(s, x));
    }

    /// Executes an index, timer or memory instruction (`ANNN`, `FX__`).
    fn do_index(&mut self, ins: Instruction, now: u64)
        requires
            old(self).wf(),
            ins.wf(),
        ensures
            final(self).wf(),
            final(self)@ == index_spec(old(self)@, ins, now),
    {
        match ins {
            Instruction::SetIndex { addr } => {
                self.v_i = addr;
            },
            Instruction::ReadDelayTimer { x } => {
                self.registers[x as usize] = self.delay_timer.get();
            },
            Instruction::SetDelayTimer { x } => {
                let v = self.registers[x as usize];
                self.delay_timer.set(v, now);
            },
            Instruction::AddToIndex { x } => {
                let sum: u32 = self.v_i as u32 + self.registers[x as usize] as u32;
                self.v_i = (sum % 0x10000) as u16;
            },
            Instruction::FontGlyph { x } => {
                self.v_i = ((self.registers[x as usize] % 16) as u16) * 5;
            },
            Instruction::StoreBcd { x } => {
                let v = self.registers[x as usize];
                let base = self.v_i as usize;
                self.memory[base % MEMORY_SIZE] = v / 100;
                self.memory[(base + 1) % MEMORY_SIZE] = (v / 10) % 10;
                self.memory[(base + 2) % MEMORY_SIZE] = v % 10;
            },
            Instruction::StoreRegisters { x } => {
                self.store_registers(x);
            },
            Instruction::LoadRegisters { x } => {
                self.load_registers(x);
            },
            _ => {},
        }
    }

    /// XOR-draws the `n`-row sprite at `I` with its top left corner at `(vx, vy)`, wrapping
    /// at the display edges; `VF` is left alone.
    fn apply_sprite(&mut self, vx: u8, vy: u8, n: u8)
        requires
            old(self).wf(),
            n < 16,
        ensures
            final(self).wf(),
            final(self)@ == (Chip8View { display: draw_display(old(self)@, vx, vy, n), ..old(self)@ }),
    {
        let ghost s = self@;
        let mut k: usize = 0;
        while k < DISPLAY_CELLS
            invariant
                k <= DISPLAY_CELLS,
                n < 16,
                s.wf(),
                self@ == (Chip8View { display: self@.display, ..s }),
                self@.display.len() == DISPLAY_CELLS,
                forall|j: int|
                    0 <= j < DISPLAY_CELLS ==> #[trigger] self@.display[j] == if j < k {
                        s.display[j] != sprite_covers(s.memory, s.index, vx, vy, n, j)
                    } else {
                        s.display[j]
                    },
            decreases DISPLAY_CELLS - k,
        {
            let col = k / DISPLAY_HEIGHT;
            let row = k % DISPLAY_HEIGHT;
            let dx = (col + 256 - vx as usize) % DISPLAY_WIDTH;
            let dy = (row + 256 - vy as usize) % DISPLAY_HEIGHT;
            assert(dx as int == (col - vx) % DISPLAY_WIDTH as int);
            assert(dy as int == (row - vy) % DISPLAY_HEIGHT as int);
            if dx < 8 && dy < n as usize {
                let byte = self.memory[(self.v_i as usize + dy) % MEMORY_SIZE];
                let set = (byte >> (7 - dx as u8)) & 1u8 == 1u8;
                if set {
                    self.display[k] = !self.display[k];
                }
            }
            k = k + 1;
        }
        assert(self@.display =~= draw_display(s, vx, vy, n));
    }

    /// Executes one decoded instruction. `keys` is the snapshot of held hex keys, `now` the
    /// clock reading in nanoseconds and `random` the byte that `CXNN` masks. A return with an
    /// empty stack fails with `StackUnderflow`, a call with every slot in use with
    /// `StackOverflow`; on failure nothing changes.
    pub fn execute(&mut self, ins: Instruction, keys: &[bool; 16], now: u64, random: u8) -> (r:
        Result<Effect, Chip8Error>)
        requires
            old(self).wf(),
            ins.wf(),
        ensures
            final(self).wf(),
            agrees(exec_spec(old(self)@, ins, keys@, now, random), r, old(self)@, final(self)@),
    {
        if is_skip_exec(ins) {
            self.do_skip(ins, keys);
            return Ok(Effect::Nothing);
        }
        if is_alu_exec(ins) {
            self.do_alu(ins, random);
            return Ok(Effect::Nothing);
        }
        match ins {
            Instruction::ClearScreen => {
                self.display = [false; 2048];
                assert(self@.display =~= Seq::new(DISPLAY_CELLS as nat, |k: int| false));
                Ok(Effect::Clear)
            },
            Instruction::Return => {
                if self.stack_pointer == 0 {
                    Err(Chip8Error::StackUnderflow)
                } else {
                    self.program_counter = self.stack[self.stack_pointer as usize];
                    self.stack_pointer = self.stack_pointer - 1;
                    Ok(Effect::Nothing)
                }
            },
            Instruction::Jump { addr } => {
                self.program_counter = addr;
                Ok(Effect::Nothing)
            },
            Instruction::Call { addr } => {
                if self.stack_pointer as usize + 1 >= STACK_SIZE {
                    Err(Chip8Error::StackOverflow)
                } else {
                    self.stack_pointer = self.stack_pointer + 1;
                    self.stack[self.stack_pointer as usize] = self.program_counter;
                    self.program_counter = addr;
                    Ok(Effect::Nothing)
                }
            },
            Instruction::JumpWithOffset { addr } => {
                self.program_counter = addr + self.registers[0] as u16;
                Ok(Effect::Nothing)
            },
            Instruction::Draw { x, y, n } => {
                let vx = self.registers[x as usize];
                let vy = self.registers[y as usize];
                self.apply_sprite(vx, vy, n);
                Ok(Effect::Redraw)
            },
            _ => {
                self.do_index(ins, now);
                Ok(Effect::Nothing)
            },
        }
    }


    /// One cycle with a given random byte: fetch the word at the program counter, decode it
    /// and execute it. On failure (`EndOfProgram`, `StackUnderflow`, `StackOverflow`) nothing
    /// changes, the program counter included.
    pub fn step(&mut self, keys: &[bool; 16], now: u64, random: u8) -> (r: Result<Effect, Chip8Error>)
        requires
            old(self).wf(),
        ensures
            final(self).wf(),
            agrees(step_spec(old(self)@, keys@, now, random), r, old(self)@, final(self)@),
    {
        let pc = self.program_counter;
        match self.get_command() {
            Err(e) => Err(e),
            Ok(word) => {
                let ins = Instruction::decode(word);
                let r = self.execute(ins, keys, now, random);
                if r.is_err() {
                    self.program_counter = pc;
                }
                r
            },
        }
    }

    /// One cycle: fetch, decode and execute, drawing a fresh random byte for `CXNN`. The
    /// outcome is that of `step` for some random byte; past the last two-byte slot of memory
    /// it is `EndOfProgram` and nothing changes.
    pub fn do_command(&mut self, keys: &[bool; 16], now: u64) -> (r: Result<Effect, Chip8Error>)
        requires
            old(self).wf(),
        ensures
            final(self).wf(),
            exists|rnd: u8| agrees(step_spec(old(self)@, keys@, now, rnd), r, old(self)@, final(self)@),
            old(self)@.pc >= MEMORY_SIZE - 2 ==> r == Err::<Effect, Chip8Error>(Chip8Error::EndOfProgram)
                && final(self)@ == old(self)@,
    {
        let rnd = random_byte();
        self.step(keys, now, rnd)
    }

    /// Counts the countdown timer down by the whole seconds elapsed up to `now`.
    pub fn update_timer(&mut self, now: u64)
        requires
            old(self).wf(),
        ensures
            final(self).wf(),
            final(self)@ == (Chip8View { delay: delay_update(old(self)@.delay, now), ..old(self)@ }),
    {
        self.delay_timer.update(now);
    }

    /// The program counter.
    pub fn program_counter(&self) -> (r: u16)
        ensures
            r == self@.pc,
    {
        self.program_counter
    }

    /// The call stack pointer (the number of nested calls).
    pub fn stack_pointer(&self) -> (r: u8)
        ensures
            r == self@.sp,
    {
        self.stack_pointer
    }

    /// Register `V{x}`.
    pub fn register(&self, x: u8) -> (r: u8)
        requires
            self.wf(),
            x < 16,
        ensures
            r == self@.registers[x as int],
    {
        self.registers[x as usize]
    }

    /// The index register `I`.
    pub fn index(&self) -> (r: u16)
        ensures
            r == self@.index,
    {
        self.v_i
    }

    /// The byte at `addr`.
    pub fn memory_at(&self, addr: usize) -> (r: u8)
        requires
            self.wf(),
            addr < MEMORY_SIZE,
        ensures
            r == self@.memory[addr as int],
    {
        self.memory[addr]
    }

    /// Whether display cell `(x, y)` is set.
    pub fn pixel(&self, x: usize, y: usize) -> (r: bool)
        requires
            self.wf(),
            x < DISPLAY_WIDTH,
            y < DISPLAY_HEIGHT,
        ensures
            r == self@.display[x * DISPLAY_HEIGHT + y],
    {
        self.display[x * DISPLAY_HEIGHT + y]
    }

    /// The countdown timer's current value.
    pub fn delay_value(&self) -> (r: u8)
        ensures
            r == self@.delay.value,
    {
        self.delay_timer.get()
    }
}

/// Relies on `rand::random::<u8>` for a byte from the thread-local generator; nothing is
/// promised of its value.
#[verifier::external_body]
fn random_byte() -> (r: u8) {
    rand::random::<u8>()
}

/// Whether `ins` is one of the conditional skips.
fn is_skip_exec(ins: Instruction) -> (r: bool)
    ensures
        r == is_skip(ins),
{
    match ins {
        Instruction::SkipIfEqual { .. } | Instruction::SkipIfNotEqual { .. }
        | Instruction::SkipIfRegistersEqual { .. } | Instruction::SkipIfRegistersNotEqual { .. }
        | Instruction::SkipIfKeyPressed { .. } | Instruction::SkipIfKeyNotPressed { .. } => true,
        _ => false,
    }
}

/// Whether `ins` is one of the register instructions.
fn is_alu_exec(ins: Instruction) -> (r: bool)
    ensures
        r == is_alu(ins),
{
    match ins {
        Instruction::Load { .. } | Instruction::AddImmediate { .. } | Instruction::Move { .. }
        | Instruction::Or { .. } | Instruction::And { .. } | Instruction::Xor { .. }
        | Instruction::AddWithCarry { .. } | Instruction::SubWithBorrow { .. }
        | Instruction::ShiftRight { .. } | Instruction::ReverseSubWithBorrow { .. }
        | Instruction::ShiftLeft { .. } | Instruction::Random { .. } => true,
        _ => false,
    }
}

} // verus!
