use vstd::prelude::*;

use crate::instruction::{decode_spec, Instruction};
use crate::machine::{exec_spec, step_spec, Chip8Error, Chip8View, Effect, MEMORY_SIZE};
use crate::timer::{delay_update, lemma_countdown_expires, DELAY_INTERVAL_NANOS};

verus! {

/// The word `6XNN` decodes to a load, and executing it leaves `NN` in `VX`, whatever the
/// state; no other register changes.
pub proof fn lemma_load_sets_register(s: Chip8View, x: u8, nn: u8, keys: Seq<bool>, now: u64, rnd: u8)
    requires
        s.wf(),
        x < 16,
    ensures
        decode_spec((0x6000 + x * 256 + nn) as u16) == (Instruction::Load { x, nn }),
        exec_spec(s, Instruction::Load { x, nn }, keys, now, rnd) is Ok,
        exec_spec(s, Instruction::Load { x, nn }, keys, now, rnd)->Ok_0.0.registers[x as int] == nn,
        forall|r: int|
            0 <= r < 16 && r != x ==> exec_spec(s, Instruction::Load { x, nn }, keys, now, rnd)->Ok_0.0.registers[r]
                == s.registers[r],
{
}

/// `7XNN` adds `NN` to `VX` modulo 256 and changes no other register: in particular `VF` is
/// untouched unless it is the target itself.
pub proof fn lemma_add_immediate_keeps_flag(
    s: Chip8View,
    x: u8,
    nn: u8,
    keys: Seq<bool>,
    now: u64,
    rnd: u8,
)
    requires
        s.wf(),
        x < 16,
    ensures
        decode_spec((0x7000 + x * 256 + nn) as u16) == (Instruction::AddImmediate { x, nn }),
        exec_spec(s, Instruction::AddImmediate { x, nn }, keys, now, rnd) is Ok,
        exec_spec(s, Instruction::AddImmediate { x, nn }, keys, now, rnd)->Ok_0.0.registers[x as int]
            == (s.registers[x as int] + nn) % 256,
        forall|r: int|
            0 <= r < 16 && r != x ==> exec_spec(s, Instruction::AddImmediate { x, nn }, keys, now, rnd)->Ok_0.0.registers[r]
                == s.registers[r],
        x != 15 ==> exec_spec(s, Instruction::AddImmediate { x, nn }, keys, now, rnd)->Ok_0.0.registers[15]
            == s.registers[15],
{
}

/// Drawing the same sprite twice at the same place restores the whole state, display
/// included: XOR drawing is its own inverse.
pub proof fn lemma_draw_twice_restores(s: Chip8View, x: u8, y: u8, n: u8, keys: Seq<bool>, now: u64, rnd: u8)
    requires
        s.wf(),
        x < 16,
        y < 16,
        n < 16,
    ensures
        exec_spec(s, Instruction::Draw { x, y, n }, keys, now, rnd) is Ok,
        exec_spec(
            exec_spec(s, Instruction::Draw { x, y, n }, keys, now, rnd)->Ok_0.0,
            Instruction::Draw { x, y, n },
            keys,
            now,
            rnd,
        ) == Ok::<(Chip8View, Effect), Chip8Error>((s, Effect::Redraw)),
{
    let t = exec_spec(s, Instruction::Draw { x, y, n }, keys, now, rnd)->Ok_0.0;
    let u = exec_spec(t, Instruction::Draw { x, y, n }, keys, now, rnd)->Ok_0.0;
    assert(u.display =~= s.display);
}

/// A return with an empty call stack fails with `StackUnderflow`, whatever else the state holds.
pub proof fn lemma_return_on_empty_stack(s: Chip8View, keys: Seq<bool>, now: u64, rnd: u8)
    requires
        s.wf(),
        s.sp == 0,
    ensures
        exec_spec(s, Instruction::Return, keys, now, rnd) == Err::<(Chip8View, Effect), Chip8Error>(
            Chip8Error::StackUnderflow,
        ),
{
}

/// Once the program counter reaches the last two-byte slot of memory, a cycle fails with
/// `EndOfProgram` and executes nothing.
pub proof fn lemma_fetch_past_end(s: Chip8View, keys: Seq<bool>, now: u64, rnd: u8)
    requires
        s.wf(),
        s.pc >= MEMORY_SIZE - 2,
    ensures
        step_spec(s, keys, now, rnd) == Err::<(Chip8View, Effect), Chip8Error>(Chip8Error::EndOfProgram),
{
}

/// Arming the countdown with `VX = v` through `FX15` at time `armed`, updating it at any time
/// at least `v` seconds later, and reading it into `VY` through `FY07` yields zero. The clock
/// is monotonic: the countdown's last tick is no later than `armed`.
pub proof fn lemma_countdown_reads_zero(
    s: Chip8View,
    x: u8,
    y: u8,
    armed: u64,
    later: u64,
    keys: Seq<bool>,
    rnd: u8,
)
    requires
        s.wf(),
        x < 16,
        y < 16,
        s.delay.last_tick <= armed,
        later >= armed + s.registers[x as int] * DELAY_INTERVAL_NANOS,
    ensures
        ({
            let a = exec_spec(s, Instruction::SetDelayTimer { x }, keys, armed, rnd)->Ok_0.0;
            let b = Chip8View { delay: delay_update(a.delay, later), ..a };
            let c = exec_spec(b, Instruction::ReadDelayTimer { x: y }, keys, later, rnd)->Ok_0.0;
            c.registers[y as int] == 0
        }),
{
    lemma_countdown_expires(s.delay, s.registers[x as int], armed, later);
}

} // verus!
