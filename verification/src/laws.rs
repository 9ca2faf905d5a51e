//! Properties of the machine that hold of every state, proved from the model.

use vstd::prelude::*;

use crate::instruction::{
    spec_address, spec_decode, spec_immediate, spec_nibbles, spec_opcode, Instruction,
};
use crate::keyboard::{lemma_lowest_pressed_from, lowest_pressed, KEYS};
use crate::model::{State, MEMORY_SIZE};
use crate::screen::{SCREEN_HEIGHT, SCREEN_WIDTH};
use crate::stack::STACK_SIZE;

verus! {

/// Fetching and decoding lose nothing: wherever the program counter leaves
/// room for a whole word (so at every even address from the program base to
/// 4094), the word fetched splits into the two nibbles of the first byte
/// followed by the two nibbles of the second, its address is the low nibble
/// of the first byte followed by the second byte, and its immediate is the
/// second byte.
pub proof fn lemma_fetch_then_decode(s: State)
    requires
        s.wf(),
        s.pc <= MEMORY_SIZE - 2,
    ensures
        s.can_fetch(),
        s.opcode() == spec_opcode(s.memory[s.pc as int], s.memory[s.pc + 1]),
        spec_nibbles(s.opcode()) == seq![
            s.memory[s.pc as int] / 16,
            s.memory[s.pc as int] % 16,
            s.memory[s.pc + 1] / 16,
            s.memory[s.pc + 1] % 16,
        ],
        spec_address(s.opcode()) == (s.memory[s.pc as int] % 16) * 256 + s.memory[s.pc + 1],
        spec_immediate(s.opcode()) == s.memory[s.pc + 1],
        s.opcode() == 4096 * spec_nibbles(s.opcode())[0] + spec_address(s.opcode()),
{
    let hi = s.memory[s.pc as int];
    let lo = s.memory[s.pc + 1];
    assert(spec_nibbles(s.opcode()) =~= seq![hi / 16, hi % 16, lo / 16, lo % 16]);
}

/// Clearing the screen switches every pixel off, whatever was on it, and
/// touches nothing else.
pub proof fn lemma_clear_screen(s: State, random: u8)
    requires
        s.wf(),
    ensures
        s.execute_fault(Instruction::ClearScreen) is None,
        forall|x: int, y: int|
            0 <= x < SCREEN_WIDTH && 0 <= y < SCREEN_HEIGHT ==> !(#[trigger] s.execute(
                Instruction::ClearScreen,
                random,
            ).screen[x][y]),
        s.execute(Instruction::ClearScreen, random) == (State {
            screen: s.execute(Instruction::ClearScreen, random).screen,
            ..s
        }),
        s.can_fetch() && s.opcode() == 0x00E0 ==> s.step_fault() is None && s.step(random)
            == s.fetched().execute(Instruction::ClearScreen, random),
{
}

/// While no key is held down, a step on the wait-for-key instruction
/// succeeds and leaves the whole state as it was, the program counter
/// included: the next step meets the same instruction again.
pub proof fn lemma_wait_key_stalls(s: State, x: u8, random: u8)
    requires
        s.wf(),
        s.can_fetch(),
        spec_decode(s.opcode()) == (Instruction::WaitKey { x }),
        forall|k: int| 0 <= k < KEYS ==> !s.keys[k],
    ensures
        s.step_fault() is None,
        s.step(random) == s,
{
    lemma_lowest_pressed_from(s.keys, 0);
}

/// Once a key is held down, a step on the wait-for-key instruction succeeds,
/// puts the lowest key that is held down in the register, and leaves the
/// program counter behind the instruction.
pub proof fn lemma_wait_key_resumes(s: State, x: u8, random: u8, key: u8)
    requires
        s.wf(),
        s.can_fetch(),
        spec_decode(s.opcode()) == (Instruction::WaitKey { x }),
        key < KEYS,
        s.keys[key as int],
        forall|k: int| 0 <= k < key ==> !s.keys[k],
    ensures
        s.step_fault() is None,
        s.step(random) == (State {
            pc: (s.pc + 2) as u16,
            registers: s.registers.update(x as int, key),
            ..s
        }),
{
    lemma_lowest_pressed_from(s.keys, 0);
    assert(lowest_pressed(s.keys) == Some(key));
}

impl State {
    /// The state after `n` ticks of the delay timer.
    pub open spec fn tick_delay_times(self, n: nat) -> State
        decreases n,
    {
        if n == 0 {
            self
        } else {
            self.tick_delay_times((n - 1) as nat).tick_delay()
        }
    }

    /// The state after `n` ticks of the sound timer.
    pub open spec fn tick_sound_times(self, n: nat) -> State
        decreases n,
    {
        if n == 0 {
            self
        } else {
            self.tick_sound_times((n - 1) as nat).tick_sound()
        }
    }
}

/// Ticking counts a timer down to zero and no further: after `n` ticks the
/// delay timer has lost `n`, or stands at zero, and a timer at zero stays
/// there however often it is ticked. Nothing else changes.
pub proof fn lemma_tick_delay_floor(s: State, n: nat)
    ensures
        s.tick_delay_times(n) == (State {
            delay_timer: if s.delay_timer >= n {
                (s.delay_timer - n) as u8
            } else {
                0u8
            },
            ..s
        }),
        s.delay_timer == 0 ==> s.tick_delay_times(n) == s,
    decreases n,
{
    if n > 0 {
        lemma_tick_delay_floor(s, (n - 1) as nat);
    }
}

/// The same for the sound timer.
pub proof fn lemma_tick_sound_floor(s: State, n: nat)
    ensures
        s.tick_sound_times(n) == (State {
            sound_timer: if s.sound_timer >= n {
                (s.sound_timer - n) as u8
            } else {
                0u8
            },
            ..s
        }),
        s.sound_timer == 0 ==> s.tick_sound_times(n) == s,
    decreases n,
{
    if n > 0 {
        lemma_tick_sound_floor(s, (n - 1) as nat);
    }
}

/// A call followed at once by a return comes back to the instruction behind
/// the call, with the stack as it was and nothing else changed. The call
/// needs a free stack slot, and the return instruction must be what stands
/// at the called address.
pub proof fn lemma_call_then_return(s: State, addr: u16, r1: u8, r2: u8)
    requires
        s.wf(),
        s.can_fetch(),
        spec_decode(s.opcode()) == (Instruction::Call { addr }),
        s.stack.len() < STACK_SIZE,
        addr <= MEMORY_SIZE - 2,
        spec_opcode(s.memory[addr as int], s.memory[addr + 1]) == 0x00EE,
    ensures
        s.step_fault() is None,
        s.step(r1).pc == addr,
        s.step(r1).stack == s.stack.push((s.pc + 2) as u16),
        s.step(r1).step_fault() is None,
        s.step(r1).step(r2) == (State { pc: (s.pc + 2) as u16, ..s }),
{
    let called = s.step(r1);
    assert(called.opcode() == 0x00EE);
    assert(spec_decode(0x00EEu16) == Instruction::Return);
    assert(s.stack.push((s.pc + 2) as u16).drop_last() =~= s.stack);
}

/// Only the random instruction looks at the random byte: a step on any
/// other instruction ends in the same state whatever byte it is handed.
pub proof fn lemma_step_ignores_random(s: State, r1: u8, r2: u8)
    requires
        !(s.can_fetch() && spec_decode(s.opcode()) is Random),
    ensures
        s.step(r1) == s.step(r2),
{
}

} // verus!
