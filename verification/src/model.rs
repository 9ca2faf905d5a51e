use vstd::prelude::*;

use crate::fault::Fault;
use crate::font::{FONT, FONT_SIZE};
use crate::instruction::{spec_decode, spec_opcode, Instruction};
use crate::keyboard::{lowest_pressed, KEYS};
use crate::screen::{blank_grid, grid_wf, SCREEN_HEIGHT, SCREEN_WIDTH};
use crate::stack::STACK_SIZE;

verus! {

/// Number of memory cells.
pub const MEMORY_SIZE: usize = 0x1000;

/// Number of general registers.
pub const REGISTERS: usize = 16;

/// Address at which a program is loaded and at which execution starts.
pub const PROGRAM_START: u16 = 0x200;

/// Address of the first glyph of the built-in font.
pub const FONT_START: u16 = 0x0;

/// Number of bytes in one glyph of the font.
pub const GLYPH_SIZE: u16 = 5;

/// Number of the register that receives carry, borrow and collision flags.
pub const FLAG: u8 = 0xF;

/// `n` reduced to eight bits.
pub open spec fn wrap8(n: int) -> u8 {
    (n % 256) as u8
}

/// `n` reduced to sixteen bits.
pub open spec fn wrap16(n: int) -> u16 {
    (n % 65536) as u16
}

/// What a call reports: the fault if there is one, success otherwise.
pub open spec fn outcome_of(fault: Option<Fault>) -> Result<(), Fault> {
    match fault {
        Some(f) => Err(f),
        None => Ok(()),
    }
}

/// The eight pixels that a sprite byte stands for, leftmost first.
pub open spec fn sprite_row(byte: u8) -> Seq<bool> {
    seq![
        byte / 128 % 2 == 1,
        byte / 64 % 2 == 1,
        byte / 32 % 2 == 1,
        byte / 16 % 2 == 1,
        byte / 8 % 2 == 1,
        byte / 4 % 2 == 1,
        byte / 2 % 2 == 1,
        byte % 2 == 1,
    ]
}

/// The whole machine as a mathematical value.
#[verifier::ext_equal]
pub struct State {
    /// The memory cells by address.
    pub memory: Seq<u8>,
    /// The general registers `V0` to `VF`.
    pub registers: Seq<u8>,
    /// The program counter.
    pub pc: u16,
    /// The index register `I`.
    pub index: u16,
    /// The return addresses, oldest first.
    pub stack: Seq<u16>,
    /// The delay timer.
    pub delay_timer: u8,
    /// The sound timer.
    pub sound_timer: u8,
    /// The pixels by column, then row.
    pub screen: Seq<Seq<bool>>,
    /// One flag per key; `true` means held down.
    pub keys: Seq<bool>,
}

impl State {
    /// The machine as it is built: the font at the bottom of a memory that is
    /// otherwise zero, the program counter at the program base, everything
    /// else zero, empty or off.
    pub open spec fn initial() -> State {
        State {
            memory: Seq::new(
                MEMORY_SIZE as nat,
                |a: int|
                    if FONT_START <= a < FONT_START + FONT_SIZE {
                        FONT@[a - FONT_START]
                    } else {
                        0u8
                    },
            ),
            registers: Seq::new(REGISTERS as nat, |r: int| 0u8),
            pc: PROGRAM_START,
            index: 0,
            stack: Seq::empty(),
            delay_timer: 0,
            sound_timer: 0,
            screen: blank_grid(),
            keys: Seq::new(KEYS as nat, |k: int| false),
        }
    }

    /// This state with `program` copied into the memory from the program
    /// base on.
    pub open spec fn with_program(self, program: Seq<u8>) -> State {
        State {
            memory: Seq::new(
                self.memory.len(),
                |a: int|
                    if PROGRAM_START <= a < PROGRAM_START + program.len() {
                        program[a - PROGRAM_START]
                    } else {
                        self.memory[a]
                    },
            ),
            ..self
        }
    }

    /// Every part has the size that the machine gives it.
    pub open spec fn wf(self) -> bool {
        &&& self.memory.len() == MEMORY_SIZE
        &&& self.registers.len() == REGISTERS
        &&& self.stack.len() <= STACK_SIZE
        &&& self.keys.len() == KEYS
        &&& grid_wf(self.screen)
    }

    /// The value of register `x`.
    pub open spec fn reg(self, x: u8) -> u8 {
        self.registers[x as int]
    }

    /// This state with register `x` holding `value`.
    pub open spec fn with_reg(self, x: u8, value: u8) -> State {
        State { registers: self.registers.update(x as int, value), ..self }
    }

    /// This state with register `x` holding `value` and then the flag register
    /// holding `flag`: where `x` is the flag register, the flag prevails.
    pub open spec fn with_reg_and_flag(self, x: u8, value: u8, flag: bool) -> State {
        self.with_reg(x, value).with_reg(FLAG, if flag { 1u8 } else { 0u8 })
    }

    /// This state with the program counter moved by `delta`.
    pub open spec fn with_pc_moved(self, delta: int) -> State {
        State { pc: wrap16(self.pc + delta), ..self }
    }

    /// This state, with the next instruction skipped if `condition` holds.
    pub open spec fn skip_if(self, condition: bool) -> State {
        if condition {
            self.with_pc_moved(2)
        } else {
            self
        }
    }

    /// Whether `key` names a key and that key is held down.
    pub open spec fn key_down(self, key: u8) -> bool {
        key < KEYS && self.keys[key as int]
    }

    /// Whether the sprite of `n` rows at `I`, drawn at `(vx, vy)`, has a set
    /// bit on the pixel `(px, py)`. Both axes wrap around.
    pub open spec fn sprite_covers(self, vx: u8, vy: u8, n: u8, px: int, py: int) -> bool {
        let column = (px - vx) % (SCREEN_WIDTH as int);
        let row = (py - vy) % (SCREEN_HEIGHT as int);
        column < 8 && row < n && sprite_row(self.memory[self.index + row])[column]
    }

    /// The screen after the sprite of `n` rows at `I` was drawn at `(vx, vy)`:
    /// every pixel that the sprite covers is flipped.
    pub open spec fn drawn_screen(self, vx: u8, vy: u8, n: u8) -> Seq<Seq<bool>> {
        Seq::new(
            SCREEN_WIDTH as nat,
            |px: int|
                Seq::new(
                    SCREEN_HEIGHT as nat,
                    |py: int| self.screen[px][py] != self.sprite_covers(vx, vy, n, px, py),
                ),
        )
    }

    /// Whether drawing the sprite of `n` rows at `I` at `(vx, vy)` switches
    /// off a pixel that was on.
    pub open spec fn draw_collides(self, vx: u8, vy: u8, n: u8) -> bool {
        exists|px: int, py: int|
            0 <= px < SCREEN_WIDTH && 0 <= py < SCREEN_HEIGHT && self.screen[px][py]
                && #[trigger] self.sprite_covers(vx, vy, n, px, py)
    }

    /// The memory after `V0..=Vx` were stored at `I` onwards.
    pub open spec fn stored_memory(self, x: u8) -> Seq<u8> {
        Seq::new(
            self.memory.len(),
            |a: int|
                if self.index <= a <= self.index + x {
                    self.registers[a - self.index]
                } else {
                    self.memory[a]
                },
        )
    }

    /// The registers after `V0..=Vx` were loaded from `I` onwards.
    pub open spec fn loaded_registers(self, x: u8) -> Seq<u8> {
        Seq::new(
            self.registers.len(),
            |r: int|
                if r <= x {
                    self.memory[self.index + r]
                } else {
                    self.registers[r]
                },
        )
    }

    /// The fault that stops `instruction`, if any. An instruction that
    /// faults changes nothing.
    pub open spec fn execute_fault(self, instruction: Instruction) -> Option<Fault> {
        match instruction {
            Instruction::Return => if self.stack.len() == 0 {
                Some(Fault::StackUnderflow)
            } else {
                None
            },
            Instruction::Call { addr } => if self.stack.len() >= STACK_SIZE {
                Some(Fault::StackOverflow)
            } else {
                None
            },
            Instruction::Draw { x, y, n } => if n > 0 && self.index + n > MEMORY_SIZE {
                Some(Fault::OutOfBounds)
            } else {
                None
            },
            Instruction::Decimal { x } => if self.index + 2 >= MEMORY_SIZE {
                Some(Fault::OutOfBounds)
            } else {
                None
            },
            Instruction::Store { x } => if self.index + x >= MEMORY_SIZE {
                Some(Fault::OutOfBounds)
            } else {
                None
            },
            Instruction::Load { x } => if self.index + x >= MEMORY_SIZE {
                Some(Fault::OutOfBounds)
            } else {
                None
            },
            Instruction::Unknown { opcode } => Some(Fault::UnknownOpcode(opcode)),
            _ => None,
        }
    }

    /// The state after `instruction`, for a machine whose program counter
    /// already points behind that instruction. `random` is the byte that the
    /// random instruction receives.
    pub open spec fn execute(self, instruction: Instruction, random: u8) -> State {
        if self.execute_fault(instruction) is Some {
            self
        } else {
            match instruction {
                Instruction::ClearScreen => State { screen: blank_grid(), ..self },
                Instruction::Return => State {
                    pc: self.stack.last(),
                    stack: self.stack.drop_last(),
                    ..self
                },
                Instruction::Jump { addr } => State { pc: addr, ..self },
                Instruction::Call { addr } => State {
                    pc: addr,
                    stack: self.stack.push(self.pc),
                    ..self
                },
                Instruction::SkipIfEqual { x, kk } => self.skip_if(self.reg(x) == kk),
                Instruction::SkipIfNotEqual { x, kk } => self.skip_if(self.reg(x) != kk),
                Instruction::SkipIfSame { x, y } => self.skip_if(self.reg(x) == self.reg(y)),
                Instruction::LoadByte { x, kk } => self.with_reg(x, kk),
                Instruction::AddByte { x, kk } => self.with_reg(x, wrap8(self.reg(x) + kk)),
                Instruction::Copy { x, y } => self.with_reg(x, self.reg(y)),
                Instruction::Or { x, y } => self.with_reg(x, self.reg(x) | self.reg(y)),
                Instruction::And { x, y } => self.with_reg(x, self.reg(x) & self.reg(y)),
                Instruction::Xor { x, y } => self.with_reg(x, self.reg(x) ^ self.reg(y)),
                Instruction::Add { x, y } => self.with_reg_and_flag(
                    x,
                    wrap8(self.reg(x) + self.reg(y)),
                    self.reg(x) + self.reg(y) > 255,
                ),
                Instruction::Subtract { x, y } => self.with_reg_and_flag(
                    x,
                    wrap8(self.reg(x) - self.reg(y)),
                    self.reg(x) >= self.reg(y),
                ),
                Instruction::ShiftRight { x } => self.with_reg_and_flag(
                    x,
                    self.reg(x) / 2,
                    self.reg(x) % 2 == 1,
                ),
                Instruction::SubtractFrom { x, y } => self.with_reg_and_flag(
                    x,
                    wrap8(self.reg(y) - self.reg(x)),
                    self.reg(y) >= self.reg(x),
                ),
                Instruction::ShiftLeft { x } => self.with_reg_and_flag(
                    x,
                    wrap8(self.reg(x) * 2),
                    self.reg(x) >= 128,
                ),
                Instruction::SkipIfDifferent { x, y } => self.skip_if(self.reg(x) != self.reg(y)),
                Instruction::LoadIndex { addr } => State { index: addr, ..self },
                Instruction::JumpOffset { addr } => State {
                    pc: wrap16(addr + self.reg(0)),
                    ..self
                },
                Instruction::Random { x, kk } => self.with_reg(x, random & kk),
                Instruction::Draw { x, y, n } => State {
                    screen: self.drawn_screen(self.reg(x), self.reg(y), n),
                    ..self.with_reg(
                        FLAG,
                        if self.draw_collides(self.reg(x), self.reg(y), n) {
                            1u8
                        } else {
                            0u8
                        },
                    )
                },
                Instruction::SkipIfKey { x } => self.skip_if(self.key_down(self.reg(x))),
                Instruction::SkipIfNotKey { x } => self.skip_if(!self.key_down(self.reg(x))),
                Instruction::ReadDelay { x } => self.with_reg(x, self.delay_timer),
                Instruction::WaitKey { x } => match lowest_pressed(self.keys) {
                    Some(key) => self.with_reg(x, key),
                    None => self.with_pc_moved(-2),
                },
                Instruction::SetDelay { x } => State { delay_timer: self.reg(x), ..self },
                Instruction::SetSound { x } => State { sound_timer: self.reg(x), ..self },
                Instruction::AddIndex { x } => State {
                    index: wrap16(self.index + self.reg(x)),
                    ..self
                },
                Instruction::Glyph { x } => State {
                    index: (FONT_START + self.reg(x) * GLYPH_SIZE) as u16,
                    ..self
                },
                Instruction::Decimal { x } => State {
                    memory: self.memory.update(self.index as int, self.reg(x) / 100).update(
                        self.index + 1,
                        self.reg(x) / 10 % 10,
                    ).update(self.index + 2, self.reg(x) % 10),
                    ..self
                },
                Instruction::Store { x } => State { memory: self.stored_memory(x), ..self },
                Instruction::Load { x } => State { registers: self.loaded_registers(x), ..self },
                Instruction::Unknown { opcode } => self,
            }
        }
    }

    /// Whether both bytes of the next instruction lie inside the memory.
    pub open spec fn can_fetch(self) -> bool {
        self.pc + 1 < MEMORY_SIZE
    }

    /// The word at the program counter.
    pub open spec fn opcode(self) -> u16 {
        spec_opcode(self.memory[self.pc as int], self.memory[self.pc + 1])
    }

    /// This state with the program counter behind the word it pointed at.
    pub open spec fn fetched(self) -> State {
        State { pc: (self.pc + 2) as u16, ..self }
    }

    /// The fault that stops the next step, if any.
    pub open spec fn step_fault(self) -> Option<Fault> {
        if self.can_fetch() {
            self.fetched().execute_fault(spec_decode(self.opcode()))
        } else {
            Some(Fault::OutOfBounds)
        }
    }

    /// The state after one step. A step that cannot fetch changes nothing; an
    /// instruction that faults leaves only the program counter advanced.
    pub open spec fn step(self, random: u8) -> State {
        if self.can_fetch() {
            self.fetched().execute(spec_decode(self.opcode()), random)
        } else {
            self
        }
    }

    /// The state after one tick of the delay timer.
    pub open spec fn tick_delay(self) -> State {
        State {
            delay_timer: if self.delay_timer > 0 {
                (self.delay_timer - 1) as u8
            } else {
                0u8
            },
            ..self
        }
    }

    /// The state after one tick of the sound timer.
    pub open spec fn tick_sound(self) -> State {
        State {
            sound_timer: if self.sound_timer > 0 {
                (self.sound_timer - 1) as u8
            } else {
                0u8
            },
            ..self
        }
    }

    /// This state with key `key` held down or released.
    pub open spec fn with_key(self, key: u8, pressed: bool) -> State {
        State { keys: self.keys.update(key as int, pressed), ..self }
    }
}

} // verus!
