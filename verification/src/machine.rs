use vstd::prelude::*;

use crate::fault::Fault;
use crate::font::{FONT, FONT_SIZE};
use crate::instruction::{decode, opcode_from_bytes, Instruction};
use crate::keyboard::{Keyboard, KEYS};
use crate::model::{
    outcome_of, sprite_row, State, FLAG, FONT_START, GLYPH_SIZE, MEMORY_SIZE, PROGRAM_START,
    REGISTERS,
};
use crate::random::random_byte;
use crate::screen::{blank_grid, grid_wf, Screen, SCREEN_HEIGHT, SCREEN_WIDTH};
use crate::stack::Stack;

verus! {

/// Whether the sprite has a set bit on the pixel `(px, py)` in one of its
/// first `rows` rows, or in row `rows` within its first `columns` columns:
/// what `sprite_covers` is once drawing has come that far.
spec fn drawn_so_far(s: State, vx: u8, vy: u8, n: u8, rows: int, columns: int, px: int, py: int)
    -> bool {
    let column = (px - vx) % (SCREEN_WIDTH as int);
    let row = (py - vy) % (SCREEN_HEIGHT as int);
    s.sprite_covers(vx, vy, n, px, py) && (row < rows || (row == rows && column < columns))
}

/// Whether, so far, drawing has switched off a pixel that was on.
spec fn collided_so_far(s: State, vx: u8, vy: u8, n: u8, rows: int, columns: int) -> bool {
    exists|px: int, py: int|
        0 <= px < SCREEN_WIDTH && 0 <= py < SCREEN_HEIGHT && s.screen[px][py]
            && #[trigger] drawn_so_far(s, vx, vy, n, rows, columns, px, py)
}

/// Drawing one more bit of a row adds the pixel under that bit, and no other.
proof fn lemma_draw_bit(s: State, vx: u8, vy: u8, n: u8, row: int, column: int)
    requires
        0 <= row < n <= SCREEN_HEIGHT,
        0 <= column < 8,
    ensures
        forall|px: int, py: int|
            0 <= px < SCREEN_WIDTH && 0 <= py < SCREEN_HEIGHT ==> (#[trigger] drawn_so_far(
                s,
                vx,
                vy,
                n,
                row,
                column + 1,
                px,
                py,
            ) <==> drawn_so_far(s, vx, vy, n, row, column, px, py) || (px == (vx + column)
                % (SCREEN_WIDTH as int) && py == (vy + row) % (SCREEN_HEIGHT as int)
                && sprite_row(s.memory[s.index + row])[column])),
{
}

/// A finished row is the start of the next one; nothing is drawn before the
/// first row; after the last row the whole sprite is drawn.
proof fn lemma_draw_rows(s: State, vx: u8, vy: u8, n: u8, row: int)
    requires
        0 <= row <= n <= SCREEN_HEIGHT,
    ensures
        forall|px: int, py: int| #[trigger]
            drawn_so_far(s, vx, vy, n, row, 8, px, py) <==> drawn_so_far(
                s,
                vx,
                vy,
                n,
                row + 1,
                0,
                px,
                py,
            ),
        forall|px: int, py: int| !#[trigger] drawn_so_far(s, vx, vy, n, 0, 0, px, py),
        forall|px: int, py: int| #[trigger]
            drawn_so_far(s, vx, vy, n, n as int, 0, px, py) <==> s.sprite_covers(
                vx,
                vy,
                n,
                px,
                py,
            ),
{
}

/// The bit that the shift picks out of a sprite byte is the pixel that
/// `sprite_row` gives for that column.
proof fn lemma_sprite_bit(byte: u8, column: u8)
    requires
        column < 8,
    ensures
        ((byte >> ((7 - column) as u8)) & 0x1 == 1) == sprite_row(byte)[column as int],
{
    assert(((byte >> 7u8) & 0x1 == 1) == (byte / 128 % 2 == 1) && ((byte >> 6u8) & 0x1 == 1) == (
    byte / 64 % 2 == 1) && ((byte >> 5u8) & 0x1 == 1) == (byte / 32 % 2 == 1) && ((byte >> 4u8)
        & 0x1 == 1) == (byte / 16 % 2 == 1) && ((byte >> 3u8) & 0x1 == 1) == (byte / 8 % 2 == 1)
        && ((byte >> 2u8) & 0x1 == 1) == (byte / 4 % 2 == 1) && ((byte >> 1u8) & 0x1 == 1) == (byte
        / 2 % 2 == 1) && ((byte >> 0u8) & 0x1 == 1) == (byte % 2 == 1)) by (bit_vector);
}

/// The virtual machine.
pub struct Chip8 {
    memory: [u8; 4096],
    registers: [u8; 16],
    program_counter: u16,
    index: u16,
    stack: Stack,
    delay_timer: u8,
    sound_timer: u8,
    screen: Screen,
    keyboard: Keyboard,
}

impl View for Chip8 {
    type V = State;

    closed spec fn view(&self) -> State {
        State {
            memory: self.memory@,
            registers: self.registers@,
            pc: self.program_counter,
            index: self.index,
            stack: self.stack@,
            delay_timer: self.delay_timer,
            sound_timer: self.sound_timer,
            screen: self.screen@,
            keys: self.keyboard@,
        }
    }
}

impl Chip8 {
    /// The view of a machine is always well-formed.
    pub proof fn lemma_view(&self)
        ensures
            self@.wf(),
    {
        self.stack.lemma_bounded();
        self.screen.lemma_shape();
        self.keyboard.lemma_shape();
    }

    /// A machine with the font loaded and no program.
    pub fn new() -> (c: Chip8)
        ensures
            c@ == State::initial(),
    {
        let mut c = Chip8 {
            memory: [0; 4096],
            registers: [0; 16],
            program_counter: PROGRAM_START,
            index: 0,
            stack: Stack::new(),
            delay_timer: 0,
            sound_timer: 0,
            screen: Screen::new(),
            keyboard: Keyboard::new(),
        };
        c.load_font();
        assert(c@.memory =~= State::initial().memory);
        assert(c@.registers =~= State::initial().registers);
        c
    }

    /// Copies the built-in font to the bottom of the memory.
    fn load_font(&mut self)
        ensures
            final(self)@ == (State {
                memory: Seq::new(
                    MEMORY_SIZE as nat,
                    |a: int|
                        if FONT_START <= a < FONT_START + FONT_SIZE {
                            FONT@[a - FONT_START]
                        } else {
                            old(self)@.memory[a]
                        },
                ),
                ..old(self)@
            }),
    {
        let mut i: usize = 0;
        while i < FONT_SIZE
            invariant
                i <= FONT_SIZE,
                forall|a: int| 0 <= a < i ==> self.memory@[a] == FONT@[a],
                forall|a: int| i <= a < MEMORY_SIZE ==> self.memory@[a] == old(self).memory@[a],
                self.registers == old(self).registers,
                self.program_counter == old(self).program_counter,
                self.index == old(self).index,
                self.stack == old(self).stack,
                self.delay_timer == old(self).delay_timer,
                self.sound_timer == old(self).sound_timer,
                self.screen == old(self).screen,
                self.keyboard == old(self).keyboard,
            decreases FONT_SIZE - i,
        {
            self.memory[i] = FONT[i];
            i += 1;
        }
        assert(self@.memory =~= Seq::new(
            MEMORY_SIZE as nat,
            |a: int|
                if FONT_START <= a < FONT_START + FONT_SIZE {
                    FONT@[a - FONT_START]
                } else {
                    old(self)@.memory[a]
                },
        ));
    }

    /// Copies a program into the memory from the program base on, unless it
    /// is too long to fit.
    pub fn load_rom(&mut self, data: &[u8]) -> (res: Result<(), Fault>)
        ensures
            data@.len() <= MEMORY_SIZE - PROGRAM_START ==> res == Ok::<(), Fault>(())
                && final(self)@ == old(self)@.with_program(data@),
            data@.len() > MEMORY_SIZE - PROGRAM_START ==> res == Err::<(), Fault>(
                Fault::RomTooLarge,
            ) && final(self)@ == old(self)@,
    {
        let length: usize = data.len();
        if length > MEMORY_SIZE - PROGRAM_START as usize {
            return Err(Fault::RomTooLarge);
        }
        let mut i: usize = 0;
        while i < length
            invariant
                i <= length,
                length == data@.len(),
                length <= MEMORY_SIZE - PROGRAM_START,
                forall|a: int|
                    PROGRAM_START <= a < PROGRAM_START + i ==> self.memory@[a] == data@[a
                        - PROGRAM_START],
                forall|a: int|
                    0 <= a < MEMORY_SIZE && !(PROGRAM_START <= a < PROGRAM_START + i)
                        ==> self.memory@[a] == old(self).memory@[a],
                self.registers == old(self).registers,
                self.program_counter == old(self).program_counter,
                self.index == old(self).index,
                self.stack == old(self).stack,
                self.delay_timer == old(self).delay_timer,
                self.sound_timer == old(self).sound_timer,
                self.screen == old(self).screen,
                self.keyboard == old(self).keyboard,
            decreases length - i,
        {
            self.memory[PROGRAM_START as usize + i] = data[i];
            i += 1;
        }
        assert(self@.memory =~= old(self)@.with_program(data@).memory);
        Ok(())
    }

    /// Records that key `key` is held down.
    pub fn key_press(&mut self, key: u8)
        requires
            key < KEYS,
        ensures
            final(self)@ == old(self)@.with_key(key, true),
    {
        self.keyboard.set_key(key, true);
    }

    /// Records that key `key` was released.
    pub fn key_release(&mut self, key: u8)
        requires
            key < KEYS,
        ensures
            final(self)@ == old(self)@.with_key(key, false),
    {
        self.keyboard.set_key(key, false);
    }

    /// Counts the delay timer down by one, stopping at zero.
    pub fn decrease_delay_timer(&mut self)
        ensures
            final(self)@ == old(self)@.tick_delay(),
    {
        self.delay_timer = self.delay_timer.saturating_sub(1);
    }

    /// Counts the sound timer down by one, stopping at zero.
    pub fn decrease_sound_timer(&mut self)
        ensures
            final(self)@ == old(self)@.tick_sound(),
    {
        self.sound_timer = self.sound_timer.saturating_sub(1);
    }

    /// Whether the tone should be heard: the sound timer has not run out.
    pub fn is_sound_active(&self) -> (active: bool)
        ensures
            active == (self@.sound_timer > 0),
    {
        self.sound_timer > 0
    }

    /// The program counter.
    pub fn program_counter(&self) -> (pc: u16)
        ensures
            pc == self@.pc,
    {
        self.program_counter
    }

    /// The index register.
    pub fn index(&self) -> (index: u16)
        ensures
            index == self@.index,
    {
        self.index
    }

    /// The memory cell at `addr`, if there is such a cell.
    pub fn read_memory(&self, addr: u16) -> (cell: Option<u8>)
        ensures
            addr < MEMORY_SIZE ==> cell == Some(self@.memory[addr as int]),
            addr >= MEMORY_SIZE ==> cell is None,
    {
        if (addr as usize) < MEMORY_SIZE {
            Some(self.memory[addr as usize])
        } else {
            None
        }
    }

    /// How many return addresses are on the stack.
    pub fn stack_depth(&self) -> (depth: usize)
        ensures
            depth == self@.stack.len(),
    {
        self.stack.len()
    }

    /// The delay timer.
    pub fn delay_timer(&self) -> (value: u8)
        ensures
            value == self@.delay_timer,
    {
        self.delay_timer
    }

    /// The sound timer.
    pub fn sound_timer(&self) -> (value: u8)
        ensures
            value == self@.sound_timer,
    {
        self.sound_timer
    }

    /// The framebuffer, for the renderer to read.
    pub fn screen(&self) -> (screen: &Screen)
        ensures
            screen@ == self@.screen,
    {
        &self.screen
    }

    /// Reads the word at the program counter, high byte first, and moves the
    /// program counter behind it. Where the word does not lie inside the
    /// memory, nothing changes.
    pub fn fetch(&mut self) -> (res: Result<u16, Fault>)
        ensures
            old(self)@.can_fetch() ==> res == Ok::<u16, Fault>(old(self)@.opcode())
                && final(self)@ == old(self)@.fetched(),
            !old(self)@.can_fetch() ==> res == Err::<u16, Fault>(Fault::OutOfBounds)
                && final(self)@ == old(self)@,
    {
        let pc: usize = self.program_counter as usize;
        if pc + 1 >= MEMORY_SIZE {
            return Err(Fault::OutOfBounds);
        }
        let opcode: u16 = opcode_from_bytes(self.memory[pc], self.memory[pc + 1]);
        self.program_counter += 2;
        Ok(opcode)
    }

    /// Switches every pixel off.
    fn clear(&mut self)
        ensures
            final(self)@ == (State { screen: blank_grid(), ..old(self)@ }),
    {
        proof {
            self.screen.lemma_shape();
        }
        let mut x: usize = 0;
        while x < SCREEN_WIDTH
            invariant
                x <= SCREEN_WIDTH,
                grid_wf(self.screen@),
                forall|px: int, py: int|
                    0 <= px < x && 0 <= py < SCREEN_HEIGHT ==> !self.screen@[px][py],
                self.memory == old(self).memory,
                self.registers == old(self).registers,
                self.program_counter == old(self).program_counter,
                self.index == old(self).index,
                self.stack == old(self).stack,
                self.delay_timer == old(self).delay_timer,
                self.sound_timer == old(self).sound_timer,
                self.keyboard == old(self).keyboard,
            decreases SCREEN_WIDTH - x,
        {
            let mut y: usize = 0;
            while y < SCREEN_HEIGHT
                invariant
                    x < SCREEN_WIDTH,
                    y <= SCREEN_HEIGHT,
                    grid_wf(self.screen@),
                    forall|px: int, py: int|
                        0 <= px < x && 0 <= py < SCREEN_HEIGHT ==> !self.screen@[px][py],
                    forall|py: int| 0 <= py < y ==> !self.screen@[x as int][py],
                    self.memory == old(self).memory,
                    self.registers == old(self).registers,
                    self.program_counter == old(self).program_counter,
                    self.index == old(self).index,
                    self.stack == old(self).stack,
                    self.delay_timer == old(self).delay_timer,
                    self.sound_timer == old(self).sound_timer,
                    self.keyboard == old(self).keyboard,
                decreases SCREEN_HEIGHT - y,
            {
                self.screen.set_pixel((x, y), false);
                y += 1;
            }
            x += 1;
        }
        assert(self.screen@ =~~= blank_grid());
    }
    /// Draws the sprite of `n` rows at `I` at position `(vx, vy)`: every
    /// pixel under a set bit is flipped, both axes wrap around, and the flag
    /// register tells whether a pixel went from on to off.
    fn draw(&mut self, vx: u8, vy: u8, n: u8)
        requires
            n < 16,
            n > 0 ==> old(self)@.index + n <= MEMORY_SIZE,
        ensures
            final(self)@ == (State {
                screen: old(self)@.drawn_screen(vx, vy, n),
                ..old(self)@.with_reg(
                    FLAG,
                    if old(self)@.draw_collides(vx, vy, n) {
                        1u8
                    } else {
                        0u8
                    },
                )
            }),
    {
        let ghost s0 = self@;
        proof {
            self.screen.lemma_shape();
            lemma_draw_rows(s0, vx, vy, n, 0);
        }
        self.registers[0xF] = 0;
        let mut i: u8 = 0;
        while i < n
            invariant
                i <= n < 16,
                n > 0 ==> s0.index + n <= MEMORY_SIZE,
                s0 == old(self)@,
                grid_wf(self.screen@),
                grid_wf(s0.screen),
                forall|px: int, py: int|
                    0 <= px < SCREEN_WIDTH && 0 <= py < SCREEN_HEIGHT ==> self.screen@[px][py] == (
                    s0.screen[px][py] != drawn_so_far(s0, vx, vy, n, i as int, 0, px, py)),
                self.registers@ == s0.registers.update(
                    FLAG as int,
                    if collided_so_far(s0, vx, vy, n, i as int, 0) {
                        1u8
                    } else {
                        0u8
                    },
                ),
                self.memory == old(self).memory,
                self.program_counter == old(self).program_counter,
                self.index == old(self).index,
                self.stack == old(self).stack,
                self.delay_timer == old(self).delay_timer,
                self.sound_timer == old(self).sound_timer,
                self.keyboard == old(self).keyboard,
            decreases n - i,
        {
            let ty: usize = (vy as usize + i as usize) % SCREEN_HEIGHT;
            let val: u8 = self.memory[self.index as usize + i as usize];
            let mut j: u8 = 0;
            while j < 8
                invariant
                    i < n < 16,
                    j <= 8,
                    s0 == old(self)@,
                    s0.index + i < MEMORY_SIZE,
                    val == s0.memory[s0.index + i],
                    ty == (vy + i) % (SCREEN_HEIGHT as int),
                    grid_wf(self.screen@),
                    grid_wf(s0.screen),
                    forall|px: int, py: int|
                        0 <= px < SCREEN_WIDTH && 0 <= py < SCREEN_HEIGHT
                            ==> self.screen@[px][py] == (s0.screen[px][py] != drawn_so_far(
                            s0,
                            vx,
                            vy,
                            n,
                            i as int,
                            j as int,
                            px,
                            py,
                        )),
                    self.registers@ == s0.registers.update(
                        FLAG as int,
                        if collided_so_far(s0, vx, vy, n, i as int, j as int) {
                            1u8
                        } else {
                            0u8
                        },
                    ),
                    self.memory == old(self).memory,
                    self.program_counter == old(self).program_counter,
                    self.index == old(self).index,
                    self.stack == old(self).stack,
                    self.delay_timer == old(self).delay_timer,
                    self.sound_timer == old(self).sound_timer,
                    self.keyboard == old(self).keyboard,
                decreases 8 - j,
            {
                let tx: usize = (vx as usize + j as usize) % SCREEN_WIDTH;
                let pixel: bool = ((val >> (7 - j)) & 0x1) == 1;
                let current: bool = self.screen.get_pixel((tx, ty));
                let new: bool = pixel ^ current;
                proof {
                    lemma_sprite_bit(val, j);
                    lemma_draw_bit(s0, vx, vy, n, i as int, j as int);
                    assert(!drawn_so_far(s0, vx, vy, n, i as int, j as int, tx as int, ty as int));
                    assert(current == s0.screen[tx as int][ty as int]);
                }
                let ghost before = self.screen@;
                let ghost collided = collided_so_far(s0, vx, vy, n, i as int, j as int);
                self.screen.set_pixel((tx, ty), new);
                if current && !new {
                    self.registers[0xF] = 1;
                }
                proof {
                    let after = collided_so_far(s0, vx, vy, n, i as int, j + 1);
                    if collided {
                        let (px, py) = choose|px: int, py: int|
                            0 <= px < SCREEN_WIDTH && 0 <= py < SCREEN_HEIGHT && s0.screen[px][py]
                                && #[trigger] drawn_so_far(
                                s0,
                                vx,
                                vy,
                                n,
                                i as int,
                                j as int,
                                px,
                                py,
                            );
                        assert(drawn_so_far(s0, vx, vy, n, i as int, j + 1, px, py));
                    }
                    if current && pixel {
                        assert(drawn_so_far(s0, vx, vy, n, i as int, j + 1, tx as int, ty as int));
                    }
                    if after {
                        let (px, py) = choose|px: int, py: int|
                            0 <= px < SCREEN_WIDTH && 0 <= py < SCREEN_HEIGHT && s0.screen[px][py]
                                && #[trigger] drawn_so_far(
                                s0,
                                vx,
                                vy,
                                n,
                                i as int,
                                j + 1,
                                px,
                                py,
                            );
                        if !(px == tx && py == ty) {
                            assert(drawn_so_far(s0, vx, vy, n, i as int, j as int, px, py));
                        }
                    }
                    assert(after == (collided || (current && pixel)));
                    assert(self.registers@ =~= s0.registers.update(
                        FLAG as int,
                        if after {
                            1u8
                        } else {
                            0u8
                        },
                    ));
                }
                j += 1;
            }
            proof {
                lemma_draw_rows(s0, vx, vy, n, i as int);
                assert forall|px: int, py: int|
                    0 <= px < SCREEN_WIDTH && 0 <= py < SCREEN_HEIGHT implies self.screen@[px][py]
                    == (s0.screen[px][py] != drawn_so_far(s0, vx, vy, n, i + 1, 0, px, py)) by {
                    assert(drawn_so_far(s0, vx, vy, n, i as int, 8, px, py) == drawn_so_far(
                        s0,
                        vx,
                        vy,
                        n,
                        i + 1,
                        0,
                        px,
                        py,
                    ));
                }
                assert(collided_so_far(s0, vx, vy, n, i as int, 8) == collided_so_far(
                    s0,
                    vx,
                    vy,
                    n,
                    i + 1,
                    0,
                )) by {
                    if collided_so_far(s0, vx, vy, n, i as int, 8) {
                        let (px, py) = choose|px: int, py: int|
                            0 <= px < SCREEN_WIDTH && 0 <= py < SCREEN_HEIGHT && s0.screen[px][py]
                                && #[trigger] drawn_so_far(s0, vx, vy, n, i as int, 8, px, py);
                        assert(drawn_so_far(s0, vx, vy, n, i + 1, 0, px, py));
                    }
                    if collided_so_far(s0, vx, vy, n, i + 1, 0) {
                        let (px, py) = choose|px: int, py: int|
                            0 <= px < SCREEN_WIDTH && 0 <= py < SCREEN_HEIGHT && s0.screen[px][py]
                                && #[trigger] drawn_so_far(s0, vx, vy, n, i + 1, 0, px, py);
                        assert(drawn_so_far(s0, vx, vy, n, i as int, 8, px, py));
                    }
                }
            }
            i += 1;
        }
        proof {
            lemma_draw_rows(s0, vx, vy, n, n as int);
            assert(collided_so_far(s0, vx, vy, n, n as int, 0) == s0.draw_collides(vx, vy, n)) by {
                if collided_so_far(s0, vx, vy, n, n as int, 0) {
                    let (px, py) = choose|px: int, py: int|
                        0 <= px < SCREEN_WIDTH && 0 <= py < SCREEN_HEIGHT && s0.screen[px][py]
                            && #[trigger] drawn_so_far(s0, vx, vy, n, n as int, 0, px, py);
                    assert(s0.sprite_covers(vx, vy, n, px, py));
                }
                if s0.draw_collides(vx, vy, n) {
                    let (px, py) = choose|px: int, py: int|
                        0 <= px < SCREEN_WIDTH && 0 <= py < SCREEN_HEIGHT && s0.screen[px][py]
                            && #[trigger] s0.sprite_covers(vx, vy, n, px, py);
                    assert(drawn_so_far(s0, vx, vy, n, n as int, 0, px, py));
                }
            }
            assert forall|px: int, py: int|
                0 <= px < SCREEN_WIDTH && 0 <= py < SCREEN_HEIGHT implies self.screen@[px][py] == (
            s0.screen[px][py] != s0.sprite_covers(vx, vy, n, px, py)) by {
                assert(drawn_so_far(s0, vx, vy, n, n as int, 0, px, py) == s0.sprite_covers(
                    vx,
                    vy,
                    n,
                    px,
                    py,
                ));
            }
            assert(self.screen@ =~~= s0.drawn_screen(vx, vy, n));
        }
    }
    /// Stores `V0..=Vx` in the memory at `I` onwards.
    fn store_registers(&mut self, x: u8)
        requires
            x < REGISTERS,
            old(self)@.index + x < MEMORY_SIZE,
        ensures
            final(self)@ == (State { memory: old(self)@.stored_memory(x), ..old(self)@ }),
    {
        let mut i: usize = 0;
        while i <= x as usize
            invariant
                i <= x + 1,
                x < REGISTERS,
                self.index + x < MEMORY_SIZE,
                forall|a: int|
                    self.index <= a < self.index + i ==> self.memory@[a] == self.registers@[a
                        - self.index],
                forall|a: int|
                    0 <= a < MEMORY_SIZE && !(self.index <= a < self.index + i)
                        ==> self.memory@[a] == old(self).memory@[a],
                self.registers == old(self).registers,
                self.program_counter == old(self).program_counter,
                self.index == old(self).index,
                self.stack == old(self).stack,
                self.delay_timer == old(self).delay_timer,
                self.sound_timer == old(self).sound_timer,
                self.screen == old(self).screen,
                self.keyboard == old(self).keyboard,
            decreases x + 1 - i,
        {
            self.memory[self.index as usize + i] = self.registers[i];
            i += 1;
        }
        assert(self@.memory =~= old(self)@.stored_memory(x));
    }

    /// Loads `V0..=Vx` from the memory at `I` onwards.
    fn load_registers(&mut self, x: u8)
        requires
            x < REGISTERS,
            old(self)@.index + x < MEMORY_SIZE,
        ensures
            final(self)@ == (State { registers: old(self)@.loaded_registers(x), ..old(self)@ }),
    {
        let mut i: usize = 0;
        while i <= x as usize
            invariant
                i <= x + 1,
                x < REGISTERS,
                self.index + x < MEMORY_SIZE,
                forall|r: int| 0 <= r < i ==> self.registers@[r] == self.memory@[self.index + r],
                forall|r: int| i <= r < REGISTERS ==> self.registers@[r] == old(self).registers@[r],
                self.memory == old(self).memory,
                self.program_counter == old(self).program_counter,
                self.index == old(self).index,
                self.stack == old(self).stack,
                self.delay_timer == old(self).delay_timer,
                self.sound_timer == old(self).sound_timer,
                self.screen == old(self).screen,
                self.keyboard == old(self).keyboard,
            decreases x + 1 - i,
        {
            self.registers[i] = self.memory[self.index as usize + i];
            i += 1;
        }
        assert(self@.registers =~= old(self)@.loaded_registers(x));
    }

    /// The value of register `x`.
    pub fn register(&self, x: u8) -> (value: u8)
        requires
            x < REGISTERS,
        ensures
            value == self@.reg(x),
    {
        self.registers[x as usize]
    }

    /// Writes `value` to register `x`.
    fn set_register(&mut self, x: u8, value: u8)
        requires
            x < REGISTERS,
        ensures
            final(self)@ == old(self)@.with_reg(x, value),
    {
        self.registers[x as usize] = value;
    }

    /// Writes `value` to register `x` and then the flag to `VF`.
    fn set_with_flag(&mut self, x: u8, value: u8, flag: bool)
        requires
            x < REGISTERS,
        ensures
            final(self)@ == old(self)@.with_reg_and_flag(x, value, flag),
    {
        self.registers[x as usize] = value;
        self.registers[0xF] = if flag {
            1
        } else {
            0
        };
    }

    /// Moves the program counter behind the next instruction if `condition`
    /// holds.
    fn skip_if(&mut self, condition: bool)
        ensures
            final(self)@ == old(self)@.skip_if(condition),
    {
        if condition {
            self.program_counter = self.program_counter.wrapping_add(2);
        }
    }

    /// Whether `key` names a key and that key is held down.
    pub fn is_key_pressed(&self, key: u8) -> (down: bool)
        ensures
            down == self@.key_down(key),
    {
        key < 16 && self.keyboard.is_pressed(key)
    }

    /// Returns from a subroutine, unless the stack is empty.
    fn return_from_call(&mut self) -> (res: Result<(), Fault>)
        ensures
            res == outcome_of(old(self)@.execute_fault(Instruction::Return)),
            final(self)@ == old(self)@.execute(Instruction::Return, 0),
    {
        match self.stack.pop() {
            Ok(addr) => {
                self.program_counter = addr;
                Ok(())
            },
            Err(fault) => Err(fault),
        }
    }

    /// Calls the subroutine at `addr`, unless the stack is full.
    fn call(&mut self, addr: u16) -> (res: Result<(), Fault>)
        ensures
            res == outcome_of(old(self)@.execute_fault(Instruction::Call { addr })),
            final(self)@ == old(self)@.execute(Instruction::Call { addr }, 0),
    {
        proof {
            self.stack.lemma_bounded();
        }
        match self.stack.push(self.program_counter) {
            Ok(()) => {
                self.program_counter = addr;
                Ok(())
            },
            Err(fault) => Err(fault),
        }
    }

    /// Puts the lowest key held down in register `x`; with no key held
    /// down, moves the program counter back onto this instruction.
    fn wait_key(&mut self, x: u8)
        requires
            x < REGISTERS,
        ensures
            final(self)@ == old(self)@.execute(Instruction::WaitKey { x }, 0),
    {
        let pressed: Vec<u8> = self.keyboard.keys_pressed();
        if pressed.len() > 0 {
            self.registers[x as usize] = pressed[0];
        } else {
            self.program_counter = self.program_counter.wrapping_sub(2);
        }
    }

    /// Stores the hundreds, tens and units of register `x` at `I`, `I + 1`
    /// and `I + 2`, unless one of them lies outside the memory.
    fn store_decimal(&mut self, x: u8) -> (res: Result<(), Fault>)
        requires
            x < REGISTERS,
        ensures
            res == outcome_of(old(self)@.execute_fault(Instruction::Decimal { x })),
            final(self)@ == old(self)@.execute(Instruction::Decimal { x }, 0),
    {
        let index: usize = self.index as usize;
        if index + 2 >= MEMORY_SIZE {
            return Err(Fault::OutOfBounds);
        }
        let vx: u8 = self.registers[x as usize];
        self.memory[index] = vx / 100;
        self.memory[index + 1] = vx / 10 % 10;
        self.memory[index + 2] = vx % 10;
        Ok(())
    }

    /// Carries out one instruction on a machine whose program counter
    /// already points behind it. `random` is the byte that the random
    /// instruction uses; the others ignore it. An instruction that faults
    /// changes nothing.
    #[verifier::rlimit(20)]
    pub fn execute(&mut self, instruction: Instruction, random: u8) -> (res: Result<(), Fault>)
        requires
            instruction.wf(),
        ensures
            res == outcome_of(old(self)@.execute_fault(instruction)),
            final(self)@ == old(self)@.execute(instruction, random),
    {
        match instruction {
            Instruction::ClearScreen => {
                self.clear();
                Ok(())
            },
            Instruction::Return => self.return_from_call(),
            Instruction::Jump { addr } => {
                self.program_counter = addr;
                Ok(())
            },
            Instruction::Call { addr } => self.call(addr),
            Instruction::SkipIfEqual { x, kk } => {
                let vx: u8 = self.register(x);
                self.skip_if(vx == kk);
                Ok(())
            },
            Instruction::SkipIfNotEqual { x, kk } => {
                let vx: u8 = self.register(x);
                self.skip_if(vx != kk);
                Ok(())
            },
            Instruction::SkipIfSame { x, y } => {
                let vx: u8 = self.register(x);
                let vy: u8 = self.register(y);
                self.skip_if(vx == vy);
                Ok(())
            },
            Instruction::LoadByte { x, kk } => {
                self.set_register(x, kk);
                Ok(())
            },
            Instruction::AddByte { x, kk } => {
                let vx: u8 = self.register(x);
                self.set_register(x, vx.wrapping_add(kk));
                Ok(())
            },
            Instruction::Copy { x, y } => {
                let vy: u8 = self.register(y);
                self.set_register(x, vy);
                Ok(())
            },
            Instruction::Or { x, y } => {
                let vx: u8 = self.register(x);
                let vy: u8 = self.register(y);
                self.set_register(x, vx | vy);
                Ok(())
            },
            Instruction::And { x, y } => {
                let vx: u8 = self.register(x);
                let vy: u8 = self.register(y);
                self.set_register(x, vx & vy);
                Ok(())
            },
            Instruction::Xor { x, y } => {
                let vx: u8 = self.register(x);
                let vy: u8 = self.register(y);
                self.set_register(x, vx ^ vy);
                Ok(())
            },
            Instruction::Add { x, y } => {
                let vx: u8 = self.register(x);
                let vy: u8 = self.register(y);
                self.set_with_flag(x, vx.wrapping_add(vy), vx.checked_add(vy).is_none());
                Ok(())
            },
            Instruction::Subtract { x, y } => {
                let vx: u8 = self.register(x);
                let vy: u8 = self.register(y);
                self.set_with_flag(x, vx.wrapping_sub(vy), vx.checked_sub(vy).is_some());
                Ok(())
            },
            Instruction::ShiftRight { x } => {
                let vx: u8 = self.register(x);
                assert(vx >> 1u8 == vx / 2 && ((vx & 0x1) == 1) == (vx % 2 == 1)) by (bit_vector);
                self.set_with_flag(x, vx >> 1, (vx & 0x1) == 1);
                Ok(())
            },
            Instruction::SubtractFrom { x, y } => {
                let vx: u8 = self.register(x);
                let vy: u8 = self.register(y);
                self.set_with_flag(x, vy.wrapping_sub(vx), vy >= vx);
                Ok(())
            },
            Instruction::ShiftLeft { x } => {
                let vx: u8 = self.register(x);
                assert(vx << 1u8 == (vx * 2) % 256 && ((vx >> 7u8) == 1) == (vx >= 128))
                    by (bit_vector);
                self.set_with_flag(x, vx << 1, (vx >> 7) == 1);
                Ok(())
            },
            Instruction::SkipIfDifferent { x, y } => {
                let vx: u8 = self.register(x);
                let vy: u8 = self.register(y);
                self.skip_if(vx != vy);
                Ok(())
            },
            Instruction::LoadIndex { addr } => {
                self.index = addr;
                Ok(())
            },
            Instruction::JumpOffset { addr } => {
                let v0: u8 = self.register(0);
                self.program_counter = addr + v0 as u16;
                Ok(())
            },
            Instruction::Random { x, kk } => {
                self.set_register(x, random & kk);
                Ok(())
            },
            Instruction::Draw { x, y, n } => {
                if n > 0 && self.index as usize + n as usize > MEMORY_SIZE {
                    return Err(Fault::OutOfBounds);
                }
                let vx: u8 = self.register(x);
                let vy: u8 = self.register(y);
                self.draw(vx, vy, n);
                Ok(())
            },
            Instruction::SkipIfKey { x } => {
                let key: u8 = self.register(x);
                let down: bool = self.is_key_pressed(key);
                self.skip_if(down);
                Ok(())
            },
            Instruction::SkipIfNotKey { x } => {
                let key: u8 = self.register(x);
                let down: bool = self.is_key_pressed(key);
                self.skip_if(!down);
                Ok(())
            },
            Instruction::ReadDelay { x } => {
                let delay: u8 = self.delay_timer;
                self.set_register(x, delay);
                Ok(())
            },
            Instruction::WaitKey { x } => {
                self.wait_key(x);
                Ok(())
            },
            Instruction::SetDelay { x } => {
                self.delay_timer = self.register(x);
                Ok(())
            },
            Instruction::SetSound { x } => {
                self.sound_timer = self.register(x);
                Ok(())
            },
            Instruction::AddIndex { x } => {
                let vx: u8 = self.register(x);
                self.index = self.index.wrapping_add(vx as u16);
                Ok(())
            },
            Instruction::Glyph { x } => {
                let vx: u8 = self.register(x);
                self.index = FONT_START + vx as u16 * GLYPH_SIZE;
                Ok(())
            },
            Instruction::Decimal { x } => self.store_decimal(x),
            Instruction::Store { x } => {
                if self.index as usize + x as usize >= MEMORY_SIZE {
                    return Err(Fault::OutOfBounds);
                }
                self.store_registers(x);
                Ok(())
            },
            Instruction::Load { x } => {
                if self.index as usize + x as usize >= MEMORY_SIZE {
                    return Err(Fault::OutOfBounds);
                }
                self.load_registers(x);
                Ok(())
            },
            Instruction::Unknown { opcode } => Err(Fault::UnknownOpcode(opcode)),
        }
    }

    /// Carries out the instruction at the program counter: fetches it, moves
    /// the program counter behind it, decodes and executes it. The random
    /// instruction draws its byte here. A step that cannot fetch changes
    /// nothing; an instruction that faults leaves only the program counter
    /// advanced.
    pub fn step(&mut self) -> (res: Result<(), Fault>)
        ensures
            res == outcome_of(old(self)@.step_fault()),
            exists|random: u8| final(self)@ == #[trigger] old(self)@.step(random),
    {
        let opcode: u16 = match self.fetch() {
            Ok(opcode) => opcode,
            Err(fault) => {
                assert(self@ == old(self)@.step(0u8));
                return Err(fault);
            },
        };
        let instruction: Instruction = decode(opcode);
        let random: u8 = match instruction {
            Instruction::Random { x, kk } => random_byte(),
            _ => 0,
        };
        let res = self.execute(instruction, random);
        assert(self@ == old(self)@.step(random));
        res
    }
}

} // verus!
