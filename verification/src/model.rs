//! The machine as a mathematical object: its state, and what each instruction
//! and each cycle does to it.
//!
//! Nothing here is compiled. The executable machine in [`crate::cpu`] is
//! proved to follow these definitions step by step.
//!
//! The machine is total: every instruction is defined on every state.
//!
//! * Memory has 4096 cells and every address is taken modulo 4096, the program
//!   counter at a fetch included.
//! * The call stack is a ring of 16 slots: the slot in use is the stack
//!   pointer modulo 16, and the 8-bit stack pointer itself wraps.
//! * Register arithmetic is modulo 256; the index register and the program
//!   counter are 16 bits wide and wrap at 65536.
//! * A key number above 15 names no key: such a key is never pressed.
//! * Sprites are clipped at the right and the bottom edge of the display.

use vstd::prelude::*;
use crate::font::{FONT_SET, FONT_START, GLYPH_SIZE};
use crate::opcode::{Instruction, instruction_of, kk_of, n_of, nnn_of, word_of, x_of, y_of};

verus! {

/// Number of memory cells.
pub const MEMORY_SIZE: usize = 4096;

/// Address at which a program is loaded and started.
pub const PROGRAM_START: usize = 0x200;

/// Largest program that fits between [`PROGRAM_START`] and the end of memory.
pub const PROGRAM_CAPACITY: usize = MEMORY_SIZE - PROGRAM_START;

/// Number of pixels in a row of the display.
pub const DISPLAY_WIDTH: usize = 64;

/// Number of rows of the display.
pub const DISPLAY_HEIGHT: usize = 32;

/// Number of cells of the framebuffer, one per pixel, row by row.
pub const DISPLAY_CELLS: usize = DISPLAY_WIDTH * DISPLAY_HEIGHT;

/// The value that a drawing instruction writes to a cell to switch it on.
/// A cell is on when it is not zero.
pub const PIXEL_ON: u32 = 0x0FFF_FFFF;

/// Number of the flag register `VF`.
pub const FLAG: usize = 15;

/// The state of the machine.
#[verifier::ext_equal]
pub struct State {
    /// The registers `V0` to `VF`.
    pub registers: Seq<u8>,
    pub memory: Seq<u8>,
    /// The index register.
    pub index: u16,
    /// The program counter.
    pub pc: u16,
    /// The return addresses of the calls in progress.
    pub stack: Seq<u16>,
    /// The stack pointer: the next free slot of the stack.
    pub sp: u8,
    pub delay_timer: u8,
    pub sound_timer: u8,
    /// For each key, whether it is held down.
    pub keypad: Seq<bool>,
    /// The framebuffer: cell `64 * row + column` holds the pixel at that place.
    pub video: Seq<u32>,
    /// The instruction word fetched last.
    pub opcode: u16,
}

/// The memory cell that address `address` names.
pub open spec fn cell_of(address: int) -> int {
    address % 4096
}

/// The stack slot that stack pointer `sp` names.
pub open spec fn slot_of(sp: u8) -> int {
    sp as int % 16
}

/// The sum of two bytes modulo 256.
pub open spec fn wrapping_sum(a: u8, b: u8) -> u8 {
    ((a + b) % 256) as u8
}

/// The difference of two bytes modulo 256.
pub open spec fn wrapping_difference(a: u8, b: u8) -> u8 {
    ((a - b) % 256) as u8
}

/// Whether bit `7 - column` of `row` is set: the sprite's pixel in that
/// column, the leftmost column being the most significant bit.
pub open spec fn sprite_bit(row: u8, column: int) -> bool {
    (row >> ((7 - column) as u8)) & 1 == 1
}

/// The state of a cell after one toggle.
pub open spec fn toggled(cell: u32) -> u32 {
    if cell != 0 {
        0
    } else {
        PIXEL_ON
    }
}

/// Whether `key` is the lowest key that is held down.
pub open spec fn is_lowest_pressed(keypad: Seq<bool>, key: int) -> bool {
    &&& 0 <= key < keypad.len()
    &&& keypad[key]
    &&& forall|lower: int| 0 <= lower < key ==> !keypad[lower]
}

/// The lowest key that is held down, if any is.
pub open spec fn lowest_pressed(keypad: Seq<bool>) -> Option<int> {
    if exists|key: int| is_lowest_pressed(keypad, key) {
        Some(choose|key: int| is_lowest_pressed(keypad, key))
    } else {
        None
    }
}

/// The lowest key that is held down is the only one that
/// [`is_lowest_pressed`].
pub proof fn lemma_lowest_pressed(keypad: Seq<bool>, key: int)
    requires
        is_lowest_pressed(keypad, key),
    ensures
        lowest_pressed(keypad) == Some(key),
{
}

/// The memory after a load: the font at [`FONT_START`], `program` at
/// [`PROGRAM_START`], every other cell as it was.
pub open spec fn loaded_memory(memory: Seq<u8>, program: Seq<u8>) -> Seq<u8> {
    Seq::new(
        4096,
        |address: int|
            if FONT_START <= address < FONT_START + 80 {
                FONT_SET[address - FONT_START]
            } else if PROGRAM_START <= address < PROGRAM_START + program.len() {
                program[address - PROGRAM_START]
            } else {
                memory[address]
            },
    )
}

impl State {
    /// Every component has the size that the machine gives it.
    pub open spec fn well_formed(self) -> bool {
        &&& self.registers.len() == 16
        &&& self.memory.len() == 4096
        &&& self.stack.len() == 16
        &&& self.keypad.len() == 16
        &&& self.video.len() == 2048
    }

    /// The value of register `Vx`.
    pub open spec fn vx(self) -> u8 {
        self.registers[x_of(self.opcode) as int]
    }

    /// The value of register `Vy`.
    pub open spec fn vy(self) -> u8 {
        self.registers[y_of(self.opcode) as int]
    }

    /// This state with register `number` set to `value`.
    pub open spec fn with_register(self, number: int, value: u8) -> State {
        State { registers: self.registers.update(number, value), ..self }
    }

    /// This state with the flag register set to `value`.
    pub open spec fn with_flag(self, value: u8) -> State {
        self.with_register(FLAG as int, value)
    }

    /// This state with register `Vx` set to `value`.
    pub open spec fn with_vx(self, value: u8) -> State {
        self.with_register(x_of(self.opcode) as int, value)
    }

    /// This state with the program counter at `pc`.
    pub open spec fn with_pc(self, pc: u16) -> State {
        State { pc, ..self }
    }

    /// This state with key `key` held down or released.
    pub open spec fn with_key(self, key: int, pressed: bool) -> State {
        State { keypad: self.keypad.update(key, pressed), ..self }
    }

    /// Skips the next instruction if `condition` holds.
    pub open spec fn skip_if(self, condition: bool) -> State {
        if condition {
            self.with_pc(((self.pc + 2) % 0x10000) as u16)
        } else {
            self
        }
    }

    /// Whether key number `key` is held down.
    pub open spec fn key_pressed(self, key: int) -> bool {
        0 <= key < 16 && self.keypad[key]
    }

    // Loading

    /// The state after the font has been copied to its place in memory.
    pub open spec fn load_fonts(self) -> State {
        State { memory: loaded_memory(self.memory, Seq::empty()), ..self }
    }

    /// The state after a load of `program`: font and program in memory, the
    /// program counter at the program's first instruction.
    pub open spec fn load_rom(self, program: Seq<u8>) -> State {
        State {
            memory: loaded_memory(self.memory, program),
            pc: PROGRAM_START as u16,
            ..self
        }
    }

    // Instructions

    /// `00E0`: every cell of the framebuffer is off.
    pub open spec fn op_00e0(self) -> State {
        State { video: Seq::new(2048, |cell: int| 0u32), ..self }
    }

    /// `00EE`: pops the return address into the program counter.
    pub open spec fn op_00ee(self) -> State {
        let sp = ((self.sp - 1) % 256) as u8;
        State { sp, pc: self.stack[slot_of(sp)], ..self }
    }

    /// `1nnn`: jumps to `nnn`.
    pub open spec fn op_1nnn(self) -> State {
        self.with_pc(nnn_of(self.opcode))
    }

    /// `2nnn`: pushes the program counter and jumps to `nnn`.
    pub open spec fn op_2nnn(self) -> State {
        State {
            stack: self.stack.update(slot_of(self.sp), self.pc),
            sp: ((self.sp + 1) % 256) as u8,
            pc: nnn_of(self.opcode),
            ..self
        }
    }

    /// `3xkk`: skips if `Vx == kk`.
    pub open spec fn op_3xkk(self) -> State {
        self.skip_if(self.vx() == kk_of(self.opcode))
    }

    /// `4xkk`: skips if `Vx != kk`.
    pub open spec fn op_4xkk(self) -> State {
        self.skip_if(self.vx() != kk_of(self.opcode))
    }

    /// `5xy0`: skips if `Vx == Vy`.
    pub open spec fn op_5xy0(self) -> State {
        self.skip_if(self.vx() == self.vy())
    }

    /// `6xkk`: `Vx = kk`.
    pub open spec fn op_6xkk(self) -> State {
        self.with_vx(kk_of(self.opcode))
    }

    /// `7xkk`: `Vx = Vx + kk` modulo 256. The flag is not touched.
    pub open spec fn op_7xkk(self) -> State {
        self.with_vx(wrapping_sum(self.vx(), kk_of(self.opcode)))
    }

    /// `8xy0`: `Vx = Vy`.
    pub open spec fn op_8xy0(self) -> State {
        self.with_vx(self.vy())
    }

    /// `8xy1`: `Vx = Vx | Vy`.
    pub open spec fn op_8xy1(self) -> State {
        self.with_vx(self.vx() | self.vy())
    }

    /// `8xy2`: `Vx = Vx & Vy`.
    pub open spec fn op_8xy2(self) -> State {
        self.with_vx(self.vx() & self.vy())
    }

    /// `8xy3`: `Vx = Vx ^ Vy`.
    pub open spec fn op_8xy3(self) -> State {
        self.with_vx(self.vx() ^ self.vy())
    }

    /// `8xy4`: the flag becomes the carry of `Vx + Vy`, then `Vx` the sum
    /// modulo 256.
    pub open spec fn op_8xy4(self) -> State {
        let sum = self.vx() + self.vy();
        self.with_flag(if sum > 255 { 1 } else { 0 }).with_vx((sum % 256) as u8)
    }

    /// `8xy5`: the flag becomes 1 if `Vx > Vy` and 0 otherwise, then
    /// `Vx = Vx - Vy` modulo 256, on the registers as the flag left them.
    pub open spec fn op_8xy5(self) -> State {
        let flagged = self.with_flag(if self.vx() > self.vy() { 1 } else { 0 });
        flagged.with_vx(wrapping_difference(flagged.vx(), flagged.vy()))
    }

    /// `8xy6`: the flag becomes the lowest bit of `Vx`, then `Vx` is halved,
    /// on the registers as the flag left them.
    pub open spec fn op_8xy6(self) -> State {
        let flagged = self.with_flag(self.vx() % 2);
        flagged.with_vx(flagged.vx() / 2)
    }

    /// `8xy7`: the flag becomes 1 if `Vy > Vx` and 0 otherwise, then
    /// `Vx = Vy - Vx` modulo 256, on the registers as the flag left them.
    pub open spec fn op_8xy7(self) -> State {
        let flagged = self.with_flag(if self.vy() > self.vx() { 1 } else { 0 });
        flagged.with_vx(wrapping_difference(flagged.vy(), flagged.vx()))
    }

    /// `8xyE`: the flag becomes the highest bit of `Vx`, then `Vx` is doubled
    /// modulo 256, on the registers as the flag left them.
    pub open spec fn op_8xye(self) -> State {
        let flagged = self.with_flag(self.vx() / 128);
        flagged.with_vx(wrapping_sum(flagged.vx(), flagged.vx()))
    }

    /// `9xy0`: skips if `Vx != Vy`.
    pub open spec fn op_9xy0(self) -> State {
        self.skip_if(self.vx() != self.vy())
    }

    /// `Annn`: `index = nnn`.
    pub open spec fn op_annn(self) -> State {
        State { index: nnn_of(self.opcode), ..self }
    }

    /// `Bnnn`: jumps to `nnn + V0`.
    pub open spec fn op_bnnn(self) -> State {
        self.with_pc((nnn_of(self.opcode) + self.registers[0]) as u16)
    }

    /// `Cxkk`: `Vx = random & kk`, for the random byte that was drawn.
    pub open spec fn op_cxkk(self, random: u8) -> State {
        self.with_vx(random & kk_of(self.opcode))
    }

    /// Column of the display at which `Dxyn` puts the sprite's left edge.
    pub open spec fn sprite_left(self) -> int {
        self.vx() as int % 64
    }

    /// Row of the display at which `Dxyn` puts the sprite's top edge.
    pub open spec fn sprite_top(self) -> int {
        self.vy() as int % 32
    }

    /// The byte that holds row `row` of the sprite of `Dxyn`.
    pub open spec fn sprite_row(self, row: int) -> u8 {
        self.memory[cell_of(self.index + row)]
    }

    /// Whether the sprite of `Dxyn` has a set pixel on cell `cell` of the
    /// framebuffer. The sprite has `n` rows of 8 pixels; what would lie right
    /// of column 63 or below row 31 is not part of it.
    pub open spec fn sprite_covers(self, cell: int) -> bool {
        let column = cell % 64 - self.sprite_left();
        let row = cell / 64 - self.sprite_top();
        &&& 0 <= cell < 2048
        &&& 0 <= column < 8
        &&& 0 <= row < n_of(self.opcode)
        &&& sprite_bit(self.sprite_row(row), column)
    }

    /// Whether `Dxyn` switches a pixel off.
    pub open spec fn sprite_collides(self) -> bool {
        exists|cell: int| self.sprite_covers(cell) && self.video[cell] != 0
    }

    /// `Dxyn`: toggles every cell that the sprite covers; the flag becomes 1
    /// if that switched a pixel off, and 0 otherwise.
    pub open spec fn op_dxyn(self) -> State {
        State {
            video: Seq::new(
                2048,
                |cell: int|
                    if self.sprite_covers(cell) {
                        toggled(self.video[cell])
                    } else {
                        self.video[cell]
                    },
            ),
            ..self.with_flag(if self.sprite_collides() { 1 } else { 0 })
        }
    }

    /// `Ex9E`: skips if key `Vx` is held down.
    pub open spec fn op_ex9e(self) -> State {
        self.skip_if(self.key_pressed(self.vx() as int))
    }

    /// `ExA1`: skips if key `Vx` is not held down.
    pub open spec fn op_exa1(self) -> State {
        self.skip_if(!self.key_pressed(self.vx() as int))
    }

    /// `Fx07`: `Vx = delay_timer`.
    pub open spec fn op_fx07(self) -> State {
        self.with_vx(self.delay_timer)
    }

    /// `Fx0A`: `Vx` becomes the lowest key that is held down; if none is, the
    /// program counter goes back by 2, so that the instruction is fetched
    /// again.
    pub open spec fn op_fx0a(self) -> State {
        match lowest_pressed(self.keypad) {
            Some(key) => self.with_vx(key as u8),
            None => self.with_pc(((self.pc - 2) % 0x10000) as u16),
        }
    }

    /// `Fx15`: `delay_timer = Vx`.
    pub open spec fn op_fx15(self) -> State {
        State { delay_timer: self.vx(), ..self }
    }

    /// `Fx18`: `sound_timer = Vx`.
    pub open spec fn op_fx18(self) -> State {
        State { sound_timer: self.vx(), ..self }
    }

    /// `Fx1E`: `index = index + Vx` modulo 65536.
    pub open spec fn op_fx1e(self) -> State {
        State { index: ((self.index + self.vx()) % 0x10000) as u16, ..self }
    }

    /// `Fx29`: `index` becomes the address of glyph number `Vx`.
    pub open spec fn op_fx29(self) -> State {
        State { index: (FONT_START + GLYPH_SIZE * self.vx()) as u16, ..self }
    }

    /// `Fx33`: stores the hundreds, tens and ones of `Vx` at `index`,
    /// `index + 1` and `index + 2`.
    pub open spec fn op_fx33(self) -> State {
        let value = self.vx();
        State {
            memory: self.memory.update(cell_of(self.index as int), value / 100).update(
                cell_of(self.index + 1),
                (value / 10) % 10,
            ).update(cell_of(self.index + 2), value % 10),
            ..self
        }
    }

    /// `Fx55`: stores `V0` to `Vx` in memory from `index` on.
    pub open spec fn op_fx55(self) -> State {
        State {
            memory: Seq::new(
                4096,
                |address: int|
                    {
                        let offset = cell_of(address - self.index);
                        if offset <= x_of(self.opcode) {
                            self.registers[offset]
                        } else {
                            self.memory[address]
                        }
                    },
            ),
            ..self
        }
    }

    /// `Fx65`: loads `V0` to `Vx` from memory from `index` on.
    pub open spec fn op_fx65(self) -> State {
        State {
            registers: Seq::new(
                16,
                |number: int|
                    if number <= x_of(self.opcode) {
                        self.memory[cell_of(self.index + number)]
                    } else {
                        self.registers[number]
                    },
            ),
            ..self
        }
    }

    // The cycle

    /// Fetch: the word at the program counter becomes the current
    /// instruction word, high byte first, and the program counter moves on
    /// to the next word.
    pub open spec fn fetch(self) -> State {
        let pc = cell_of(self.pc as int);
        State {
            opcode: word_of(self.memory[pc], self.memory[cell_of(pc + 1)]),
            pc: (pc + 2) as u16,
            ..self
        }
    }

    /// Executes the current instruction word. A word that encodes no
    /// instruction changes nothing. `random` is the byte that `Cxkk` uses.
    pub open spec fn execute(self, random: u8) -> State {
        match instruction_of(self.opcode) {
            Some(Instruction::ClearScreen) => self.op_00e0(),
            Some(Instruction::Return) => self.op_00ee(),
            Some(Instruction::Jump) => self.op_1nnn(),
            Some(Instruction::Call) => self.op_2nnn(),
            Some(Instruction::SkipIfEqual) => self.op_3xkk(),
            Some(Instruction::SkipIfNotEqual) => self.op_4xkk(),
            Some(Instruction::SkipIfRegistersEqual) => self.op_5xy0(),
            Some(Instruction::Load) => self.op_6xkk(),
            Some(Instruction::Add) => self.op_7xkk(),
            Some(Instruction::Copy) => self.op_8xy0(),
            Some(Instruction::Or) => self.op_8xy1(),
            Some(Instruction::And) => self.op_8xy2(),
            Some(Instruction::Xor) => self.op_8xy3(),
            Some(Instruction::AddRegister) => self.op_8xy4(),
            Some(Instruction::Subtract) => self.op_8xy5(),
            Some(Instruction::ShiftRight) => self.op_8xy6(),
            Some(Instruction::SubtractFrom) => self.op_8xy7(),
            Some(Instruction::ShiftLeft) => self.op_8xye(),
            Some(Instruction::SkipIfRegistersNotEqual) => self.op_9xy0(),
            Some(Instruction::LoadIndex) => self.op_annn(),
            Some(Instruction::JumpOffset) => self.op_bnnn(),
            Some(Instruction::Random) => self.op_cxkk(random),
            Some(Instruction::Draw) => self.op_dxyn(),
            Some(Instruction::SkipIfKey) => self.op_ex9e(),
            Some(Instruction::SkipIfNotKey) => self.op_exa1(),
            Some(Instruction::ReadDelay) => self.op_fx07(),
            Some(Instruction::WaitKey) => self.op_fx0a(),
            Some(Instruction::SetDelay) => self.op_fx15(),
            Some(Instruction::SetSound) => self.op_fx18(),
            Some(Instruction::AddIndex) => self.op_fx1e(),
            Some(Instruction::Glyph) => self.op_fx29(),
            Some(Instruction::StoreDecimal) => self.op_fx33(),
            Some(Instruction::StoreRegisters) => self.op_fx55(),
            Some(Instruction::LoadRegisters) => self.op_fx65(),
            None => self,
        }
    }

    /// Each timer that is not zero goes down by one.
    pub open spec fn tick(self) -> State {
        State {
            delay_timer: if self.delay_timer > 0 {
                (self.delay_timer - 1) as u8
            } else {
                0
            },
            sound_timer: if self.sound_timer > 0 {
                (self.sound_timer - 1) as u8
            } else {
                0
            },
            ..self
        }
    }

    /// One cycle: fetch, execute, tick.
    pub open spec fn step(self, random: u8) -> State {
        self.fetch().execute(random).tick()
    }
}

} // verus!
