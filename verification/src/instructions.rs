//! The instructions, one method of the machine each, named by the pattern of
//! the instruction word. Each reads its operands from the current word.

use vstd::prelude::*;
use crate::cpu::Chip8;
use crate::font::{FONT_START, GLYPH_SIZE};
use crate::model::{FLAG, State, cell_of, lemma_lowest_pressed, lowest_pressed};
use crate::opcode::{kk_of, nnn_of, x_of, y_of};
use crate::random::random_byte;

verus! {

impl Chip8 {
    /// `00E0`: clears the framebuffer.
    pub fn op_00e0(&mut self)
        ensures
            final(self)@ == old(self)@.op_00e0(),
    {
        self.video = [0; 2048];
    }

    /// `00EE`: returns from a call.
    pub fn op_00ee(&mut self)
        ensures
            final(self)@ == old(self)@.op_00ee(),
    {
        self.sp = self.sp.wrapping_sub(1);
        self.pc = self.stack[(self.sp % 16) as usize];
    }

    /// `1nnn`: jumps to `nnn`.
    pub fn op_1nnn(&mut self)
        ensures
            final(self)@ == old(self)@.op_1nnn(),
    {
        self.pc = nnn_of(self.opcode);
    }

    /// `2nnn`: calls the routine at `nnn`.
    pub fn op_2nnn(&mut self)
        ensures
            final(self)@ == old(self)@.op_2nnn(),
    {
        self.stack[(self.sp % 16) as usize] = self.pc;
        self.sp = self.sp.wrapping_add(1);
        self.pc = nnn_of(self.opcode);
    }

    /// `3xkk`: skips the next instruction if `Vx == kk`.
    pub fn op_3xkk(&mut self)
        ensures
            final(self)@ == old(self)@.op_3xkk(),
    {
        if self.registers[x_of(self.opcode)] == kk_of(self.opcode) {
            self.pc = self.pc.wrapping_add(2);
        }
    }

    /// `4xkk`: skips the next instruction if `Vx != kk`.
    pub fn op_4xkk(&mut self)
        ensures
            final(self)@ == old(self)@.op_4xkk(),
    {
        if self.registers[x_of(self.opcode)] != kk_of(self.opcode) {
            self.pc = self.pc.wrapping_add(2);
        }
    }

    /// `5xy0`: skips the next instruction if `Vx == Vy`.
    pub fn op_5xy0(&mut self)
        ensures
            final(self)@ == old(self)@.op_5xy0(),
    {
        if self.registers[x_of(self.opcode)] == self.registers[y_of(self.opcode)] {
            self.pc = self.pc.wrapping_add(2);
        }
    }

    /// `6xkk`: `Vx = kk`.
    pub fn op_6xkk(&mut self)
        ensures
            final(self)@ == old(self)@.op_6xkk(),
    {
        self.registers[x_of(self.opcode)] = kk_of(self.opcode);
    }

    /// `7xkk`: `Vx = Vx + kk`, modulo 256. The flag is not touched.
    pub fn op_7xkk(&mut self)
        ensures
            final(self)@ == old(self)@.op_7xkk(),
    {
        let x = x_of(self.opcode);
        self.registers[x] = self.registers[x].wrapping_add(kk_of(self.opcode));
    }

    /// `8xy0`: `Vx = Vy`.
    pub fn op_8xy0(&mut self)
        ensures
            final(self)@ == old(self)@.op_8xy0(),
    {
        self.registers[x_of(self.opcode)] = self.registers[y_of(self.opcode)];
    }

    /// `8xy1`: `Vx = Vx | Vy`.
    pub fn op_8xy1(&mut self)
        ensures
            final(self)@ == old(self)@.op_8xy1(),
    {
        let x = x_of(self.opcode);
        self.registers[x] = self.registers[x] | self.registers[y_of(self.opcode)];
    }

    /// `8xy2`: `Vx = Vx & Vy`.
    pub fn op_8xy2(&mut self)
        ensures
            final(self)@ == old(self)@.op_8xy2(),
    {
        let x = x_of(self.opcode);
        self.registers[x] = self.registers[x] & self.registers[y_of(self.opcode)];
    }

    /// `8xy3`: `Vx = Vx ^ Vy`.
    pub fn op_8xy3(&mut self)
        ensures
            final(self)@ == old(self)@.op_8xy3(),
    {
        let x = x_of(self.opcode);
        self.registers[x] = self.registers[x] ^ self.registers[y_of(self.opcode)];
    }

    /// `8xy4`: `Vx = Vx + Vy`, modulo 256; the flag is the carry.
    ///
    /// The flag is written first: where `x` is 15, `Vx` ends as the sum.
    pub fn op_8xy4(&mut self)
        ensures
            final(self)@ == old(self)@.op_8xy4(),
    {
        let x = x_of(self.opcode);
        let sum: u16 = self.registers[x] as u16 + self.registers[y_of(self.opcode)] as u16;
        self.registers[FLAG] = if sum > 255 {
            1
        } else {
            0
        };
        assert(sum & 0xFF == sum % 256) by (bit_vector);
        self.registers[x] = (sum & 0xFF) as u8;
    }

    /// `8xy5`: `Vx = Vx - Vy`, modulo 256; the flag is 1 if `Vx > Vy`.
    ///
    /// The flag is written first, and the difference is taken of the
    /// registers as they are then.
    pub fn op_8xy5(&mut self)
        ensures
            final(self)@ == old(self)@.op_8xy5(),
    {
        let x = x_of(self.opcode);
        let y = y_of(self.opcode);
        self.registers[FLAG] = if self.registers[x] > self.registers[y] {
            1
        } else {
            0
        };
        self.registers[x] = self.registers[x].wrapping_sub(self.registers[y]);
    }

    /// `8xy6`: `Vx` is shifted right by one bit; the flag is the bit that
    /// falls out.
    ///
    /// The flag is written first, and the shift is made on `Vx` as it is then.
    pub fn op_8xy6(&mut self)
        ensures
            final(self)@ == old(self)@.op_8xy6(),
    {
        let x = x_of(self.opcode);
        let value = self.registers[x];
        assert(value & 1u8 == value % 2) by (bit_vector);
        self.registers[FLAG] = value & 1u8;
        let value = self.registers[x];
        assert(value >> 1u8 == value / 2) by (bit_vector);
        self.registers[x] = value >> 1u8;
    }

    /// `8xy7`: `Vx = Vy - Vx`, modulo 256; the flag is 1 if `Vy > Vx`.
    ///
    /// The flag is written first, and the difference is taken of the
    /// registers as they are then.
    pub fn op_8xy7(&mut self)
        ensures
            final(self)@ == old(self)@.op_8xy7(),
    {
        let x = x_of(self.opcode);
        let y = y_of(self.opcode);
        self.registers[FLAG] = if self.registers[x] < self.registers[y] {
            1
        } else {
            0
        };
        self.registers[x] = self.registers[y].wrapping_sub(self.registers[x]);
    }

    /// `8xyE`: `Vx` is shifted left by one bit; the flag is the bit that
    /// falls out.
    ///
    /// The flag is written first, and the shift is made on `Vx` as it is then.
    pub fn op_8xye(&mut self)
        ensures
            final(self)@ == old(self)@.op_8xye(),
    {
        let x = x_of(self.opcode);
        let value = self.registers[x];
        assert((value & 0x80u8) >> 7u8 == value / 128) by (bit_vector);
        self.registers[FLAG] = (value & 0x80u8) >> 7u8;
        let value = self.registers[x];
        assert(value << 1u8 == (value + value) % 256) by (bit_vector);
        self.registers[x] = value << 1u8;
    }

    /// `9xy0`: skips the next instruction if `Vx != Vy`.
    pub fn op_9xy0(&mut self)
        ensures
            final(self)@ == old(self)@.op_9xy0(),
    {
        if self.registers[x_of(self.opcode)] != self.registers[y_of(self.opcode)] {
            self.pc = self.pc.wrapping_add(2);
        }
    }

    /// `Annn`: `index = nnn`.
    pub fn op_annn(&mut self)
        ensures
            final(self)@ == old(self)@.op_annn(),
    {
        self.index = nnn_of(self.opcode);
    }

    /// `Bnnn`: jumps to `nnn + V0`.
    pub fn op_bnnn(&mut self)
        ensures
            final(self)@ == old(self)@.op_bnnn(),
    {
        self.pc = nnn_of(self.opcode) + self.registers[0] as u16;
    }

    /// `Cxkk`: `Vx = random & kk`, for a byte `random` that is drawn at
    /// random.
    pub fn op_cxkk(&mut self)
        ensures
            exists|random: u8| final(self)@ == old(self)@.op_cxkk(random),
    {
        let random = random_byte();
        self.op_cxkk_with(random);
    }

    /// `Cxkk` with the random byte given: `Vx = random & kk`.
    pub fn op_cxkk_with(&mut self, random: u8)
        ensures
            final(self)@ == old(self)@.op_cxkk(random),
    {
        self.registers[x_of(self.opcode)] = random & kk_of(self.opcode);
    }

    /// `Ex9E`: skips the next instruction if key `Vx` is held down.
    pub fn op_ex9e(&mut self)
        ensures
            final(self)@ == old(self)@.op_ex9e(),
    {
        let key = self.registers[x_of(self.opcode)] as usize;
        if key < 16 && self.keypad[key] {
            self.pc = self.pc.wrapping_add(2);
        }
    }

    /// `ExA1`: skips the next instruction if key `Vx` is not held down.
    pub fn op_exa1(&mut self)
        ensures
            final(self)@ == old(self)@.op_exa1(),
    {
        let key = self.registers[x_of(self.opcode)] as usize;
        if !(key < 16 && self.keypad[key]) {
            self.pc = self.pc.wrapping_add(2);
        }
    }

    /// `Fx07`: `Vx = delay_timer`.
    pub fn op_fx07(&mut self)
        ensures
            final(self)@ == old(self)@.op_fx07(),
    {
        self.registers[x_of(self.opcode)] = self.delay_timer;
    }

    /// The lowest key that is held down, if any is.
    pub fn lowest_pressed_key(&self) -> (key: Option<u8>)
        ensures
            lowest_pressed(self@.keypad) == match key {
                Some(k) => Some(k as int),
                None => None,
            },
    {
        let mut key: u8 = 0;
        while key < 16 && !self.keypad[key as usize]
            invariant
                key <= 16,
                forall|lower: int| 0 <= lower < key ==> !self.keypad@[lower],
            decreases 16 - key,
        {
            key += 1;
        }
        if key < 16 {
            proof {
                lemma_lowest_pressed(self@.keypad, key as int);
            }
            Some(key)
        } else {
            None
        }
    }

    /// `Fx0A`: waits for a key. If a key is held down, `Vx` becomes the
    /// lowest such key; if none is, the program counter goes back by 2, so
    /// that the next cycle runs this instruction again.
    pub fn op_fx0a(&mut self)
        ensures
            final(self)@ == old(self)@.op_fx0a(),
    {
        match self.lowest_pressed_key() {
            Some(key) => {
                self.registers[x_of(self.opcode)] = key;
            },
            None => {
                self.pc = self.pc.wrapping_sub(2);
            },
        }
    }

    /// `Fx15`: `delay_timer = Vx`.
    pub fn op_fx15(&mut self)
        ensures
            final(self)@ == old(self)@.op_fx15(),
    {
        self.delay_timer = self.registers[x_of(self.opcode)];
    }

    /// `Fx18`: `sound_timer = Vx`.
    pub fn op_fx18(&mut self)
        ensures
            final(self)@ == old(self)@.op_fx18(),
    {
        self.sound_timer = self.registers[x_of(self.opcode)];
    }

    /// `Fx1E`: `index = index + Vx`, modulo 65536.
    pub fn op_fx1e(&mut self)
        ensures
            final(self)@ == old(self)@.op_fx1e(),
    {
        self.index = self.index.wrapping_add(self.registers[x_of(self.opcode)] as u16);
    }

    /// `Fx29`: `index` becomes the address of the glyph for digit `Vx`.
    pub fn op_fx29(&mut self)
        ensures
            final(self)@ == old(self)@.op_fx29(),
    {
        let digit = self.registers[x_of(self.opcode)] as u16;
        assert(GLYPH_SIZE * digit == 5 * digit) by (nonlinear_arith)
            requires
                GLYPH_SIZE == 5,
        ;
        self.index = FONT_START as u16 + GLYPH_SIZE as u16 * digit;
    }

    /// `Fx33`: stores the three decimal digits of `Vx` at `index`,
    /// `index + 1` and `index + 2`, the hundreds first.
    pub fn op_fx33(&mut self)
        ensures
            final(self)@ == old(self)@.op_fx33(),
    {
        let value = self.registers[x_of(self.opcode)];
        let base = self.index as usize;
        self.memory[base % 4096] = value / 100;
        self.memory[(base + 1) % 4096] = (value / 10) % 10;
        self.memory[(base + 2) % 4096] = value % 10;
    }

    /// `Fx55`: stores `V0` to `Vx` in memory, from `index` on. The index
    /// register keeps its value.
    pub fn op_fx55(&mut self)
        ensures
            final(self)@ == old(self)@.op_fx55(),
    {
        let ghost before = self@;
        let x = x_of(self.opcode);
        let base = self.index as usize;
        let mut number: usize = 0;
        while number <= x
            invariant
                before == old(self)@,
                x == x_of(before.opcode),
                base == before.index,
                number <= x + 1,
                self@ == (State { memory: self.memory@, ..before }),
                self.memory@ == Seq::new(
                    4096,
                    |address: int|
                        {
                            let offset = cell_of(address - before.index);
                            if offset < number {
                                before.registers[offset]
                            } else {
                                before.memory[address]
                            }
                        },
                ),
            decreases x + 1 - number,
        {
            self.memory[(base + number) % 4096] = self.registers[number];
            number += 1;
        }
    }

    /// `Fx65`: loads `V0` to `Vx` from memory, from `index` on. The index
    /// register keeps its value.
    pub fn op_fx65(&mut self)
        ensures
            final(self)@ == old(self)@.op_fx65(),
    {
        let ghost before = self@;
        let x = x_of(self.opcode);
        let base = self.index as usize;
        let mut number: usize = 0;
        while number <= x
            invariant
                before == old(self)@,
                x == x_of(before.opcode),
                base == before.index,
                number <= x + 1,
                self@ == (State { registers: self.registers@, ..before }),
                self.registers@ == Seq::new(
                    16,
                    |n: int|
                        if n < number {
                            before.memory[cell_of(before.index + n)]
                        } else {
                            before.registers[n]
                        },
                ),
            decreases x + 1 - number,
        {
            self.registers[number] = self.memory[(base + number) % 4096];
            number += 1;
        }
    }
}

} // verus!
