//! The drawing instruction.

use vstd::prelude::*;
use crate::cpu::Chip8;
use crate::model::{FLAG, PIXEL_ON, State, toggled};
use crate::opcode::{n_of, x_of, y_of};

verus! {

/// Whether the sprite of `state` covers `cell` in a place that comes before
/// pixel `column` of sprite row `row`, going through the sprite row by row.
spec fn struck(state: State, cell: int, row: int, column: int) -> bool {
    let r = cell / 64 - state.sprite_top();
    let c = cell % 64 - state.sprite_left();
    state.sprite_covers(cell) && (r < row || (r == row && c < column))
}

/// The framebuffer when the sprite has been drawn up to pixel `column` of
/// sprite row `row`.
spec fn video_up_to(state: State, row: int, column: int) -> Seq<u32> {
    Seq::new(
        2048,
        |cell: int|
            if struck(state, cell, row, column) {
                toggled(state.video[cell])
            } else {
                state.video[cell]
            },
    )
}

/// Whether drawing the sprite up to pixel `column` of sprite row `row`
/// switches a pixel off.
spec fn collision_up_to(state: State, row: int, column: int) -> bool {
    exists|cell: int| struck(state, cell, row, column) && state.video[cell] != 0
}

impl Chip8 {
    /// `Dxyn`: draws the sprite of `n` rows that memory holds at `index`, its
    /// top left corner at column `Vx % 64` of row `Vy % 32`.
    ///
    /// Every set pixel of the sprite toggles the cell under it. What would lie
    /// right of the last column or below the last row is not drawn. The flag
    /// becomes 1 if a pixel was switched off, and 0 otherwise.
    pub fn op_dxyn(&mut self)
        ensures
            final(self)@ == old(self)@.op_dxyn(),
    {
        let ghost before = self@;
        let height = n_of(self.opcode);
        let left: usize = (self.registers[x_of(self.opcode)] % 64) as usize;
        let top: usize = (self.registers[y_of(self.opcode)] % 32) as usize;
        self.registers[FLAG] = 0;
        let mut row: usize = 0;
        while row < height && top + row < 32
            invariant
                before == old(self)@,
                height == n_of(before.opcode),
                left == before.sprite_left(),
                top == before.sprite_top(),
                row <= height,
                self.memory@ == before.memory,
                self.index == before.index,
                self@ == (State { video: self.video@, registers: self.registers@, ..before }),
                self.video@ == video_up_to(before, row as int, 0),
                self.registers@ == before.registers.update(
                    FLAG as int,
                    if collision_up_to(before, row as int, 0) {
                        1u8
                    } else {
                        0u8
                    },
                ),
            decreases height - row,
        {
            let sprite = self.memory[(self.index as usize + row) % 4096];
            let mut column: usize = 0;
            while column < 8 && left + column < 64
                invariant
                    before == old(self)@,
                    height == n_of(before.opcode),
                    left == before.sprite_left(),
                    top == before.sprite_top(),
                    row < height,
                    top + row < 32,
                    column <= 8,
                    sprite == before.sprite_row(row as int),
                    self.memory@ == before.memory,
                    self.index == before.index,
                    self@ == (State { video: self.video@, registers: self.registers@, ..before }),
                    self.video@ == video_up_to(before, row as int, column as int),
                    self.registers@ == before.registers.update(
                        FLAG as int,
                        if collision_up_to(before, row as int, column as int) {
                            1u8
                        } else {
                            0u8
                        },
                    ),
                decreases 8 - column,
            {
                let shift: u8 = (7 - column) as u8;
                let cell: usize = (top + row) * 64 + left + column;
                if (sprite >> shift) & 1 == 1 {
                    if self.video[cell] != 0 {
                        self.registers[FLAG] = 1;
                        self.video[cell] = 0;
                    } else {
                        self.video[cell] = PIXEL_ON;
                    }
                }
                column += 1;
            }
            row += 1;
        }
    }
}

} // verus!
