//! From the framebuffer to what a window shows: one filled square for each
//! pixel that is on.

use vstd::prelude::*;

verus! {

/// A filled rectangle on the window, in window coordinates: its top left
/// corner and its size.
#[derive(Clone, Copy, Debug, PartialEq, Eq)]
pub struct Block {
    pub x: i32,
    pub y: i32,
    pub width: u32,
    pub height: u32,
}

/// The square that shows cell `cell` of the framebuffer when every pixel is
/// `scale` window units wide and high.
pub open spec fn block_at(cell: int, scale: u16) -> Block {
    Block {
        x: ((cell % 64) * scale) as i32,
        y: ((cell / 64) * scale) as i32,
        width: scale as u32,
        height: scale as u32,
    }
}

/// Whether a cell of `display` is on.
pub open spec fn is_lit(display: Seq<u32>) -> spec_fn(int) -> bool {
    |cell: int| display[cell] != 0
}

/// The cells of `display` below `bound` that are on, in rising order.
pub open spec fn lit_cells(display: Seq<u32>, bound: int) -> Seq<int> {
    Seq::new(bound as nat, |cell: int| cell).filter(is_lit(display))
}

/// The squares that show the cells of `display` below `bound` that are on.
pub open spec fn blocks_of(display: Seq<u32>, bound: int, scale: u16) -> Seq<Block> {
    lit_cells(display, bound).map_values(|cell: int| block_at(cell, scale))
}

/// Below cell 0 there is nothing to show, and one more cell adds its square
/// if it is on, and nothing if it is off.
proof fn lemma_blocks_cell_by_cell(display: Seq<u32>, bound: int, scale: u16)
    requires
        0 <= bound,
    ensures
        blocks_of(display, 0, scale) == Seq::<Block>::empty(),
        blocks_of(display, bound + 1, scale) == if display[bound] != 0 {
            blocks_of(display, bound, scale).push(block_at(bound, scale))
        } else {
            blocks_of(display, bound, scale)
        },
{
    let cells = Seq::new(bound as nat, |cell: int| cell);
    assert(Seq::new((bound + 1) as nat, |cell: int| cell) == cells.push(bound));
    cells.lemma_filter_push(bound, is_lit(display));
}

/// The squares to fill so that the window shows `display`: one for each
/// cell that is on, row by row.
pub fn lit_blocks(display: &[u32; 2048], scale: u16) -> (blocks: Vec<Block>)
    ensures
        blocks@ == blocks_of(display@, 2048, scale),
{
    let mut blocks: Vec<Block> = Vec::new();
    let mut cell: usize = 0;
    proof {
        lemma_blocks_cell_by_cell(display@, 0, scale);
    }
    while cell < 2048
        invariant
            cell <= 2048,
            blocks@ == blocks_of(display@, cell as int, scale),
        decreases 2048 - cell,
    {
        proof {
            lemma_blocks_cell_by_cell(display@, cell as int, scale);
        }
        if display[cell] != 0 {
            let column = (cell % 64) as u32;
            let row = (cell / 64) as u32;
            let side = scale as u32;
            assert(column * side <= 63 * 65535 && row * side <= 31 * 65535) by (nonlinear_arith)
                requires
                    column <= 63,
                    row <= 31,
                    side <= 65535,
            ;
            blocks.push(
                Block {
                    x: (column * side) as i32,
                    y: (row * side) as i32,
                    width: side,
                    height: side,
                },
            );
        }
        cell += 1;
    }
    blocks
}

} // verus!
