use vstd::prelude::*;

verus! {

/// Width of the display in cells.
pub const DISPLAY_WIDTH: usize = 64;

/// Height of the display in cells.
pub const DISPLAY_HEIGHT: usize = 32;

/// Number of cells of the display, stored row by row.
pub const DISPLAY_SIZE: usize = 2048;

/// Whether column `col` of a sprite row is set. Column 0 is the leftmost
/// one and is held in the most significant bit.
pub open spec fn sprite_bit(bits: u8, col: u8) -> bool {
    bits & (0x80u8 >> col) != 0
}

/// A sprite at its place on the display.
pub struct Sprite {
    /// The rows from top to bottom, eight columns each.
    pub rows: Seq<u8>,
    /// The display column of the leftmost sprite column.
    pub x: int,
    /// The display row of the topmost sprite row.
    pub y: int,
}

impl Sprite {
    /// The corner lies on the display.
    pub open spec fn wf(self) -> bool {
        0 <= self.x < 64 && 0 <= self.y < 32
    }

    /// The sprite row that covers the display row of `cell`. Rows that run
    /// off the bottom come back in at the top.
    pub open spec fn row_over(self, cell: int) -> int {
        (cell / 64 - self.y) % 32
    }

    /// The sprite column that covers the display column of `cell`. Columns
    /// that run off the right edge come back in at the left.
    pub open spec fn col_over(self, cell: int) -> int {
        (cell % 64 - self.x) % 64
    }

    /// Whether the sprite has a set bit on the cell with index `cell`.
    pub open spec fn hits(self, cell: int) -> bool {
        &&& self.row_over(cell) < self.rows.len()
        &&& self.col_over(cell) < 8
        &&& sprite_bit(self.rows[self.row_over(cell)], self.col_over(cell) as u8)
    }

    /// Whether the sprite has a set bit on the cell and that bit comes
    /// before column `col` of row `row` when the sprite is scanned row by
    /// row.
    pub open spec fn hits_before(self, cell: int, row: int, col: int) -> bool {
        self.hits(cell) && (self.row_over(cell) < row || (self.row_over(cell) == row
            && self.col_over(cell) < col))
    }

    /// The index of the cell that column `col` of row `row` falls on.
    pub open spec fn cell_under(self, row: int, col: int) -> int {
        ((self.y + row) % 32) * 64 + (self.x + col) % 64
    }
}

/// The display after a sprite was drawn onto it: every cell under a set
/// bit of the sprite is toggled, every other cell is kept.
pub open spec fn draw(display: Seq<bool>, sprite: Sprite) -> Seq<bool> {
    Seq::new(display.len(), |cell: int| display[cell] != sprite.hits(cell))
}

/// Whether drawing the sprite turns off a cell that was lit.
pub open spec fn collides(display: Seq<bool>, sprite: Sprite) -> bool {
    exists|cell: int| 0 <= cell < display.len() && display[cell] && #[trigger] sprite.hits(cell)
}

/// Whether drawing the sprite turns on a cell that was unlit.
pub open spec fn lights(display: Seq<bool>, sprite: Sprite) -> bool {
    exists|cell: int| 0 <= cell < display.len() && !display[cell] && #[trigger] sprite.hits(cell)
}

/// The display with every cell unlit.
pub open spec fn blank() -> Seq<bool> {
    Seq::new(2048, |cell: int| false)
}

/// Number of bytes of one row of the picture: four for each cell.
pub const PITCH: usize = 256;

/// Number of bytes of the picture.
pub const PICTURE_SIZE: usize = 8192;

/// The picture of a display: four bytes for each cell, all of them 255
/// where the cell is lit and 0 where it is not.
pub open spec fn picture_of(display: Seq<bool>) -> Seq<u8> {
    Seq::new(
        4 * display.len(),
        |i: int|
            if display[i / 4] {
                255u8
            } else {
                0u8
            },
    )
}

/// Paints the picture of a display.
pub fn picture(display: &[bool; 2048]) -> (pixels: [u8; 8192])
    ensures
        pixels@ == picture_of(display@),
{
    let mut pixels: [u8; 8192] = [0u8;8192];
    let mut cell: usize = 0;
    while cell < 2048
        invariant
            cell <= 2048,
            forall|i: int| 0 <= i < 4 * cell ==> pixels@[i] == picture_of(display@)[i],
        decreases 2048 - cell,
    {
        let color: u8 = if display[cell] {
            255
        } else {
            0
        };
        let first: usize = cell * 4;
        pixels[first] = color;
        pixels[first + 1] = color;
        pixels[first + 2] = color;
        pixels[first + 3] = color;
        cell += 1;
    }
    assert(pixels@ =~= picture_of(display@));
    pixels
}

/// The width and the height of the window in which every cell is a square
/// of `scale` pixels. There is none where a side does not fit in 32 bits.
pub open spec fn window_size_of(scale: u32) -> Option<(u32, u32)> {
    if 64 * scale <= u32::MAX {
        Some(((64 * scale) as u32, (32 * scale) as u32))
    } else {
        None
    }
}

/// Computes the size of the window for a scale factor.
pub fn window_size(scale: u32) -> (size: Option<(u32, u32)>)
    ensures
        size == window_size_of(scale),
{
    match scale.checked_mul(64) {
        Some(width) => Some((width, scale * 32)),
        None => None,
    }
}

/// Drawing a sprite a second time at the same place erases it: the display
/// is as it was before the first draw, and the second draw reports a
/// collision exactly if the first one lit a cell.
pub proof fn lemma_draw_twice(display: Seq<bool>, sprite: Sprite)
    ensures
        draw(draw(display, sprite), sprite) == display,
        collides(draw(display, sprite), sprite) == lights(display, sprite),
{
    let once = draw(display, sprite);
    assert(draw(once, sprite) =~= display);
    if lights(display, sprite) {
        let cell = choose|cell: int|
            0 <= cell < display.len() && !display[cell] && #[trigger] sprite.hits(cell);
        assert(once[cell] && sprite.hits(cell));
    }
    if collides(once, sprite) {
        let cell = choose|cell: int|
            0 <= cell < once.len() && once[cell] && #[trigger] sprite.hits(cell);
        assert(!display[cell] && sprite.hits(cell));
    }
}

/// The cell under a bit of a sprite lies on the display, and it is that
/// bit of the sprite that covers it.
pub proof fn lemma_cell_under(sprite: Sprite, row: int, col: int)
    requires
        sprite.wf(),
        0 <= row < 32,
        0 <= col < 64,
    ensures
        0 <= sprite.cell_under(row, col) < 2048,
        sprite.row_over(sprite.cell_under(row, col)) == row,
        sprite.col_over(sprite.cell_under(row, col)) == col,
{
    let cy = (sprite.y + row) % 32;
    let cx = (sprite.x + col) % 64;
    assert(cy == if sprite.y + row < 32 {
        sprite.y + row
    } else {
        sprite.y + row - 32
    });
    assert(cx == if sprite.x + col < 64 {
        sprite.x + col
    } else {
        sprite.x + col - 64
    });
    assert((cy * 64 + cx) / 64 == cy && (cy * 64 + cx) % 64 == cx);
}

/// A cell lies under the bit of the sprite that covers it, and under no
/// other.
pub proof fn lemma_cell_under_unique(sprite: Sprite, cell: int)
    requires
        sprite.wf(),
        0 <= cell < 2048,
    ensures
        cell == sprite.cell_under(sprite.row_over(cell), sprite.col_over(cell)),
{
    let cy = cell / 64;
    let cx = cell % 64;
    let row = (cy - sprite.y) % 32;
    let col = (cx - sprite.x) % 64;
    assert(row == if cy >= sprite.y {
        cy - sprite.y
    } else {
        cy - sprite.y + 32
    });
    assert(col == if cx >= sprite.x {
        cx - sprite.x
    } else {
        cx - sprite.x + 64
    });
    assert((sprite.y + row) % 32 == cy && (sprite.x + col) % 64 == cx);
}

} // verus!
