use vstd::prelude::*;
use crate::display::{collides, draw, lemma_cell_under, lemma_cell_under_unique, sprite_bit};
use crate::machine::Chip8;
use crate::model::MachineState;

verus! {

impl Chip8 {
    /// Draws the sprite of `rows` rows that the index register points at
    /// with its top left corner at `(Vx mod 64, Vy mod 32)`, and reports
    /// whether a lit cell went dark.
    pub(super) fn draw_sprite(&mut self, x: u8, y: u8, rows: u8) -> (collision: bool)
        requires
            x < 16,
            y < 16,
            rows < 16,
            rows > 0 ==> old(self).index + rows <= 4096,
        ensures
            final(self)@ == (MachineState {
                display: draw(old(self)@.display, old(self)@.sprite(x, y, rows)),
                ..old(self)@
            }),
            collision == collides(old(self)@.display, old(self)@.sprite(x, y, rows)),
    {
        proof {
            use_type_invariant(&*self);
        }
        let x0: u8 = self.v(x) % 64;
        let y0: u8 = self.v(y) % 32;
        let ghost before = self.video@;
        let ghost sprite = self@.sprite(x, y, rows);
        let mut collision = false;
        let mut row: u8 = 0;
        while row < rows
            invariant
                row <= rows < 16,
                self.inv(),
                rows > 0 ==> self.index + rows <= 4096,
                before.len() == 2048,
                sprite == self@.sprite(x, y, rows),
                sprite.x == x0 < 64,
                sprite.y == y0 < 32,
                forall|cell: int|
                    0 <= cell < 2048 ==> self.video@[cell] == (before[cell]
                        != #[trigger] sprite.hits_before(cell, row as int, 0)),
                collision ==> exists|cell: int|
                    0 <= cell < 2048 && before[cell] && #[trigger] sprite.hits_before(
                        cell,
                        row as int,
                        0,
                    ),
                !collision ==> forall|cell: int|
                    0 <= cell < 2048 && before[cell] ==> !#[trigger] sprite.hits_before(
                        cell,
                        row as int,
                        0,
                    ),
                self.same_but_display(*old(self)),
            decreases rows - row,
        {
            let bits: u8 = self.memory[self.index as usize + row as usize];
            let cy: usize = ((y0 + row) % 32) as usize;
            let mut col: u8 = 0;
            while col < 8
                invariant
                    col <= 8,
                    row < rows < 16,
                    self.inv(),
                    before.len() == 2048,
                    sprite.rows.len() == rows,
                    sprite.x == x0 < 64,
                    sprite.y == y0 < 32,
                    cy == (y0 + row) % 32,
                    bits == sprite.rows[row as int],
                    forall|cell: int|
                        0 <= cell < 2048 ==> self.video@[cell] == (before[cell]
                            != #[trigger] sprite.hits_before(cell, row as int, col as int)),
                    collision ==> exists|cell: int|
                        0 <= cell < 2048 && before[cell] && #[trigger] sprite.hits_before(
                            cell,
                            row as int,
                            col as int,
                        ),
                    !collision ==> forall|cell: int|
                        0 <= cell < 2048 && before[cell] ==> !#[trigger] sprite.hits_before(
                            cell,
                            row as int,
                            col as int,
                        ),
                    self.same_but_display(*old(self)),
                decreases 8 - col,
            {
                let cx: usize = ((x0 + col) % 64) as usize;
                let cell: usize = cy * 64 + cx;
                let ghost was_colliding = collision;
                proof {
                    lemma_cell_under(sprite, row as int, col as int);
                }
                let set: bool = bits & (0x80u8 >> col) != 0;
                if set {
                    if self.video[cell] {
                        collision = true;
                    }
                    self.video[cell] = !self.video[cell];
                }
                proof {
                    assert(sprite.hits(cell as int) == set);
                    assert(!sprite.hits_before(cell as int, row as int, col as int));
                    assert(sprite.hits_before(cell as int, row as int, col + 1) == set);
                    assert forall|other: int| 0 <= other < 2048 && other != cell implies (
                    #[trigger] sprite.hits_before(other, row as int, col + 1))
                        == sprite.hits_before(other, row as int, col as int) by {
                        lemma_cell_under_unique(sprite, other);
                    }
                    if was_colliding {
                        let witness = choose|c: int|
                            0 <= c < 2048 && before[c] && #[trigger] sprite.hits_before(
                                c,
                                row as int,
                                col as int,
                            );
                        assert(sprite.hits_before(witness, row as int, col + 1));
                    }
                }
                col += 1;
            }
            proof {
                assert forall|c: int| 0 <= c < 2048 implies sprite.hits_before(c, row as int, 8)
                    == #[trigger] sprite.hits_before(c, row + 1, 0) by {}
                if collision {
                    let witness = choose|c: int|
                        0 <= c < 2048 && before[c] && #[trigger] sprite.hits_before(
                            c,
                            row as int,
                            8,
                        );
                    assert(sprite.hits_before(witness, row + 1, 0));
                }
            }
            row += 1;
        }
        proof {
            assert forall|c: int| 0 <= c < 2048 implies sprite.hits_before(c, rows as int, 0)
                == #[trigger] sprite.hits(c) by {}
            assert(self.video@ =~= draw(before, sprite));
        }
        collision
    }
}

} // verus!
