//! Sprite compositing: sprites are drawn on the display buffer by XOR, wrap round its
//! edges, and report whether they turned off a lit pixel.

use crate::bit::Bit;
use crate::screen::{grid_wf, Screen, HEIGHT, WIDTH};
use vstd::prelude::*;

verus! {

/// Whether a sprite row shows a lit pixel in its column `offset`, counted from the left:
/// offset 0 is the most significant bit of `byte`.
pub open spec fn sprite_bit(byte: u8, offset: int) -> bool {
    0 <= offset < 8 && byte.bit_is_set(7 - offset)
}

/// How far column `col` lies to the right of column `x`, going round the right edge
/// back to column 0.
pub open spec fn column_offset(x: int, col: int) -> int {
    (col - x) % (WIDTH as int)
}

/// How far row `row` lies below row `y`, going round the bottom edge back to row 0.
pub open spec fn row_offset(y: int, row: int) -> int {
    (row - y) % (HEIGHT as int)
}

/// The grid after one sprite row `byte` was drawn on row `row`, its leftmost pixel in
/// column `x mod 64`: each of the eight pixels under the sprite row is flipped where the
/// sprite bit is set, and every other pixel stays.
pub open spec fn draw_row(grid: Seq<Seq<bool>>, x: int, row: int, byte: u8) -> Seq<Seq<bool>> {
    Seq::new(
        HEIGHT as nat,
        |r: int|
            Seq::new(
                WIDTH as nat,
                |c: int|
                    if r == row {
                        grid[r][c] ^ sprite_bit(byte, column_offset(x, c))
                    } else {
                        grid[r][c]
                    },
            ),
    )
}

/// Whether drawing the sprite row `byte` on row `row` from column `x mod 64` turns off a
/// pixel that was lit.
pub open spec fn row_collides(grid: Seq<Seq<bool>>, x: int, row: int, byte: u8) -> bool {
    exists|offset: int|
        0 <= offset < 8 && #[trigger] sprite_bit(byte, offset) && grid[row][(x + offset) % (
        WIDTH as int)]
}

/// The grid after the rows of `sprite` were drawn one below the other, the first on row
/// `y mod 32`, together with whether any of these rows turned off a lit pixel.
pub open spec fn draw_rows(grid: Seq<Seq<bool>>, x: int, y: int, sprite: Seq<u8>) -> (
    Seq<Seq<bool>>,
    bool,
)
    decreases sprite.len(),
{
    if sprite.len() == 0 {
        (grid, false)
    } else {
        let (above, collided) = draw_rows(grid, x, y, sprite.drop_last());
        let row = (y + sprite.len() - 1) % (HEIGHT as int);
        (
            draw_row(above, x, row, sprite.last()),
            collided || row_collides(above, x, row, sprite.last()),
        )
    }
}

/// Whether `sprite` shows a lit pixel in column `offset` of its row `line`, both counted
/// from its top left corner.
pub open spec fn sprite_pixel(sprite: Seq<u8>, line: int, offset: int) -> bool {
    0 <= line < sprite.len() && sprite_bit(sprite[line], offset)
}

/// Whether `sprite`, drawn at (`x`, `y`), shows a lit pixel over a lit pixel of `grid`.
pub open spec fn sprite_overlaps(grid: Seq<Seq<bool>>, x: int, y: int, sprite: Seq<u8>) -> bool {
    exists|line: int, offset: int|
        #[trigger] sprite_pixel(sprite, line, offset) && grid[(y + line) % (HEIGHT as int)][(x
            + offset) % (WIDTH as int)]
}

/// Column `col` lies `offset` columns to the right of column `x` exactly when it is
/// column `(x + offset) mod 64`.
pub proof fn lemma_column_offset(x: int, offset: int, col: int)
    requires
        0 <= offset < WIDTH,
        0 <= col < WIDTH,
    ensures
        0 <= column_offset(x, col) < WIDTH,
        column_offset(x, col) == offset <==> col == (x + offset) % (WIDTH as int),
{
}

/// Row `row` lies `line` rows below row `y` exactly when it is row `(y + line) mod 32`.
pub proof fn lemma_row_offset(y: int, line: int, row: int)
    requires
        0 <= line < HEIGHT,
        0 <= row < HEIGHT,
    ensures
        0 <= row_offset(y, row) < HEIGHT,
        row_offset(y, row) == line <==> row == (y + line) % (HEIGHT as int),
{
}

/// Drawing keeps the shape of the grid.
pub proof fn lemma_draw_rows_wf(grid: Seq<Seq<bool>>, x: int, y: int, sprite: Seq<u8>)
    requires
        grid_wf(grid),
    ensures
        grid_wf(draw_rows(grid, x, y, sprite).0),
    decreases sprite.len(),
{
    if sprite.len() > 0 {
        lemma_draw_rows_wf(grid, x, y, sprite.drop_last());
    }
}

/// A sprite of at most 32 rows reaches no pixel twice, so drawing it has a closed form.
/// The pixel in row `row` and column `col` is flipped exactly when the sprite shows a lit
/// pixel there, that is in its row `(row - y) mod 32` and column `(col - x) mod 64`: the
/// sprite wraps round both edges and nothing is clipped. A collision is reported exactly
/// when a lit sprite pixel falls on a pixel that was lit before.
pub proof fn lemma_draw_is_pixelwise_xor(grid: Seq<Seq<bool>>, x: int, y: int, sprite: Seq<u8>)
    requires
        grid_wf(grid),
        sprite.len() <= HEIGHT,
    ensures
        grid_wf(draw_rows(grid, x, y, sprite).0),
        forall|row: int, col: int|
            0 <= row < HEIGHT && 0 <= col < WIDTH ==> #[trigger] draw_rows(
                grid,
                x,
                y,
                sprite,
            ).0[row][col] == (grid[row][col] ^ sprite_pixel(
                sprite,
                row_offset(y, row),
                column_offset(x, col),
            )),
        draw_rows(grid, x, y, sprite).1 == sprite_overlaps(grid, x, y, sprite),
    decreases sprite.len(),
{
    lemma_draw_rows_wf(grid, x, y, sprite);
    if sprite.len() == 0 {
        assert(!sprite_overlaps(grid, x, y, sprite));
    } else {
        let upper = sprite.drop_last();
        let last = sprite.len() - 1;
        let byte = sprite.last();
        let row = (y + last) % (HEIGHT as int);
        let (above, collided) = draw_rows(grid, x, y, upper);
        lemma_draw_is_pixelwise_xor(grid, x, y, upper);
        lemma_row_offset(y, last, row);
        let drawn = draw_rows(grid, x, y, sprite).0;
        assert forall|r: int, c: int|
            0 <= r < HEIGHT && 0 <= c < WIDTH implies #[trigger] drawn[r][c] == (grid[r][c]
            ^ sprite_pixel(sprite, row_offset(y, r), column_offset(x, c))) by {
            assert(above[r][c] == (grid[r][c] ^ sprite_pixel(
                upper,
                row_offset(y, r),
                column_offset(x, c),
            )));
            lemma_row_offset(y, last, r);
            if r == row {
                assert(!sprite_pixel(upper, last, column_offset(x, c)));
            }
        }
        let hit = row_collides(above, x, row, byte);
        if sprite_overlaps(grid, x, y, sprite) {
            let (line, offset) = choose|line: int, offset: int|
                #[trigger] sprite_pixel(sprite, line, offset) && grid[(y + line) % (
                HEIGHT as int)][(x + offset) % (WIDTH as int)];
            if line == last {
                let col = (x + offset) % (WIDTH as int);
                assert(above[row][col] == (grid[row][col] ^ sprite_pixel(
                    upper,
                    row_offset(y, row),
                    column_offset(x, col),
                )));
                assert(sprite_bit(byte, offset) && above[row][col]);
                assert(hit);
            } else {
                assert(sprite_pixel(upper, line, offset));
                assert(sprite_overlaps(grid, x, y, upper));
            }
        }
        if collided {
            let (line, offset) = choose|line: int, offset: int|
                #[trigger] sprite_pixel(upper, line, offset) && grid[(y + line) % (
                HEIGHT as int)][(x + offset) % (WIDTH as int)];
            assert(sprite_pixel(sprite, line, offset));
        }
        if hit {
            let offset = choose|offset: int|
                0 <= offset < 8 && #[trigger] sprite_bit(byte, offset) && above[row][(x + offset)
                    % (WIDTH as int)];
            let col = (x + offset) % (WIDTH as int);
            assert(above[row][col] == (grid[row][col] ^ sprite_pixel(
                upper,
                row_offset(y, row),
                column_offset(x, col),
            )));
            assert(sprite_pixel(sprite, last, offset));
        }
    }
}

/// Whether `sprite`, drawn at (`x`, `y`), shows a lit pixel over a dark pixel of `grid`.
pub open spec fn sprite_lights(grid: Seq<Seq<bool>>, x: int, y: int, sprite: Seq<u8>) -> bool {
    exists|line: int, offset: int|
        #[trigger] sprite_pixel(sprite, line, offset) && !grid[(y + line) % (HEIGHT as int)][(x
            + offset) % (WIDTH as int)]
}

/// Drawing is its own inverse. A sprite of at most 32 rows that is drawn a second time at
/// the same place leaves the grid as it was before the first drawing, and the second
/// drawing reports a collision exactly when the first one lit a pixel.
pub proof fn lemma_draw_twice_restores(grid: Seq<Seq<bool>>, x: int, y: int, sprite: Seq<u8>)
    requires
        grid_wf(grid),
        sprite.len() <= HEIGHT,
    ensures
        draw_rows(draw_rows(grid, x, y, sprite).0, x, y, sprite).0 == grid,
        draw_rows(draw_rows(grid, x, y, sprite).0, x, y, sprite).1 == sprite_lights(
            grid,
            x,
            y,
            sprite,
        ),
{
    let once = draw_rows(grid, x, y, sprite).0;
    let twice = draw_rows(once, x, y, sprite).0;
    lemma_draw_is_pixelwise_xor(grid, x, y, sprite);
    lemma_draw_is_pixelwise_xor(once, x, y, sprite);
    assert forall|row: int, col: int|
        0 <= row < HEIGHT && 0 <= col < WIDTH implies twice[row][col] == grid[row][col] by {
        assert(twice[row][col] == (once[row][col] ^ sprite_pixel(
            sprite,
            row_offset(y, row),
            column_offset(x, col),
        )));
        assert(once[row][col] == (grid[row][col] ^ sprite_pixel(
            sprite,
            row_offset(y, row),
            column_offset(x, col),
        )));
    }
    assert(twice =~~= grid);
    assert forall|line: int, offset: int| #[trigger]
        sprite_pixel(sprite, line, offset) implies once[(y + line) % (HEIGHT as int)][(x
        + offset) % (WIDTH as int)] == !grid[(y + line) % (HEIGHT as int)][(x + offset) % (
    WIDTH as int)] by {
        let row = (y + line) % (HEIGHT as int);
        let col = (x + offset) % (WIDTH as int);
        lemma_row_offset(y, line, row);
        lemma_column_offset(x, offset, col);
        assert(once[row][col] == (grid[row][col] ^ sprite_pixel(
            sprite,
            row_offset(y, row),
            column_offset(x, col),
        )));
    }
    if sprite_overlaps(once, x, y, sprite) {
        let (line, offset) = choose|line: int, offset: int|
            #[trigger] sprite_pixel(sprite, line, offset) && once[(y + line) % (HEIGHT as int)][(x
                + offset) % (WIDTH as int)];
        assert(sprite_pixel(sprite, line, offset));
    }
    if sprite_lights(grid, x, y, sprite) {
        let (line, offset) = choose|line: int, offset: int|
            #[trigger] sprite_pixel(sprite, line, offset) && !grid[(y + line) % (HEIGHT as int)][(
            x + offset) % (WIDTH as int)];
        assert(sprite_pixel(sprite, line, offset));
    }
}

/// Drawing the first `count + 1` rows of a sprite is drawing the first `count` rows and
/// then row `count`, on the row that lies `count` below `y`.
pub proof fn lemma_draw_one_more_row(
    grid: Seq<Seq<bool>>,
    x: int,
    y: int,
    sprite: Seq<u8>,
    count: int,
)
    requires
        0 <= count < sprite.len(),
        0 <= y,
    ensures
        ({
            let (above, collided) = draw_rows(grid, x, y, sprite.take(count));
            let row = (y % (HEIGHT as int) + count % (HEIGHT as int)) % (HEIGHT as int);
            draw_rows(grid, x, y, sprite.take(count + 1)) == (
                draw_row(above, x, row, sprite[count]),
                collided || row_collides(above, x, row, sprite[count]),
            )
        }),
{
    let drawn = sprite.take(count + 1);
    assert(drawn.drop_last() =~= sprite.take(count));
    assert(drawn.last() == sprite[count]);
    assert((y + drawn.len() - 1) % (HEIGHT as int) == (y % (HEIGHT as int) + count % (
    HEIGHT as int)) % (HEIGHT as int));
}

impl Screen {
    /// Draws one sprite row on row `row`, its leftmost pixel in column `x mod 64`, and says
    /// whether a lit pixel was turned off.
    fn draw_sprite_row(&mut self, x: u8, row: usize, byte: u8) -> (collision: bool)
        requires
            row < HEIGHT,
        ensures
            final(self)@ == draw_row(old(self)@, x as int, row as int, byte),
            collision == row_collides(old(self)@, x as int, row as int, byte),
    {
        let ghost before = self@;
        proof {
            self.lemma_view_wf();
        }
        let mut collision = false;
        let mut offset: usize = 0;
        while offset < 8
            invariant
                row < HEIGHT,
                offset <= 8,
                grid_wf(before),
                grid_wf(self@),
                forall|r: int, c: int|
                    0 <= r < HEIGHT && 0 <= c < WIDTH ==> #[trigger] self@[r][c] == (if r == row
                        && column_offset(x as int, c) < offset {
                        before[r][c] ^ sprite_bit(byte, column_offset(x as int, c))
                    } else {
                        before[r][c]
                    }),
                collision == (exists|k: int|
                    0 <= k < offset && #[trigger] sprite_bit(byte, k) && before[row as int][(x
                        + k) % (WIDTH as int)]),
            decreases 8 - offset,
        {
            let col = (x as usize + offset) % 64;
            let lit = self.pixel(row, col);
            let flipped = lit ^ byte.bit(7 - offset);
            let ghost hit = sprite_bit(byte, offset as int) && before[row as int][col as int];
            proof {
                lemma_column_offset(x as int, offset as int, col as int);
                assert(lit == before[row as int][col as int]);
            }
            if lit && !flipped {
                collision = true;
            }
            self.set_pixel(row, col, flipped);
            proof {
                assert forall|r: int, c: int|
                    0 <= r < HEIGHT && 0 <= c < WIDTH implies #[trigger] self@[r][c] == (if r
                    == row && column_offset(x as int, c) < offset + 1 {
                    before[r][c] ^ sprite_bit(byte, column_offset(x as int, c))
                } else {
                    before[r][c]
                }) by {
                    lemma_column_offset(x as int, offset as int, c);
                }
                if hit {
                    assert(sprite_bit(byte, offset as int));
                }
            }
            offset += 1;
        }
        proof {
            let drawn = draw_row(before, x as int, row as int, byte);
            assert forall|r: int, c: int|
                0 <= r < HEIGHT && 0 <= c < WIDTH implies #[trigger] self@[r][c] == drawn[r][c] by {
                lemma_column_offset(x as int, 0, c);
            }
            assert(self@ =~~= drawn);
        }
        collision
    }

    /// Draws `sprite` by XOR with its top left pixel at column `x mod 64` of row
    /// `y mod 32`: one byte for each row, the most significant bit leftmost. What would
    /// fall beyond the right or the bottom edge continues at the opposite edge. Returns
    /// whether a pixel that was lit has been turned off.
    pub fn draw_sprite(&mut self, x: u8, y: u8, sprite: &[u8]) -> (collision: bool)
        ensures
            (final(self)@, collision) == draw_rows(old(self)@, x as int, y as int, sprite@),
    {
        let ghost before = self@;
        let mut collision = false;
        let mut j: usize = 0;
        while j < sprite.len()
            invariant
                j <= sprite.len(),
                (self@, collision) == draw_rows(before, x as int, y as int, sprite@.take(j as int)),
            decreases sprite.len() - j,
        {
            let row = (y as usize % 32 + j % 32) % 32;
            proof {
                lemma_draw_one_more_row(before, x as int, y as int, sprite@, j as int);
            }
            let erased = self.draw_sprite_row(x, row, sprite[j]);
            collision = collision || erased;
            j += 1;
        }
        assert(sprite@.take(sprite.len() as int) =~= sprite@);
        collision
    }
}

} // verus!
