//! The display buffer: a 64 by 32 grid of monochrome pixels, drawn on by XOR.

use vstd::prelude::*;

verus! {

/// Number of pixel columns.
pub const WIDTH: usize = 64;

/// Number of pixel rows.
pub const HEIGHT: usize = 32;

/// A pixel grid as rows of columns: `grid[row][col]` is whether that pixel is lit.
pub open spec fn grid_wf(grid: Seq<Seq<bool>>) -> bool {
    &&& grid.len() == HEIGHT
    &&& forall|row: int| 0 <= row < HEIGHT ==> (#[trigger] grid[row]).len() == WIDTH
}

/// The grid on which no pixel is lit.
pub open spec fn blank_grid() -> Seq<Seq<bool>> {
    Seq::new(HEIGHT as nat, |row: int| Seq::new(WIDTH as nat, |col: int| false))
}

/// The two character cells, as (column, row), that show the pixel in row `row` and
/// column `col` on a terminal: a pixel is two cells wide and one cell high.
pub open spec fn pixel_cells(row: int, col: int) -> Seq<(u16, u16)> {
    seq![((2 * col) as u16, row as u16), ((2 * col + 1) as u16, row as u16)]
}

/// The cells of the lit pixels among the first `count` pixels of `grid`, the pixels
/// counted row by row from the top left.
pub open spec fn lit_cells(grid: Seq<Seq<bool>>, count: int) -> Seq<(u16, u16)>
    decreases count,
{
    if count <= 0 {
        Seq::empty()
    } else {
        let row = (count - 1) / (WIDTH as int);
        let col = (count - 1) % (WIDTH as int);
        if grid[row][col] {
            lit_cells(grid, count - 1) + pixel_cells(row, col)
        } else {
            lit_cells(grid, count - 1)
        }
    }
}

/// The display buffer.
pub struct Screen {
    pixels: [[bool; 64]; 32],  // 64X32 pixels
}

impl View for Screen {
    type V = Seq<Seq<bool>>;

    /// The pixels as rows of columns.
    closed spec fn view(&self) -> Seq<Seq<bool>> {
        Seq::new(HEIGHT as nat, |row: int| self.pixels[row]@)
    }
}

impl Screen {
    /// The view of a screen always has 32 rows of 64 pixels.
    pub proof fn lemma_view_wf(&self)
        ensures
            grid_wf(self@),
    {
    }

    /// A screen with every pixel off.
    pub fn new() -> (screen: Self)
        ensures
            screen@ == blank_grid(),
    {
        let screen = Self { pixels: [[false;64];32] };
        assert(screen@ =~~= blank_grid());
        screen
    }

    /// Turns every pixel off.
    pub fn clear(&mut self)
        ensures
            final(self)@ == blank_grid(),
    {
        let mut row: usize = 0;
        while row < 32
            invariant
                row <= 32,
                forall|r: int, c: int| 0 <= r < row && 0 <= c < 64 ==> !self.pixels[r][c],
            decreases 32 - row,
        {
            let mut col: usize = 0;
            while col < 64
                invariant
                    row < 32,
                    col <= 64,
                    forall|r: int, c: int| 0 <= r < row && 0 <= c < 64 ==> !self.pixels[r][c],
                    forall|c: int| 0 <= c < col ==> !self.pixels[row as int][c],
                decreases 64 - col,
            {
                self.pixels[row][col] = false;
                col += 1;
            }
            row += 1;
        }
        assert(self@ =~~= blank_grid());
    }

    /// The character cells to paint so that a terminal shows the lit pixels: for each lit
    /// pixel, row by row from the top left, its two cells as (column, row).
    pub fn display(&self) -> (cells: Vec<(u16, u16)>)
        ensures
            cells@ == lit_cells(self@, (WIDTH * HEIGHT) as int),
    {
        let mut cells: Vec<(u16, u16)> = Vec::new();
        let mut y: usize = 0;
        while y < 32
            invariant
                y <= 32,
                cells@ == lit_cells(self@, y * 64),
            decreases 32 - y,
        {
            let mut x: usize = 0;
            while x < 64
                invariant
                    y < 32,
                    x <= 64,
                    cells@ == lit_cells(self@, y * 64 + x),
                decreases 64 - x,
            {
                let px: bool = self.pixels[y][x];
                if px {
                    cells.push((2 * x as u16, y as u16));
                    cells.push((1 + 2 * x as u16, y as u16));
                }
                proof {
                    let count = y * 64 + x + 1;
                    assert((count - 1) / 64 == y && (count - 1) % 64 == x);
                    if px {
                        assert(cells@ =~= lit_cells(self@, count - 1) + pixel_cells(
                            y as int,
                            x as int,
                        ));
                    }
                }
                x += 1;
            }
            y += 1;
        }
        cells
    }

    /// Turns the pixel in row `row` and column `col` on (`lit`) or off; every other pixel
    /// stays.
    pub(crate) fn set_pixel(&mut self, row: usize, col: usize, lit: bool)
        requires
            row < HEIGHT,
            col < WIDTH,
        ensures
            final(self)@ == old(self)@.update(
                row as int,
                old(self)@[row as int].update(col as int, lit),
            ),
    {
        self.pixels[row][col] = lit;
        assert(self@ =~~= old(self)@.update(
            row as int,
            old(self)@[row as int].update(col as int, lit),
        ));
    }

    /// Whether the pixel in row `row` and column `col` is lit.
    pub fn pixel(&self, row: usize, col: usize) -> (lit: bool)
        requires
            row < HEIGHT,
            col < WIDTH,
        ensures
            lit == self@[row as int][col as int],
    {
        self.pixels[row][col]
    }
}

} // verus!
