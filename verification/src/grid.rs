//! The battle grid: a fixed lattice of tiles mapping screen coordinates
//! to lane and column indices. Built once at battle start, read-only
//! thereafter.

use vstd::prelude::*;

use crate::config::COLS;
use crate::config::MOUSE_LIMIT;
use crate::config::ROWS;
use crate::config::TILE_SIZE;
use crate::config::UI_BAR_HEIGHT;

verus! {

/// One grid cell; (x, y) is its top-left corner in milli-pixels.
#[derive(Copy, Clone, Debug, PartialEq, Eq, Structural)]
pub struct Tile {
    pub row: usize,
    pub col: usize,
    pub x: i64,
    pub y: i64,
}

/// The tile at a given row and column.
pub open spec fn tile_spec(row: int, col: int) -> Tile {
    Tile {
        row: row as usize,
        col: col as usize,
        x: (col * TILE_SIZE) as i64,
        y: (row * TILE_SIZE + UI_BAR_HEIGHT) as i64,
    }
}

/// The tile containing a screen point, if the point lies on the grid:
/// column by horizontal position, row by vertical position below the bar.
pub open spec fn tile_lookup(mx: int, my: int) -> Option<Tile> {
    if 0 <= mx < COLS * TILE_SIZE && UI_BAR_HEIGHT <= my < UI_BAR_HEIGHT + ROWS * TILE_SIZE {
        Some(tile_spec((my - UI_BAR_HEIGHT) / (TILE_SIZE as int), mx / (TILE_SIZE as int)))
    } else {
        None
    }
}

/// The grid: all tiles, rows outer and columns inner.
pub struct Grid {
    pub tiles: Vec<Tile>,
}

impl Grid {
    /// Well-formedness: exactly one tile per cell, in row-major order.
    pub open spec fn wf(self) -> bool {
        &&& self.tiles@.len() == ROWS * COLS
        &&& forall|k: int|
            0 <= k < self.tiles@.len() ==> #[trigger] self.tiles@[k] == tile_spec(
                k / (COLS as int),
                k % (COLS as int),
            )
    }

    /// Builds the full lattice.
    pub fn new() -> (grid: Grid)
        ensures
            grid.wf(),
    {
        let mut tiles: Vec<Tile> = Vec::new();
        let mut row: usize = 0;
        while row < ROWS
            invariant
                0 <= row <= ROWS,
                tiles@.len() == row * COLS,
                forall|k: int|
                    0 <= k < tiles@.len() ==> #[trigger] tiles@[k] == tile_spec(
                        k / (COLS as int),
                        k % (COLS as int),
                    ),
            decreases ROWS - row,
        {
            let mut col: usize = 0;
            while col < COLS
                invariant
                    0 <= row < ROWS,
                    0 <= col <= COLS,
                    tiles@.len() == row * COLS + col,
                    forall|k: int|
                        0 <= k < tiles@.len() ==> #[trigger] tiles@[k] == tile_spec(
                            k / (COLS as int),
                            k % (COLS as int),
                        ),
                decreases COLS - col,
            {
                let x = col as i64 * TILE_SIZE;
                let y = row as i64 * TILE_SIZE + UI_BAR_HEIGHT;
                tiles.push(Tile { row, col, x, y });
                proof {
                    let k = tiles@.len() - 1;
                    assert(k == row * COLS + col);
                    assert(k / (COLS as int) == row && k % (COLS as int) == col)
                        by (nonlinear_arith)
                        requires
                            k == row * (COLS as int) + col,
                            0 <= col < COLS,
                            0 <= row,
                            COLS == 9,
                    ;
                }
                col = col + 1;
            }
            row = row + 1;
        }
        Grid { tiles }
    }

    /// The tile under a screen point, if any. A point on the bar, past
    /// the right edge of the columns or below the last row maps to none.
    pub fn get_tile_at(&self, mouse_x: i64, mouse_y: i64) -> (tile: Option<Tile>)
        requires
            self.wf(),
            -MOUSE_LIMIT <= mouse_x <= MOUSE_LIMIT,
            -MOUSE_LIMIT <= mouse_y <= MOUSE_LIMIT,
        ensures
            tile == tile_lookup(mouse_x as int, mouse_y as int),
    {
        if 0 <= mouse_x && mouse_x < COLS as i64 * TILE_SIZE && UI_BAR_HEIGHT <= mouse_y && mouse_y
            < UI_BAR_HEIGHT + ROWS as i64 * TILE_SIZE {
            let col = (mouse_x / TILE_SIZE) as usize;
            let row = ((mouse_y - UI_BAR_HEIGHT) / TILE_SIZE) as usize;
            proof {
                let mxi = mouse_x as int;
                let myi = mouse_y as int;
                assert(0 <= mxi / (TILE_SIZE as int) < COLS as int && 0 <= (myi
                    - UI_BAR_HEIGHT as int) / (TILE_SIZE as int) < ROWS as int)
                    by (nonlinear_arith)
                    requires
                        0 <= mxi < (COLS as int) * (TILE_SIZE as int),
                        0 <= myi - (UI_BAR_HEIGHT as int) < (ROWS as int) * (TILE_SIZE as int),
                        TILE_SIZE == 100_000,
                        COLS == 9,
                        ROWS == 5,
                ;
            }
            Some(
                Tile {
                    row,
                    col,
                    x: col as i64 * TILE_SIZE,
                    y: row as i64 * TILE_SIZE + UI_BAR_HEIGHT,
                },
            )
        } else {
            None
        }
    }
}

} // verus!
