//! Panel geometry and the mapping from drawing coordinates to panel coordinates.
//!
//! The panel has a fixed native grid of [`NATIVE_COLS`] columns by [`NATIVE_ROWS`]
//! rows. Drawing code addresses pixels by a logical `(x, y)`; a [`Rotation`] turns
//! that into the physical `(col, row)` whose bit is stored in the planes.

use vstd::prelude::*;

verus! {

/// Number of gate lines (rows) of the panel in its native orientation.
pub const NATIVE_ROWS: u16 = 212;

/// Number of source lines (columns) of the panel in its native orientation.
pub const NATIVE_COLS: u8 = 104;

/// Bytes per physical row of a plane: eight horizontally adjacent pixels per byte.
pub const ROW_STRIDE: usize = 13;

/// Bytes in one plane: `NATIVE_ROWS * NATIVE_COLS / 8`.
pub const PLANE_LEN: usize = 2756;

/// Orientation of the drawing surface relative to the panel's native orientation.
#[derive(Clone, Copy, PartialEq, Eq, Structural, Debug)]
pub enum Rotation {
    Rotate0,
    Rotate90,
    Rotate180,
    Rotate270,
}

/// Whether `(col, row)` names a pixel of the native grid.
pub open spec fn in_grid(col: int, row: int) -> bool {
    0 <= col < NATIVE_COLS as int && 0 <= row < NATIVE_ROWS as int
}

impl Rotation {
    /// Width of the drawing window under this rotation.
    pub open spec fn logical_width(self) -> int {
        match self {
            Rotation::Rotate0 | Rotation::Rotate180 => NATIVE_COLS as int,
            Rotation::Rotate90 | Rotation::Rotate270 => NATIVE_ROWS as int,
        }
    }

    /// Height of the drawing window under this rotation.
    pub open spec fn logical_height(self) -> int {
        match self {
            Rotation::Rotate0 | Rotation::Rotate180 => NATIVE_ROWS as int,
            Rotation::Rotate90 | Rotation::Rotate270 => NATIVE_COLS as int,
        }
    }

    /// Whether the logical point `(x, y)` lies in the drawing window.
    pub open spec fn in_window(self, x: int, y: int) -> bool {
        0 <= x < self.logical_width() && 0 <= y < self.logical_height()
    }

    /// The physical `(col, row)` that the logical point `(x, y)` is drawn at.
    /// Defined on all integers; only points of the window land in the grid.
    pub open spec fn physical(self, x: int, y: int) -> (int, int) {
        match self {
            Rotation::Rotate0 => (x, y),
            Rotation::Rotate90 => (y, NATIVE_ROWS as int - 1 - x),
            Rotation::Rotate180 => (NATIVE_COLS as int - 1 - x, NATIVE_ROWS as int - 1 - y),
            Rotation::Rotate270 => (NATIVE_COLS as int - 1 - y, x),
        }
    }

    /// The quarter turns that this rotation stands for, in degrees.
    pub open spec fn spec_degrees(self) -> int {
        match self {
            Rotation::Rotate0 => 0,
            Rotation::Rotate90 => 90,
            Rotation::Rotate180 => 180,
            Rotation::Rotate270 => 270,
        }
    }

    /// Width of the drawing window.
    pub fn width(self) -> (w: u32)
        ensures
            w as int == self.logical_width(),
    {
        match self {
            Rotation::Rotate0 | Rotation::Rotate180 => NATIVE_COLS as u32,
            Rotation::Rotate90 | Rotation::Rotate270 => NATIVE_ROWS as u32,
        }
    }

    /// Height of the drawing window.
    pub fn height(self) -> (h: u32)
        ensures
            h as int == self.logical_height(),
    {
        match self {
            Rotation::Rotate0 | Rotation::Rotate180 => NATIVE_ROWS as u32,
            Rotation::Rotate90 | Rotation::Rotate270 => NATIVE_COLS as u32,
        }
    }

    /// The rotation in degrees.
    pub fn degrees(self) -> (d: u16)
        ensures
            d as int == self.spec_degrees(),
    {
        match self {
            Rotation::Rotate0 => 0,
            Rotation::Rotate90 => 90,
            Rotation::Rotate180 => 180,
            Rotation::Rotate270 => 270,
        }
    }

    /// Maps a logical point to its physical `(col, row)`.
    ///
    /// Returns `None` exactly for the points outside the drawing window, which a
    /// drawing operation clips.
    pub fn to_physical(self, x: i32, y: i32) -> (place: Option<(u8, u16)>)
        ensures
            place is Some <==> self.in_window(x as int, y as int),
            place matches Some((col, row)) ==> (col as int, row as int) == self.physical(
                x as int,
                y as int,
            ) && in_grid(col as int, row as int),
    {
        let cols: i32 = NATIVE_COLS as i32;
        let rows: i32 = NATIVE_ROWS as i32;
        let (width, height) = match self {
            Rotation::Rotate0 | Rotation::Rotate180 => (cols, rows),
            Rotation::Rotate90 | Rotation::Rotate270 => (rows, cols),
        };
        if x < 0 || y < 0 || x >= width || y >= height {
            return None;
        }
        let (col, row) = match self {
            Rotation::Rotate0 => (x, y),
            Rotation::Rotate90 => (y, rows - 1 - x),
            Rotation::Rotate180 => (cols - 1 - x, rows - 1 - y),
            Rotation::Rotate270 => (cols - 1 - y, x),
        };
        Some((col as u8, row as u16))
    }
}

/// A logical point lies in the drawing window exactly when its physical image
/// lies in the native grid: clipping before or after the rotation is the same.
pub proof fn lemma_window_is_grid(rotation: Rotation, x: int, y: int)
    ensures
        rotation.in_window(x, y) <==> in_grid(
            rotation.physical(x, y).0,
            rotation.physical(x, y).1,
        ),
{
}

/// Two different logical points never share a physical pixel.
pub proof fn lemma_physical_injective(rotation: Rotation, x1: int, y1: int, x2: int, y2: int)
    requires
        rotation.physical(x1, y1) == rotation.physical(x2, y2),
    ensures
        x1 == x2,
        y1 == y2,
{
}

/// Every pixel of the native grid is the image of a point of the drawing window.
pub proof fn lemma_physical_onto(rotation: Rotation, col: int, row: int) -> (point: (int, int))
    requires
        in_grid(col, row),
    ensures
        rotation.in_window(point.0, point.1),
        rotation.physical(point.0, point.1) == (col, row),
{
    match rotation {
        Rotation::Rotate0 => (col, row),
        Rotation::Rotate90 => (NATIVE_ROWS as int - 1 - row, col),
        Rotation::Rotate180 => (NATIVE_COLS as int - 1 - col, NATIVE_ROWS as int - 1 - row),
        Rotation::Rotate270 => (row, NATIVE_COLS as int - 1 - col),
    }
}

/// Applying the quarter-turn mapping four times in a row gives back the point it
/// started from.
pub proof fn lemma_quarter_turn_four_times(x: int, y: int)
    ensures
        ({
            let once = Rotation::Rotate90.physical(x, y);
            let twice = Rotation::Rotate90.physical(once.0, once.1);
            let thrice = Rotation::Rotate90.physical(twice.0, twice.1);
            Rotation::Rotate90.physical(thrice.0, thrice.1)
        }) == (x, y),
{
}

/// Applying the three-quarter-turn mapping four times in a row gives back the
/// point it started from.
pub proof fn lemma_three_quarter_turn_four_times(x: int, y: int)
    ensures
        ({
            let once = Rotation::Rotate270.physical(x, y);
            let twice = Rotation::Rotate270.physical(once.0, once.1);
            let thrice = Rotation::Rotate270.physical(twice.0, twice.1);
            Rotation::Rotate270.physical(thrice.0, thrice.1)
        }) == (x, y),
{
}

/// Applying the half-turn mapping twice gives back the point it started from.
pub proof fn lemma_half_turn_twice(x: int, y: int)
    ensures
        ({
            let p = Rotation::Rotate180.physical(x, y);
            Rotation::Rotate180.physical(p.0, p.1)
        }) == (x, y),
{
}

/// The plane size follows from the native grid, one bit per pixel.
pub proof fn lemma_plane_len()
    ensures
        PLANE_LEN as int == NATIVE_ROWS as int * NATIVE_COLS as int / 8,
        PLANE_LEN as int == NATIVE_ROWS as int * ROW_STRIDE as int,
        ROW_STRIDE as int == NATIVE_COLS as int / 8,
        PLANE_LEN == 2756,
{
}

} // verus!
