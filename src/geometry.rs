//! Grid positions, offsets between them, and footprint sizes.
use vstd::prelude::*;

verus! {

/// Number of external coordinate units in one grid cell.
pub const CELL_SCALE: i64 = 22;

/// Whether an integer fits in `i32`.
pub open spec fn fits_i32(v: int) -> bool {
    i32::MIN <= v <= i32::MAX
}

/// A grid cell coordinate.
#[derive(Debug, Clone, Copy, PartialEq, Eq, Structural, PartialOrd, Ord, Hash)]
pub struct Position {
    pub x: i32,
    pub y: i32,
}

/// A displacement on the grid.
#[derive(Debug, Clone, Copy, PartialEq, Eq, Structural, PartialOrd, Ord, Hash)]
pub struct Offset {
    pub x: i32,
    pub y: i32,
}

/// A footprint: width and height in grid cells.
#[derive(Debug, Clone, Copy, PartialEq, Eq, Structural, PartialOrd, Ord, Hash)]
pub struct Size {
    pub w: i32,
    pub h: i32,
}

/// Whether `p` moved by `o` stays on the `i32` grid.
pub open spec fn can_shift(p: Position, o: Offset) -> bool {
    fits_i32(p.x + o.x) && fits_i32(p.y + o.y)
}

/// `p` moved by `o`.
pub open spec fn shift(p: Position, o: Offset) -> Position {
    Position { x: (p.x + o.x) as i32, y: (p.y + o.y) as i32 }
}

impl Position {
    /// Whether this position moved by `o` stays on the `i32` grid.
    pub fn can_shift(&self, o: Offset) -> (r: bool)
        ensures
            r == can_shift(*self, o),
    {
        let x = self.x as i64 + o.x as i64;
        let y = self.y as i64 + o.y as i64;
        i32::MIN as i64 <= x && x <= i32::MAX as i64 && i32::MIN as i64 <= y && y <= i32::MAX as i64
    }

    /// This position moved by `o`.
    pub fn shifted(self, o: Offset) -> (r: Position)
        requires
            can_shift(self, o),
        ensures
            r == shift(self, o),
    {
        Position { x: self.x + o.x, y: self.y + o.y }
    }

    /// The horizontal coordinate in external units.
    pub fn world_x(&self) -> (r: i64)
        ensures
            r == self.x * CELL_SCALE,
    {
        self.x as i64 * CELL_SCALE
    }

    /// The vertical coordinate in external units.
    pub fn world_y(&self) -> (r: i64)
        ensures
            r == self.y * CELL_SCALE,
    {
        self.y as i64 * CELL_SCALE
    }

    /// Both coordinates in external units.
    pub fn world_coords(&self) -> (r: (i64, i64))
        ensures
            r.0 == self.x * CELL_SCALE,
            r.1 == self.y * CELL_SCALE,
    {
        (self.world_x(), self.world_y())
    }
}

impl Offset {
    /// The sentinel that marks a port slot with no connector.
    pub open spec fn spec_null() -> Offset {
        Offset { x: -1i32, y: -1i32 }
    }

    /// The sentinel that marks a port slot with no connector.
    pub fn null() -> (r: Offset)
        ensures
            r == Offset::spec_null(),
    {
        Offset { x: -1, y: -1 }
    }

    /// Whether this offset is anything but the "no slot" sentinel.
    pub fn non_null(&self) -> (r: bool)
        ensures
            r == (*self != Offset::spec_null()),
    {
        !(self.x == -1 && self.y == -1)
    }
}

impl Size {
    /// Whether this size is anything but the sentinel `(-1, -1)`.
    pub fn non_null(&self) -> (r: bool)
        ensures
            r == !(self.w == -1 && self.h == -1),
    {
        !(self.w == -1 && self.h == -1)
    }
}

/// Things that occupy a footprint on the grid.
pub trait HasSize {
    /// The footprint, as a value.
    spec fn footprint(&self) -> Size;

    /// The footprint.
    fn size(&self) -> (r: Size)
        ensures
            r == self.footprint(),
    ;

    /// The footprint's width.
    fn width(&self) -> (r: i32)
        ensures
            r == self.footprint().w,
    {
        self.size().w
    }

    /// The footprint's height.
    fn height(&self) -> (r: i32)
        ensures
            r == self.footprint().h,
    {
        self.size().h
    }
}

} // verus!
