//! Screen positions, sizes and work areas in physical pixels.

use vstd::prelude::*;

verus! {

/// Largest distance, in pixels along each axis, at which a reported window
/// move is still taken to be the echo of a move the program made itself.
pub const PROGRAMMATIC_MOVE_TOLERANCE: i32 = 4;

/// A point on the screen in physical pixels (the outer top-left corner of a
/// window, or the corner of a monitor's work area).
#[derive(Clone, Copy, Debug, PartialEq, Eq, Structural)]
pub struct Position {
    pub x: i32,
    pub y: i32,
}

/// A width and a height in physical pixels.
#[derive(Clone, Copy, Debug, PartialEq, Eq, Structural)]
pub struct Size {
    pub width: u32,
    pub height: u32,
}

/// The part of a monitor that windows may use (the monitor minus the task
/// bar), as reported by the windowing system.
#[derive(Clone, Copy, Debug, PartialEq, Eq, Structural)]
pub struct WorkArea {
    pub position: Position,
    pub size: Size,
}

/// The form in which a position is written to the desktop-state file.
#[derive(Clone, Copy, Debug, PartialEq, Eq, Structural)]
pub struct SavedPosition {
    pub x: i32,
    pub y: i32,
}

/// The absolute difference of two integers.
pub open spec fn abs_diff(a: int, b: int) -> int {
    if a >= b { a - b } else { b - a }
}

/// Two positions are near when they differ by at most the tolerance along
/// each axis.
pub open spec fn near(a: Position, b: Position) -> bool {
    &&& abs_diff(a.x as int, b.x as int) <= PROGRAMMATIC_MOVE_TOLERANCE
    &&& abs_diff(a.y as int, b.y as int) <= PROGRAMMATIC_MOVE_TOLERANCE
}

/// Whether `a` and `b` lie within the programmatic-move tolerance of each
/// other along both axes. The differences are taken exactly, so coordinates
/// far apart are never reported near.
pub fn is_near_position(a: Position, b: Position) -> (r: bool)
    ensures
        r == near(a, b),
{
    let dx: i64 = a.x as i64 - b.x as i64;
    let dy: i64 = a.y as i64 - b.y as i64;
    let tol: i64 = PROGRAMMATIC_MOVE_TOLERANCE as i64;
    -tol <= dx && dx <= tol && -tol <= dy && dy <= tol
}

impl From<Position> for SavedPosition {
    fn from(position: Position) -> (r: SavedPosition) {
        SavedPosition { x: position.x, y: position.y }
    }
}

impl vstd::std_specs::convert::FromSpecImpl<Position> for SavedPosition {
    open spec fn obeys_from_spec() -> bool {
        true
    }

    open spec fn from_spec(position: Position) -> SavedPosition {
        SavedPosition { x: position.x, y: position.y }
    }
}

impl From<SavedPosition> for Position {
    fn from(position: SavedPosition) -> (r: Position) {
        Position { x: position.x, y: position.y }
    }
}

impl vstd::std_specs::convert::FromSpecImpl<SavedPosition> for Position {
    open spec fn obeys_from_spec() -> bool {
        true
    }

    open spec fn from_spec(position: SavedPosition) -> Position {
        Position { x: position.x, y: position.y }
    }
}

} // verus!
