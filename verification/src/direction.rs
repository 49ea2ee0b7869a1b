//! The four directions and the row of the sprite sheet that shows each.

use vstd::prelude::*;

verus! {

/// A way the player can walk and face.
#[derive(Debug, Clone, Copy, PartialEq, Eq, Structural)]
pub enum Direction {
    Up,
    Down,
    Left,
    Right,
}

impl Direction {
    /// The direction that points the other way along the same axis.
    pub open spec fn opposite(self) -> Direction {
        match self {
            Direction::Up => Direction::Down,
            Direction::Down => Direction::Up,
            Direction::Left => Direction::Right,
            Direction::Right => Direction::Left,
        }
    }
}

/// Row of the sprite sheet that holds the walking animation for `direction`.
pub open spec fn spritesheet_row(direction: Direction) -> int {
    match direction {
        Direction::Up => 3,
        Direction::Down => 0,
        Direction::Left => 1,
        Direction::Right => 2,
    }
}

/// Number of rows of the sprite sheet, one for each direction.
pub const SPRITESHEET_ROWS: i32 = 4;

/// Looks up the row of the sprite sheet that shows the player facing `direction`.
pub fn direction_spritesheet_row(direction: Direction) -> (row: i32)
    ensures
        row == spritesheet_row(direction),
        0 <= row < SPRITESHEET_ROWS,
{
    match direction {
        Direction::Up => 3,
        Direction::Down => 0,
        Direction::Left => 1,
        Direction::Right => 2,
    }
}

/// Each direction has a row of its own: two directions that share a row are
/// the same direction, and every row of the sheet belongs to some direction.
pub proof fn lemma_rows_are_a_bijection(a: Direction, b: Direction, row: int)
    ensures
        spritesheet_row(a) == spritesheet_row(b) ==> a == b,
        0 <= row < SPRITESHEET_ROWS ==> exists|d: Direction| spritesheet_row(d) == row,
{
    if 0 <= row < SPRITESHEET_ROWS {
        assert(spritesheet_row(Direction::Down) == 0);
        assert(spritesheet_row(Direction::Left) == 1);
        assert(spritesheet_row(Direction::Right) == 2);
        assert(spritesheet_row(Direction::Up) == 3);
    }
}

} // verus!
