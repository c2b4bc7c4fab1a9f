use vstd::prelude::*;

verus! {

/// A cell of the playing field, addressed by column `x` and row `y`.
/// The grid itself is `0..=GRID_MAX` on both axes; a coordinate steps
/// one cell outside it when the snake runs into a wall.
#[derive(Clone, Copy, PartialEq, Eq, Structural, Debug)]
pub struct Pos {
    pub x: i32,
    pub y: i32,
}

/// The heading of the snake.
#[derive(Clone, Copy, PartialEq, Eq, Structural, Debug)]
pub enum Direction {
    Left,
    Right,
    Up,
    Down,
}

/// Highest coordinate of the playable grid on either axis.
pub const GRID_MAX: i32 = 14;

/// Side of one grid cell when mapped to pixels.
pub const CELL_SIZE: i32 = 20;

/// The playable field: both coordinates within `0..=GRID_MAX`.
pub open spec fn in_grid(p: Pos) -> bool {
    0 <= p.x <= GRID_MAX && 0 <= p.y <= GRID_MAX
}

/// Every cell of the grid is occupied by `body`.
pub open spec fn grid_full(body: Seq<Pos>) -> bool {
    forall|p: Pos| in_grid(p) ==> body.contains(p)
}

impl Direction {
    /// The heading that points the opposite way.
    pub open spec fn opposite(self) -> Direction {
        match self {
            Direction::Left => Direction::Right,
            Direction::Right => Direction::Left,
            Direction::Up => Direction::Down,
            Direction::Down => Direction::Up,
        }
    }
}

/// Where a head at `p` lands after one step towards `d`.
pub open spec fn spec_step(p: Pos, d: Direction) -> Pos {
    match d {
        Direction::Left => Pos { x: (p.x - 1) as i32, y: p.y },
        Direction::Right => Pos { x: (p.x + 1) as i32, y: p.y },
        Direction::Up => Pos { x: p.x, y: (p.y - 1) as i32 },
        Direction::Down => Pos { x: p.x, y: (p.y + 1) as i32 },
    }
}

/// Moves a head at `p` one cell towards `d`.
pub fn step(p: Pos, d: Direction) -> (r: Pos)
    requires
        i32::MIN < p.x < i32::MAX,
        i32::MIN < p.y < i32::MAX,
    ensures
        r == spec_step(p, d),
{
    match d {
        Direction::Left => Pos { x: p.x - 1, y: p.y },
        Direction::Right => Pos { x: p.x + 1, y: p.y },
        Direction::Up => Pos { x: p.x, y: p.y - 1 },
        Direction::Down => Pos { x: p.x, y: p.y + 1 },
    }
}

/// Top-left pixel of the square that draws the cell at `p`.
pub fn pixel_origin(p: Pos) -> (r: (i32, i32))
    requires
        -100000 <= p.x <= 100000,
        -100000 <= p.y <= 100000,
    ensures
        r.0 == p.x * CELL_SIZE,
        r.1 == p.y * CELL_SIZE,
{
    (p.x * CELL_SIZE, p.y * CELL_SIZE)
}

} // verus!
