use vstd::prelude::*;

verus! {

/// Default arena width, in cells.
pub const ARENA_WIDTH: i32 = 20;

/// Default arena height, in cells.
pub const ARENA_HEIGHT: i32 = 20;

/// A cell of the grid.
#[derive(Clone, Copy, Debug, PartialEq, Eq, Structural)]
pub struct Position {
    pub x: i32,
    pub y: i32,
}

/// One of the four directions the head can face.
#[derive(Clone, Copy, Debug, PartialEq, Eq, Structural)]
pub enum Direction {
    Up,
    Down,
    Left,
    Right,
}

impl Direction {
    /// Up and Down are opposites, and so are Left and Right.
    pub open spec fn opposite_spec(self) -> Direction {
        match self {
            Direction::Up => Direction::Down,
            Direction::Down => Direction::Up,
            Direction::Right => Direction::Left,
            Direction::Left => Direction::Right,
        }
    }

    /// The direction pointing the other way.
    pub fn opposite(self) -> (r: Direction)
        ensures
            r == self.opposite_spec(),
    {
        match self {
            Direction::Up => Direction::Down,
            Direction::Down => Direction::Up,
            Direction::Right => Direction::Left,
            Direction::Left => Direction::Right,
        }
    }
}

/// Taking the opposite twice gives the direction back, and no direction is
/// its own opposite.
pub proof fn lemma_opposite_involutive(d: Direction)
    ensures
        d.opposite_spec().opposite_spec() == d,
        d.opposite_spec() != d,
{
}

/// Whether `p` may be moved one cell in direction `d` without leaving the
/// range of `i32`.
pub open spec fn can_step(p: Position, d: Direction) -> bool {
    match d {
        Direction::Up => p.y < i32::MAX,
        Direction::Down => p.y > i32::MIN,
        Direction::Right => p.x < i32::MAX,
        Direction::Left => p.x > i32::MIN,
    }
}

/// The cell one unit away from `p` in direction `d`.
pub open spec fn stepped(p: Position, d: Direction) -> Position
    recommends
        can_step(p, d),
{
    match d {
        Direction::Up => Position { x: p.x, y: (p.y + 1) as i32 },
        Direction::Down => Position { x: p.x, y: (p.y - 1) as i32 },
        Direction::Right => Position { x: (p.x + 1) as i32, y: p.y },
        Direction::Left => Position { x: (p.x - 1) as i32, y: p.y },
    }
}

/// Offsets `p` by one cell in direction `d`.
pub fn step(p: Position, d: Direction) -> (r: Position)
    requires
        can_step(p, d),
    ensures
        r == stepped(p, d),
{
    match d {
        Direction::Up => Position { x: p.x, y: p.y + 1 },
        Direction::Down => Position { x: p.x, y: p.y - 1 },
        Direction::Right => Position { x: p.x + 1, y: p.y },
        Direction::Left => Position { x: p.x - 1, y: p.y },
    }
}

/// The playing field: cells `(x, y)` with `0 <= x < width` and
/// `0 <= y < height`.
#[derive(Clone, Copy, Debug, PartialEq, Eq, Structural)]
pub struct Arena {
    pub width: i32,
    pub height: i32,
}

impl Arena {
    /// The field holds at least one cell.
    pub open spec fn wf(self) -> bool {
        self.width > 0 && self.height > 0
    }

    /// Whether `p` is on the field. Upper bounds are exclusive, so the field
    /// is exactly the range from which food is drawn.
    pub open spec fn contains_spec(self, p: Position) -> bool {
        0 <= p.x && p.x < self.width && 0 <= p.y && p.y < self.height
    }

    /// An arena of the given dimensions.
    pub fn new(width: i32, height: i32) -> (r: Arena)
        requires
            width > 0,
            height > 0,
        ensures
            r.wf(),
            r.width == width,
            r.height == height,
    {
        Arena { width, height }
    }

    /// The default 20 by 20 arena.
    pub fn standard() -> (r: Arena)
        ensures
            r.wf(),
            r.width == ARENA_WIDTH,
            r.height == ARENA_HEIGHT,
    {
        Arena { width: ARENA_WIDTH, height: ARENA_HEIGHT }
    }

    /// Whether `p` lies on the playing field.
    pub fn contains(&self, p: Position) -> (r: bool)
        ensures
            r == self.contains_spec(p),
    {
        0 <= p.x && p.x < self.width && 0 <= p.y && p.y < self.height
    }

    /// Whether `p` lies off the playing field; a head that moves there ends
    /// the round.
    pub fn out_of_bounds(&self, p: Position) -> (r: bool)
        ensures
            r == !self.contains_spec(p),
    {
        !self.contains(p)
    }
}

} // verus!
