use vstd::prelude::*;
use crate::grid::{can_step, step, stepped, Arena, Direction, Position};

verus! {

/// Where the head of a fresh snake starts.
pub open spec fn start_head() -> Position {
    Position { x: 3, y: 3 }
}

/// Where the one body segment of a fresh snake starts, directly below the head.
pub open spec fn start_tail() -> Position {
    Position { x: 3, y: 2 }
}

/// The segments of a fresh snake, head first.
pub open spec fn start_cells() -> Seq<Position> {
    seq![start_head(), start_tail()]
}

/// The segments after one move: the head is offset in direction `d`, and
/// every other segment takes the place its predecessor held before the move.
pub open spec fn advanced(cells: Seq<Position>, d: Direction) -> Seq<Position>
    recommends
        cells.len() >= 1,
{
    Seq::new(cells.len(), |i: int| if i == 0 { stepped(cells[0], d) } else { cells[i - 1] })
}

/// Whether moving the head of `cells` in direction `d` ends the round: the new
/// head is off the field, or on a cell that some segment held before the move.
pub open spec fn fatal_move(arena: Arena, cells: Seq<Position>, d: Direction) -> bool
    recommends
        cells.len() >= 1,
{
    let head = stepped(cells[0], d);
    !arena.contains_spec(head) || cells.contains(head)
}

/// The snake: an ordered sequence of segment positions, head first, and the
/// direction the head faces.
pub struct Snake {
    segments: Vec<Position>,
    direction: Direction,
}

impl Snake {
    /// Segment positions, head first.
    pub closed spec fn cells(&self) -> Seq<Position> {
        self.segments@
    }

    /// The direction the head faces.
    pub closed spec fn heading(&self) -> Direction {
        self.direction
    }

    /// A snake has a head and at least one body segment.
    pub open spec fn wf(&self) -> bool {
        self.cells().len() >= 2
    }

    /// Whether the snake is in its starting configuration.
    pub open spec fn is_fresh(&self) -> bool {
        self.cells() == start_cells() && self.heading() == Direction::Up
    }

    /// Whether the head can take one more step without leaving `i32`.
    pub open spec fn can_advance(&self) -> bool {
        can_step(self.cells()[0], self.heading())
    }

    /// A snake in the starting configuration: head at (3, 3) facing up, one
    /// body segment at (3, 2).
    pub fn new() -> (r: Snake)
        ensures
            r.wf(),
            r.is_fresh(),
    {
        let r = Snake {
            segments: vec![Position { x: 3, y: 3 }, Position { x: 3, y: 2 }],
            direction: Direction::Up,
        };
        assert(r.cells() =~= start_cells());
        r
    }

    /// A snake with the given segments, head first, facing `direction`.
    pub fn from_segments(segments: Vec<Position>, direction: Direction) -> (r: Snake)
        requires
            segments@.len() >= 2,
        ensures
            r.wf(),
            r.cells() == segments@,
            r.heading() == direction,
    {
        Snake { segments, direction }
    }

    /// Discards the current segments and puts the snake back in the starting
    /// configuration.
    pub fn initialize(&mut self)
        ensures
            final(self).wf(),
            final(self).is_fresh(),
    {
        *self = Snake::new();
    }

    /// A snapshot of the segment positions, head first.
    pub fn segments(&self) -> (r: Vec<Position>)
        ensures
            r@ == self.cells(),
    {
        self.segments.clone()
    }

    /// The number of segments.
    pub fn len(&self) -> (r: usize)
        ensures
            r == self.cells().len(),
    {
        self.segments.len()
    }

    /// The position of the head.
    pub fn head(&self) -> (r: Position)
        requires
            self.wf(),
        ensures
            r == self.cells()[0],
    {
        self.segments[0]
    }

    /// The position of the last segment.
    pub fn tail(&self) -> (r: Position)
        requires
            self.wf(),
        ensures
            r == self.cells().last(),
    {
        self.segments[self.segments.len() - 1]
    }

    /// The direction the head faces.
    pub fn direction(&self) -> (r: Direction)
        ensures
            r == self.heading(),
    {
        self.direction
    }

    /// Turns the head to `d`, unless `d` is the opposite of where it faces
    /// now, in which case nothing changes.
    pub fn set_head_direction(&mut self, d: Direction)
        ensures
            final(self).cells() == old(self).cells(),
            final(self).heading() == if d == old(self).heading().opposite_spec() {
                old(self).heading()
            } else {
                d
            },
    {
        if d != self.direction.opposite() {
            self.direction = d;
        }
    }

    /// Adds a new last segment at `at`.
    pub fn append_segment(&mut self, at: Position)
        ensures
            final(self).cells() == old(self).cells().push(at),
            final(self).heading() == old(self).heading(),
    {
        self.segments.push(at);
    }

    /// Moves the snake one cell: the head steps in its direction and each
    /// other segment takes its predecessor's position from before the move.
    /// Returns whether the move ends the round.
    pub fn advance(&mut self, arena: &Arena) -> (dead: bool)
        requires
            old(self).wf(),
            old(self).can_advance(),
        ensures
            final(self).cells() == advanced(old(self).cells(), old(self).heading()),
            final(self).cells().len() == old(self).cells().len(),
            final(self).cells()[0] == stepped(old(self).cells()[0], old(self).heading()),
            forall|i: int|
                1 <= i < old(self).cells().len() ==> #[trigger] final(self).cells()[i] == old(
                    self,
                ).cells()[i - 1],
            final(self).heading() == old(self).heading(),
            dead == fatal_move(*arena, old(self).cells(), old(self).heading()),
    {
        let ghost before = self.cells();
        let ghost dir = self.direction;
        let n = self.segments.len();
        let new_head = step(self.segments[0], self.direction);
        let dead = arena.out_of_bounds(new_head) || contains(&self.segments, new_head);
        let mut prev = self.segments[0];
        self.segments.set(0, new_head);
        let mut i: usize = 1;
        while i < n
            invariant
                1 <= i <= n,
                n == before.len(),
                self.segments@.len() == n,
                prev == before[i - 1],
                self.direction == dir,
                self.segments@[0] == stepped(before[0], dir),
                forall|j: int| 1 <= j < i ==> self.segments@[j] == before[j - 1],
                forall|j: int| i <= j < n ==> self.segments@[j] == before[j],
            decreases n - i,
        {
            let cur = self.segments[i];
            self.segments.set(i, prev);
            prev = cur;
            i = i + 1;
        }
        assert(self.cells() =~= advanced(before, dir));
        dead
    }
}

/// Whether `p` is one of `cells`.
pub fn contains(cells: &Vec<Position>, p: Position) -> (r: bool)
    ensures
        r == cells@.contains(p),
{
    let mut i: usize = 0;
    while i < cells.len()
        invariant
            i <= cells@.len(),
            forall|j: int| 0 <= j < i ==> cells@[j] != p,
        decreases cells@.len() - i,
    {
        if cells[i] == p {
            return true;
        }
        i = i + 1;
    }
    false
}

} // verus!
