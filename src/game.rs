use vstd::prelude::*;
use crate::food::{is_free, is_full, spawn_position};
use crate::grid::{stepped, Arena, Direction, Position};
use crate::snake::{advanced, fatal_move, Snake};

verus! {

/// The signals one tick produced: whether food was eaten (growth) and
/// whether the round ended (game over).
#[derive(Clone, Copy, Debug, PartialEq, Eq, Structural)]
pub struct TickOutcome {
    pub ate: bool,
    pub game_over: bool,
}

/// Whether a head at `p` can step once in any direction without leaving `i32`.
pub open spec fn roomy(p: Position) -> bool {
    i32::MIN < p.x < i32::MAX && i32::MIN < p.y < i32::MAX
}

/// The segments after a tick that did not end the round: the moved body,
/// with one more segment where the tail stood before the move when food was
/// eaten.
pub open spec fn after_move(cells: Seq<Position>, d: Direction, ate: bool) -> Seq<Position> {
    if ate {
        advanced(cells, d).push(cells.last())
    } else {
        advanced(cells, d)
    }
}

/// Growth keeps the body continuous: after a tick that eats, the new last
/// segment stands where the tail stood before the move, and the snake is one
/// segment longer.
pub proof fn lemma_growth_continuity(cells: Seq<Position>, d: Direction)
    requires
        cells.len() >= 2,
    ensures
        after_move(cells, d, true).len() == cells.len() + 1,
        after_move(cells, d, true).last() == cells.last(),
        after_move(cells, d, true).subrange(0, cells.len() as int) == advanced(cells, d),
{
    assert(after_move(cells, d, true).subrange(0, cells.len() as int) =~= advanced(cells, d));
}

/// The state of a round: the field, the snake, and the food, if any.
pub struct Game {
    arena: Arena,
    snake: Snake,
    food: Option<Position>,
}

impl Game {
    /// The playing field.
    pub closed spec fn field(&self) -> Arena {
        self.arena
    }

    /// Segment positions, head first.
    pub closed spec fn cells(&self) -> Seq<Position> {
        self.snake.cells()
    }

    /// The direction the head faces.
    pub closed spec fn heading(&self) -> Direction {
        self.snake.heading()
    }

    /// The food's position, if food is present.
    pub closed spec fn food_at(&self) -> Option<Position> {
        self.food
    }

    /// The field is non-empty, the snake has a head and a body, and its head
    /// can take a step in any direction.
    pub open spec fn wf(&self) -> bool {
        &&& self.field().wf()
        &&& self.cells().len() >= 2
        &&& roomy(self.cells()[0])
    }

    /// The snake is in its starting configuration and no food is present.
    pub open spec fn is_reset(&self) -> bool {
        &&& self.cells() == crate::snake::start_cells()
        &&& self.heading() == Direction::Up
        &&& self.food_at().is_none()
    }

    /// Where the head would go on the next tick.
    pub open spec fn next_head(&self) -> Position {
        stepped(self.cells()[0], self.heading())
    }

    /// Whether the next tick ends the round.
    pub open spec fn next_is_fatal(&self) -> bool {
        fatal_move(self.field(), self.cells(), self.heading())
    }

    /// Whether the next tick eats the food.
    pub open spec fn next_eats(&self) -> bool {
        self.food_at() == Some(self.next_head())
    }

    /// A new round on `arena`: a fresh snake and no food.
    pub fn new(arena: Arena) -> (r: Game)
        requires
            arena.wf(),
        ensures
            r.wf(),
            r.is_reset(),
            r.field() == arena,
    {
        let snake = Snake::new();
        Game { arena, snake, food: None }
    }

    /// A round in the given state.
    pub fn from_parts(arena: Arena, snake: Snake, food: Option<Position>) -> (r: Game)
        requires
            arena.wf(),
            snake.wf(),
            roomy(snake.cells()[0]),
        ensures
            r.wf(),
            r.field() == arena,
            r.cells() == snake.cells(),
            r.heading() == snake.heading(),
            r.food_at() == food,
    {
        Game { arena, snake, food }
    }

    /// The playing field.
    pub fn arena(&self) -> (r: Arena)
        ensures
            r == self.field(),
    {
        self.arena
    }

    /// The snake.
    pub fn snake(&self) -> (r: &Snake)
        ensures
            r.cells() == self.cells(),
            r.heading() == self.heading(),
    {
        &self.snake
    }

    /// The food's position, if food is present.
    pub fn food(&self) -> (r: Option<Position>)
        ensures
            r == self.food_at(),
    {
        self.food
    }

    /// Applies the player's intent: `None` keeps the current direction, and a
    /// turn to the opposite of the current direction is ignored.
    pub fn steer(&mut self, intent: Option<Direction>)
        requires
            old(self).wf(),
        ensures
            final(self).wf(),
            final(self).field() == old(self).field(),
            final(self).cells() == old(self).cells(),
            final(self).food_at() == old(self).food_at(),
            final(self).heading() == match intent {
                Some(d) => if d == old(self).heading().opposite_spec() {
                    old(self).heading()
                } else {
                    d
                },
                None => old(self).heading(),
            },
    {
        if let Some(d) = intent {
            self.snake.set_head_direction(d);
        }
    }

    /// Movement: advances the snake one cell and reports whether the round ends.
    fn move_snake(&mut self) -> (dead: bool)
        requires
            old(self).wf(),
        ensures
            final(self).field() == old(self).field(),
            final(self).cells() == advanced(old(self).cells(), old(self).heading()),
            final(self).heading() == old(self).heading(),
            final(self).food_at() == old(self).food_at(),
            dead == old(self).next_is_fatal(),
    {
        self.snake.advance(&self.arena)
    }

    /// Eating: when the head stands on the food, the food is removed and a
    /// growth signal is returned.
    fn eat(&mut self) -> (grow: bool)
        requires
            old(self).cells().len() >= 2,
        ensures
            final(self).field() == old(self).field(),
            final(self).cells() == old(self).cells(),
            final(self).heading() == old(self).heading(),
            grow == (old(self).food_at() == Some(old(self).cells()[0])),
            final(self).food_at() == if grow {
                None
            } else {
                old(self).food_at()
            },
    {
        let head = self.snake.head();
        match self.food {
            Some(f) => {
                if f == head {
                    self.food = None;
                    true
                } else {
                    false
                }
            },
            None => false,
        }
    }

    /// Reset: removes the food and puts the snake back in its starting
    /// configuration.
    fn reset(&mut self)
        ensures
            final(self).field() == old(self).field(),
            final(self).is_reset(),
    {
        self.snake.initialize();
        self.food = None;
    }

    /// One tick, in order: movement, eating, growth, reset. Growth adds a
    /// segment where the tail stood before the move; a fatal move resets the
    /// round after the other steps.
    pub fn tick(&mut self) -> (r: TickOutcome)
        requires
            old(self).wf(),
        ensures
            final(self).wf(),
            final(self).field() == old(self).field(),
            r.game_over == old(self).next_is_fatal(),
            r.ate == old(self).next_eats(),
            r.game_over ==> final(self).is_reset(),
            !r.game_over ==> {
                &&& final(self).cells() == after_move(
                    old(self).cells(),
                    old(self).heading(),
                    r.ate,
                )
                &&& final(self).heading() == old(self).heading()
                &&& final(self).food_at() == if r.ate {
                    None
                } else {
                    old(self).food_at()
                }
            },
    {
        let old_tail = self.snake.tail();
        let game_over = self.move_snake();
        let ate = self.eat();
        if ate {
            self.snake.append_segment(old_tail);
        }
        if game_over {
            self.reset();
        } else {
            assert(self.field().contains_spec(self.cells()[0]));
        }
        TickOutcome { ate, game_over }
    }

    /// Places food on a free cell, drawn at random, when none is present.
    /// Food stays absent only when the field is full.
    pub fn spawn_food(&mut self)
        requires
            old(self).wf(),
        ensures
            final(self).wf(),
            final(self).field() == old(self).field(),
            final(self).cells() == old(self).cells(),
            final(self).heading() == old(self).heading(),
            old(self).food_at().is_some() ==> final(self).food_at() == old(self).food_at(),
            old(self).food_at().is_none() ==> (final(self).food_at().is_none() <==> is_full(
                old(self).field(),
                old(self).cells(),
            )),
            old(self).food_at().is_none() ==> (final(self).food_at() matches Some(p) ==> is_free(
                old(self).field(),
                old(self).cells(),
                p,
            )),
    {
        if self.food.is_none() {
            let occupied = self.snake.segments();
            self.food = spawn_position(&self.arena, &occupied);
        }
    }
}

} // verus!
