use vstd::prelude::*;
use rand::Rng;
use crate::grid::{Arena, Position};
use crate::snake::contains;

verus! {

/// Whether food may be placed at `p`: on the field and not occupied.
pub open spec fn is_free(arena: Arena, occupied: Seq<Position>, p: Position) -> bool {
    arena.contains_spec(p) && !occupied.contains(p)
}

/// Whether every cell of the field is occupied.
pub open spec fn is_full(arena: Arena, occupied: Seq<Position>) -> bool {
    forall|p: Position| arena.contains_spec(p) ==> #[trigger] occupied.contains(p)
}

/// Whether `a` comes before `b` when cells are listed row by row, from the
/// bottom row up and from left to right within a row.
pub open spec fn row_major_before(a: Position, b: Position) -> bool {
    a.y < b.y || (a.y == b.y && a.x < b.x)
}

/// Relies on rand's `thread_rng().gen_range(0..n)`: a value drawn uniformly
/// from `0..n`, which panics only when the range is empty.
#[verifier::external_body]
fn random_below(n: usize) -> (r: usize)
    requires
        n > 0,
    ensures
        r < n,
{
    rand::thread_rng().gen_range(0..n)
}

/// Every free cell of the field, each listed once, in row-major order.
pub fn free_cells(arena: &Arena, occupied: &Vec<Position>) -> (r: Vec<Position>)
    ensures
        forall|p: Position| #[trigger] r@.contains(p) <==> is_free(*arena, occupied@, p),
        forall|i: int, j: int|
            0 <= i < j < r@.len() ==> row_major_before(#[trigger] r@[i], #[trigger] r@[j]),
{
    let mut r: Vec<Position> = Vec::new();
    let mut y: i32 = 0;
    while y < arena.height
        invariant
            0 <= y,
            arena.height >= 0 ==> y <= arena.height,
            forall|p: Position| #[trigger]
                r@.contains(p) <==> (is_free(*arena, occupied@, p) && p.y < y),
            forall|i: int, j: int|
                0 <= i < j < r@.len() ==> row_major_before(#[trigger] r@[i], #[trigger] r@[j]),
        decreases arena.height - y,
    {
        let mut x: i32 = 0;
        while x < arena.width
            invariant
                0 <= y < arena.height,
                0 <= x,
                arena.width >= 0 ==> x <= arena.width,
                forall|p: Position| #[trigger]
                    r@.contains(p) <==> (is_free(*arena, occupied@, p) && (p.y < y || (p.y == y
                        && p.x < x))),
                forall|i: int, j: int|
                    0 <= i < j < r@.len() ==> row_major_before(#[trigger] r@[i], #[trigger] r@[j]),
            decreases arena.width - x,
        {
            let c = Position { x, y };
            if !contains(occupied, c) {
                let ghost before = r@;
                assert(!before.contains(c));
                r.push(c);
                assert forall|i: int, j: int|
                    0 <= i < j < r@.len() implies row_major_before(r@[i], r@[j]) by {
                    if j == r@.len() - 1 {
                        assert(before.contains(r@[i]));
                    }
                }
                assert forall|p: Position| #[trigger] r@.contains(p) <==> (before.contains(p) || p
                    == c) by {
                    if p == c {
                        assert(r@[r@.len() - 1] == c);
                    }
                    if before.contains(p) {
                        let j = choose|j: int| 0 <= j < before.len() && before[j] == p;
                        assert(r@[j] == p);
                    }
                }
            }
            x = x + 1;
        }
        y = y + 1;
    }
    r
}

/// A cell for new food, drawn uniformly among the free cells of the field;
/// `None` exactly when every cell is occupied.
pub fn spawn_position(arena: &Arena, occupied: &Vec<Position>) -> (r: Option<Position>)
    ensures
        r.is_none() <==> is_full(*arena, occupied@),
        r matches Some(p) ==> is_free(*arena, occupied@, p),
{
    let free = free_cells(arena, occupied);
    if free.len() == 0 {
        assert forall|p: Position| arena.contains_spec(p) implies #[trigger] occupied@.contains(p) by {
            if !occupied@.contains(p) {
                assert(free@.contains(p));
            }
        }
        None
    } else {
        let k = random_below(free.len());
        assert(free@.contains(free@[k as int]));
        proof {
            let p = free@[0];
            assert(free@.contains(p));
            assert(!occupied@.contains(p) && arena.contains_spec(p));
        }
        Some(free[k])
    }
}

} // verus!
