use snake::food::{free_cells, spawn_position};
use snake::game::{Game, TickOutcome};
use snake::grid::{step, Arena, Direction, Position, ARENA_HEIGHT, ARENA_WIDTH};
use snake::snake::Snake;

fn pos(x: i32, y: i32) -> Position {
    Position { x, y }
}

fn snake_at(cells: &[(i32, i32)], d: Direction) -> Snake {
    Snake::from_segments(cells.iter().map(|&(x, y)| pos(x, y)).collect(), d)
}

const ALL: [Direction; 4] = [Direction::Up, Direction::Down, Direction::Left, Direction::Right];

#[test]
fn opposite_pairs() {
    assert_eq!(Direction::Up.opposite(), Direction::Down);
    assert_eq!(Direction::Down.opposite(), Direction::Up);
    assert_eq!(Direction::Left.opposite(), Direction::Right);
    assert_eq!(Direction::Right.opposite(), Direction::Left);
    for d in ALL {
        assert_eq!(d.opposite().opposite(), d);
        assert_ne!(d.opposite(), d);
    }
}

#[test]
fn step_offsets_by_one() {
    assert_eq!(step(pos(5, 5), Direction::Up), pos(5, 6));
    assert_eq!(step(pos(5, 5), Direction::Down), pos(5, 4));
    assert_eq!(step(pos(5, 5), Direction::Left), pos(4, 5));
    assert_eq!(step(pos(5, 5), Direction::Right), pos(6, 5));
}

#[test]
fn opposite_direction_is_ignored() {
    for d in ALL {
        let mut s = snake_at(&[(5, 5), (5, 4)], d);
        s.set_head_direction(d.opposite());
        assert_eq!(s.direction(), d);
        assert_eq!(s.segments(), vec![pos(5, 5), pos(5, 4)]);
    }
}

#[test]
fn other_directions_are_taken() {
    let mut s = Snake::new();
    s.set_head_direction(Direction::Left);
    assert_eq!(s.direction(), Direction::Left);
    s.set_head_direction(Direction::Up);
    assert_eq!(s.direction(), Direction::Up);
    s.set_head_direction(Direction::Up);
    assert_eq!(s.direction(), Direction::Up);
}

#[test]
fn fresh_snake() {
    let s = Snake::new();
    assert_eq!(s.segments(), vec![pos(3, 3), pos(3, 2)]);
    assert_eq!(s.direction(), Direction::Up);
    assert_eq!(s.len(), 2);
    assert_eq!(s.head(), pos(3, 3));
    assert_eq!(s.tail(), pos(3, 2));
}

#[test]
fn initialize_discards_previous_snake() {
    let mut s = snake_at(&[(9, 9), (8, 9), (7, 9), (7, 8)], Direction::Right);
    s.initialize();
    assert_eq!(s.segments(), vec![pos(3, 3), pos(3, 2)]);
    assert_eq!(s.direction(), Direction::Up);
}

#[test]
fn append_segment_adds_tail() {
    let mut s = Snake::new();
    s.append_segment(pos(3, 1));
    assert_eq!(s.segments(), vec![pos(3, 3), pos(3, 2), pos(3, 1)]);
    assert_eq!(s.tail(), pos(3, 1));
}

#[test]
fn body_follows_head() {
    let arena = Arena::standard();
    let mut s = snake_at(&[(5, 5), (5, 4), (4, 4), (4, 3)], Direction::Right);
    let before = s.segments();
    let dead = s.advance(&arena);
    assert!(!dead);
    let after = s.segments();
    assert_eq!(after, vec![pos(6, 5), pos(5, 5), pos(5, 4), pos(4, 4)]);
    for i in 1..after.len() {
        assert_eq!(after[i], before[i - 1]);
    }
}

#[test]
fn growth_keeps_continuity() {
    let snake = snake_at(&[(5, 4), (5, 3), (6, 3)], Direction::Up);
    let mut g = Game::from_parts(Arena::standard(), snake, Some(pos(5, 5)));
    let out = g.tick();
    assert_eq!(out, TickOutcome { ate: true, game_over: false });
    assert_eq!(g.snake().segments(), vec![pos(5, 5), pos(5, 4), pos(5, 3), pos(6, 3)]);
    assert_eq!(g.snake().len(), 4);
    assert_eq!(g.food(), None);
}

#[test]
fn reset_restores_start() {
    let snake = snake_at(&[(0, 7), (1, 7), (2, 7), (3, 7), (4, 7)], Direction::Left);
    let mut g = Game::from_parts(Arena::standard(), snake, Some(pos(10, 10)));
    let out = g.tick();
    assert!(out.game_over);
    assert!(!out.ate);
    assert_eq!(g.snake().segments(), vec![pos(3, 3), pos(3, 2)]);
    assert_eq!(g.snake().direction(), Direction::Up);
    assert_eq!(g.food(), None);
}

#[test]
fn reset_after_growth_in_same_tick() {
    // The head lands on food that lies on the body's old cell.
    let snake = snake_at(&[(5, 5), (6, 5), (6, 4), (5, 4)], Direction::Down);
    let mut g = Game::from_parts(Arena::standard(), snake, Some(pos(5, 4)));
    let out = g.tick();
    assert_eq!(out, TickOutcome { ate: true, game_over: true });
    assert_eq!(g.snake().segments(), vec![pos(3, 3), pos(3, 2)]);
    assert_eq!(g.food(), None);
}

#[test]
fn moving_onto_old_tail_cell_is_fatal() {
    let arena = Arena::standard();
    let mut s = snake_at(&[(5, 5), (6, 5), (6, 4), (5, 4)], Direction::Down);
    assert!(s.advance(&arena));
    assert_eq!(s.segments(), vec![pos(5, 4), pos(5, 5), pos(6, 5), pos(6, 4)]);
}

#[test]
fn boundary_detection_is_exact() {
    let arena = Arena::new(20, 20);
    assert_eq!(arena, Arena::standard());
    assert_eq!((ARENA_WIDTH, ARENA_HEIGHT), (20, 20));
    let cases = [
        ([(20, 5), (19, 5)], Direction::Right, true),
        ([(5, 0), (5, 1)], Direction::Down, true),
        ([(5, 20), (5, 19)], Direction::Up, true),
        ([(19, 20), (18, 20)], Direction::Right, true),
        ([(18, 19), (17, 19)], Direction::Right, false),
        ([(19, 18), (19, 17)], Direction::Up, false),
        ([(1, 0), (2, 0)], Direction::Left, false),
        ([(0, 5), (1, 5)], Direction::Left, true),
    ];
    for (cells, d, fatal) in cases {
        let mut s = snake_at(&cells, d);
        assert_eq!(s.advance(&arena), fatal, "{:?} {:?}", cells, d);
    }
    assert!(arena.out_of_bounds(pos(20, 20)));
    assert!(arena.out_of_bounds(pos(21, 5)));
    assert!(arena.out_of_bounds(pos(5, -1)));
    assert!(arena.out_of_bounds(pos(5, 21)));
    assert!(!arena.out_of_bounds(pos(19, 19)));
    assert!(arena.contains(pos(0, 0)));
}

#[test]
fn self_collision_guard_example() {
    let mut g = Game::new(Arena::standard());
    assert_eq!(g.snake().segments(), vec![pos(3, 3), pos(3, 2)]);
    g.steer(Some(Direction::Down));
    assert_eq!(g.snake().direction(), Direction::Up);
    for _ in 0..2 {
        let out = g.tick();
        assert!(!out.game_over);
    }
    g.steer(Some(Direction::Down));
    assert_eq!(g.snake().direction(), Direction::Up);
    let out = g.tick();
    assert!(!out.game_over);
    assert_eq!(g.snake().segments(), vec![pos(3, 6), pos(3, 5)]);
}

#[test]
fn steer_without_intent_keeps_direction() {
    let mut g = Game::new(Arena::standard());
    g.steer(None);
    assert_eq!(g.snake().direction(), Direction::Up);
    g.steer(Some(Direction::Left));
    assert_eq!(g.snake().direction(), Direction::Left);
}

#[test]
fn eating_example() {
    let snake = snake_at(&[(5, 4), (5, 3)], Direction::Up);
    let mut g = Game::from_parts(Arena::standard(), snake, Some(pos(5, 5)));
    let out = g.tick();
    assert!(out.ate);
    assert!(!out.game_over);
    assert_eq!(g.food(), None);
    assert_eq!(g.snake().head(), pos(5, 5));
    assert_eq!(g.snake().len(), 3);
    let out = g.tick();
    assert_eq!(out, TickOutcome { ate: false, game_over: false });
    assert_eq!(g.snake().segments(), vec![pos(5, 6), pos(5, 5), pos(5, 4)]);
}

#[test]
fn food_elsewhere_stays() {
    let mut g = Game::from_parts(Arena::standard(), Snake::new(), Some(pos(10, 10)));
    let out = g.tick();
    assert_eq!(out, TickOutcome { ate: false, game_over: false });
    assert_eq!(g.food(), Some(pos(10, 10)));
    assert_eq!(g.snake().segments(), vec![pos(3, 4), pos(3, 3)]);
}

#[test]
fn free_cells_lists_unoccupied_cells() {
    let arena = Arena::new(3, 2);
    let occupied = vec![pos(0, 0), pos(2, 1), pos(7, 7)];
    let free = free_cells(&arena, &occupied);
    assert_eq!(free, vec![pos(1, 0), pos(2, 0), pos(0, 1), pos(1, 1)]);
}

#[test]
fn food_never_overlaps_snake() {
    let arena = Arena::new(4, 4);
    let occupied = vec![pos(0, 0), pos(1, 0), pos(2, 0), pos(3, 0), pos(0, 1), pos(1, 1)];
    for _ in 0..200 {
        let p = spawn_position(&arena, &occupied).unwrap();
        assert!(!occupied.contains(&p));
        assert!(arena.contains(p));
    }
}

#[test]
fn food_takes_the_only_free_cell() {
    let arena = Arena::new(2, 2);
    let occupied = vec![pos(0, 0), pos(1, 0), pos(1, 1)];
    for _ in 0..20 {
        assert_eq!(spawn_position(&arena, &occupied), Some(pos(0, 1)));
    }
}

#[test]
fn full_field_gets_no_food() {
    let arena = Arena::new(2, 1);
    let occupied = vec![pos(1, 0), pos(0, 0)];
    assert_eq!(spawn_position(&arena, &occupied), None);
}

#[test]
fn spawn_food_in_game() {
    let mut g = Game::new(Arena::standard());
    g.spawn_food();
    let f = g.food().unwrap();
    assert!(Arena::standard().contains(f));
    assert!(!g.snake().segments().contains(&f));
    g.spawn_food();
    assert_eq!(g.food(), Some(f));
}

#[test]
fn spawn_food_on_crowded_field() {
    let snake = snake_at(&[(0, 0), (1, 0)], Direction::Up);
    let mut g = Game::from_parts(Arena::new(3, 1), snake, None);
    g.spawn_food();
    assert_eq!(g.food(), Some(pos(2, 0)));
}
