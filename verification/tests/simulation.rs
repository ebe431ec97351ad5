use snake_core::grid::{Direction, Position, ARENA_HEIGHT, ARENA_WIDTH};
use snake_core::sim::{Simulation, INITIAL_FOOD_COUNT};

fn seg(s: &Simulation, i: usize) -> Position {
    s.positions[s.chain[i]]
}

#[test]
fn initial_state() {
    let s = Simulation::new();
    assert_eq!(s.chain.len(), 2);
    assert_eq!(seg(&s, 0), Position { x: 3, y: 3 });
    assert_eq!(seg(&s, 1), Position { x: 3, y: 2 });
    assert_eq!(s.head_dir, Direction::Up);
    assert_eq!(s.committed_dir, Direction::Up);
    assert!(s.last_segment_pos.is_none());
    assert!(s.food.is_none());
    assert_eq!(s.growth_events, 0);
    assert_eq!(s.spawn_requests, INITIAL_FOOD_COUNT);
}

#[test]
fn opposite_exact_values() {
    assert_eq!(Direction::Up.opposite(), Direction::Down);
    assert_eq!(Direction::Down.opposite(), Direction::Up);
    assert_eq!(Direction::Left.opposite(), Direction::Right);
    assert_eq!(Direction::Right.opposite(), Direction::Left);
}

#[test]
fn opposite_involution() {
    for d in [Direction::Up, Direction::Down, Direction::Left, Direction::Right] {
        assert_eq!(d.opposite().opposite(), d);
    }
}

#[test]
fn step_exact_values() {
    let p = Position { x: 3, y: 3 };
    assert_eq!(p.step(Direction::Up), Position { x: 3, y: 4 });
    assert_eq!(p.step(Direction::Down), Position { x: 3, y: 2 });
    assert_eq!(p.step(Direction::Left), Position { x: 2, y: 3 });
    assert_eq!(p.step(Direction::Right), Position { x: 4, y: 3 });
}

// Head at (3,3) heading up, one segment at (3,2): after one tick the head
// is at (3,4), the segment at (3,3), the chain length is unchanged, and
// the cached tail position is (3,2).
#[test]
fn one_tick_moves_head_and_follower() {
    let mut s = Simulation::new();
    s.tick();
    assert_eq!(seg(&s, 0), Position { x: 3, y: 4 });
    assert_eq!(seg(&s, 1), Position { x: 3, y: 3 });
    assert_eq!(s.chain.len(), 2);
    assert_eq!(s.last_segment_pos, Some(Position { x: 3, y: 2 }));
    assert_eq!(s.committed_dir, Direction::Up);
}

// Food at (3,4): the tick above moves the head onto it, which despawns
// the food, signals growth, appends a segment at the cached (3,2), and
// fires a spawn request that puts fresh food on the board.
#[test]
fn food_overlap_grows_chain() {
    let mut s = Simulation::new();
    s.spawn_requests = 0;
    s.place_food(Position { x: 3, y: 4 });
    s.tick();
    assert_eq!(s.chain.len(), 3);
    assert_eq!(seg(&s, 0), Position { x: 3, y: 4 });
    assert_eq!(seg(&s, 1), Position { x: 3, y: 3 });
    assert_eq!(seg(&s, 2), Position { x: 3, y: 2 });
    let f = s.food.expect("a spawn request must leave fresh food");
    assert!(0 <= f.position.x && f.position.x <= ARENA_WIDTH);
    assert!(0 <= f.position.y && f.position.y <= ARENA_HEIGHT);
}

// Pressing down immediately after a tick committed heading up is a direct
// reversal and is rejected; the heading stays up.
#[test]
fn reversal_rejected() {
    let mut s = Simulation::new();
    s.snake_input(false, true, false, false);
    assert_eq!(s.head_dir, Direction::Up);
}

#[test]
fn non_reversal_accepted() {
    let mut s = Simulation::new();
    s.snake_input(false, false, true, false);
    assert_eq!(s.head_dir, Direction::Left);
}

// The filter compares against the heading committed on the last movement
// tick, so two turns between ticks may both be accepted, and a reversal
// of the committed heading is rejected even after an accepted turn.
#[test]
fn filter_uses_committed_heading() {
    let mut s = Simulation::new();
    s.snake_input(false, false, true, false);
    assert_eq!(s.head_dir, Direction::Left);
    s.snake_input(false, false, false, true);
    assert_eq!(s.head_dir, Direction::Right);
    s.snake_input(false, true, false, false);
    assert_eq!(s.head_dir, Direction::Right);
    s.tick();
    assert_eq!(s.committed_dir, Direction::Right);
    s.snake_input(false, false, true, false);
    assert_eq!(s.head_dir, Direction::Right);
}

#[test]
fn input_priority_up_first() {
    let mut s = Simulation::new();
    s.tick();
    s.snake_input(false, false, true, true);
    assert_eq!(s.head_dir, Direction::Left);
    let mut s = Simulation::new();
    s.snake_input(true, true, true, true);
    assert_eq!(s.head_dir, Direction::Up);
    // Priority picks the candidate before the filter runs: down beats
    // left, and the down candidate is then rejected as a reversal, so
    // the heading stays up rather than turning left.
    let mut s = Simulation::new();
    s.snake_input(false, true, true, false);
    assert_eq!(s.head_dir, Direction::Up);
}

#[test]
fn no_input_is_no_op() {
    let mut s = Simulation::new();
    s.snake_input(false, false, false, false);
    assert_eq!(s.head_dir, Direction::Up);
    assert_eq!(s.committed_dir, Direction::Up);
}

// Food is destroyed and exactly one growth event is queued if and only if
// the head and the food share a cell when collision is checked.
#[test]
fn collision_exactly_on_head_overlap() {
    let mut s = Simulation::new();
    s.place_food(Position { x: 5, y: 5 });
    s.collision();
    assert!(s.food.is_some());
    assert_eq!(s.growth_events, 0);

    s.place_food(Position { x: 3, y: 3 });
    s.collision();
    assert!(s.food.is_none());
    assert_eq!(s.growth_events, 1);
}

// Stepping onto the body is not a collision condition: only the head's
// cell counts.
#[test]
fn collision_ignores_body_segments() {
    let mut s = Simulation::new();
    s.place_food(Position { x: 3, y: 2 });
    s.collision();
    assert!(s.food.is_some());
    assert_eq!(s.growth_events, 0);
}

// A growth event arriving before the first movement tick finds the tail
// cache empty: no segment is appended and the event is dropped for good.
#[test]
fn growth_before_first_tick_is_dropped() {
    let mut s = Simulation::new();
    s.spawn_requests = 0;
    s.place_food(Position { x: 3, y: 3 });
    s.collision();
    assert_eq!(s.growth_events, 1);
    s.growth_event();
    assert_eq!(s.chain.len(), 2);
    assert_eq!(s.growth_events, 0);
    assert_eq!(s.spawn_requests, 0);
    s.growth_event();
    assert_eq!(s.chain.len(), 2);
}

#[test]
fn accepted_growth_appends_exactly_one() {
    let mut s = Simulation::new();
    s.spawn_requests = 0;
    s.tick();
    s.place_food(Position { x: 3, y: 4 });
    s.collision();
    assert_eq!(s.growth_events, 1);
    s.growth_event();
    assert_eq!(s.chain.len(), 3);
    assert_eq!(seg(&s, 2), Position { x: 3, y: 2 });
    assert_eq!(s.spawn_requests, 1);
}

// Every queued spawn request is served and the food lands inside the
// inclusive spawn range.
#[test]
fn spawn_requests_drained_and_in_range() {
    let mut s = Simulation::new();
    assert_eq!(s.spawn_requests, 3);
    s.spawn_food_event();
    assert_eq!(s.spawn_requests, 0);
    let f = s.food.expect("a pending request must leave food");
    assert!(0 <= f.position.x && f.position.x <= ARENA_WIDTH);
    assert!(0 <= f.position.y && f.position.y <= ARENA_HEIGHT);
}

#[test]
fn spawn_with_empty_queue_changes_nothing() {
    let mut s = Simulation::new();
    s.spawn_requests = 0;
    s.place_food(Position { x: 7, y: 7 });
    s.spawn_food_event();
    assert_eq!(s.food.map(|f| f.position), Some(Position { x: 7, y: 7 }));
}

// The chain length never decreases over a run and grows by exactly one
// per eaten food.
#[test]
fn chain_length_monotone_over_run() {
    let mut s = Simulation::new();
    s.spawn_requests = 0;
    let mut prev_len = s.chain.len();
    for round in 0..6 {
        // Clear any randomly respawned food so each round is deterministic.
        s.food = None;
        if round % 2 == 0 {
            let ahead = seg(&s, 0).step(s.head_dir);
            s.place_food(ahead);
        }
        let will_hit = round % 2 == 0;
        s.tick();
        assert!(s.chain.len() >= prev_len);
        if will_hit {
            assert_eq!(s.chain.len(), prev_len + 1);
        } else {
            assert_eq!(s.chain.len(), prev_len);
        }
        prev_len = s.chain.len();
    }
    assert_eq!(s.chain.len(), 5);
}

// Movement is never bounds-checked: the head may leave the arena with no
// clamping or wraparound.
#[test]
fn movement_unguarded_at_border() {
    let mut s = Simulation::new();
    for _ in 0..8 {
        s.tick();
    }
    assert_eq!(s.positions[s.chain[0]], Position { x: 3, y: 11 });
    assert!(Position { x: 3, y: 11 }.y > ARENA_HEIGHT);
}

// Each follower occupies the cell its predecessor held one tick earlier,
// across several ticks and direction changes.
#[test]
fn follow_invariant_over_run() {
    let mut s = Simulation::new();
    s.spawn_requests = 0;
    let turns = [
        (false, false, false, false),
        (false, false, true, false),
        (false, true, false, false),
        (false, false, false, true),
    ];
    for keys in turns {
        s.snake_input(keys.0, keys.1, keys.2, keys.3);
        let before: Vec<Position> = s.chain.iter().map(|&h| s.positions[h]).collect();
        s.tick();
        assert_eq!(seg(&s, 0), before[0].step(s.committed_dir));
        for i in 1..s.chain.len() {
            assert_eq!(seg(&s, i), before[i - 1]);
        }
        assert_eq!(s.last_segment_pos, Some(before[before.len() - 1]));
    }
}
