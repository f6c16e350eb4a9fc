use arena_rollback::input::{INPUT_DASH, INPUT_LEFT, INPUT_RIGHT};
use arena_rollback::sim::{step, World, ARENA_RADIUS_SQ, FX_ONE, TURN_STEPS};

#[test]
fn initial_positions_and_headings() {
    let w = World::new();
    assert!(w.p0.alive && w.p1.alive);
    assert_eq!((w.p0.x, w.p0.y), (-FX_ONE, 0));
    assert_eq!((w.p1.x, w.p1.y), (FX_ONE, 0));
    assert_eq!(w.p0.heading, TURN_STEPS / 2);
    assert_eq!(w.p1.heading, 0);
    assert!(w.trails.is_empty());
}

#[test]
fn straight_movement_formula() {
    let mut w = World::new();
    step(&mut w, 0, INPUT_DASH);
    // player 0 faces -x and moves one step; player 1 faces +x and dashes.
    assert_eq!((w.p0.x, w.p0.y), (-FX_ONE - 1966, 0));
    assert_eq!((w.p1.x, w.p1.y), (FX_ONE + 2 * 1966, 0));
}

#[test]
fn both_flags_cancel_turning() {
    let mut w = World::new();
    let h = w.p1.heading;
    step(&mut w, 0, INPUT_LEFT | INPUT_RIGHT);
    assert_eq!(w.p1.heading, h);
}

#[test]
fn turning_steps_and_wraps() {
    let mut w = World::new();
    // player 1 starts at heading 0; a right turn wraps to the top step.
    step(&mut w, INPUT_LEFT, INPUT_RIGHT);
    assert_eq!(w.p0.heading, TURN_STEPS / 2 + 1);
    assert_eq!(w.p1.heading, TURN_STEPS - 1);
    // three lefts then four rights brings player 1 back to wrap again.
    for _ in 0..3 {
        step(&mut w, 0, INPUT_LEFT);
    }
    assert_eq!(w.p1.heading, 2);
    for _ in 0..3 {
        step(&mut w, INPUT_RIGHT, INPUT_RIGHT);
    }
    assert_eq!(w.p0.heading, TURN_STEPS / 2 + 1 - 3);
    assert_eq!(w.p1.heading, TURN_STEPS - 1);
}

#[test]
fn trails_spawn_every_other_tick_and_decay() {
    let mut w = World::new();
    step(&mut w, 0, 0);
    assert_eq!(w.trails.len(), 0);
    step(&mut w, 0, 0);
    assert_eq!(w.trails.len(), 2);
    assert_eq!(w.trails[0].owner, 0);
    assert_eq!(w.trails[1].owner, 1);
    // the segment sits one spawn offset behind the player along -x / +x
    assert_eq!(w.trails[1].x, w.p1.x - 31130);
    assert_eq!(w.trails[1].y, 0);
    for _ in 2..80 {
        step(&mut w, 0, 0);
    }
    // spawns on every even tick so far, nothing decayed yet
    assert_eq!(w.trails.len(), 80);
    step(&mut w, 0, 0);
    // tick 81: the pair spawned on tick 2 wraps its death timer and leaves
    assert_eq!(w.trails.len(), 78);
}

#[test]
fn two_players_run_off_the_board() {
    // Scenario: straight ahead with no input on the circular arena; each
    // player moves 1966 fixed-point units per tick away from the centre and
    // the boundary pass eliminates both on tick 117, the first tick with
    // squared distance beyond the arena radius.  No trail collision fires
    // first.
    let mut w = World::new();
    let mut elim0 = None;
    let mut elim1 = None;
    for tick in 1u32..=150 {
        let ev = step(&mut w, 0, 0);
        if ev.eliminated0 {
            assert!(elim0.is_none(), "second elimination event for player 0");
            elim0 = Some((tick, w.p0.x, w.p0.y));
        }
        if ev.eliminated1 {
            assert!(elim1.is_none(), "second elimination event for player 1");
            elim1 = Some((tick, w.p1.x, w.p1.y));
        }
    }
    let (t0, x0, y0) = elim0.expect("player 0 never eliminated");
    let (t1, x1, y1) = elim1.expect("player 1 never eliminated");
    assert_eq!(t0, 117);
    assert_eq!(t1, 117);
    // eliminated by the boundary: both sat strictly outside the radius
    assert!(x0 * x0 + y0 * y0 > ARENA_RADIUS_SQ);
    assert!(x1 * x1 + y1 * y1 > ARENA_RADIUS_SQ);
    assert_eq!((x0, y0), (-(FX_ONE + 117 * 1966), 0));
    assert_eq!((x1, y1), (FX_ONE + 117 * 1966, 0));
    assert!(!w.p0.alive && !w.p1.alive);
}

#[test]
fn identical_runs_are_bit_identical() {
    let inputs = [
        (1u8, 0u8),
        (1, 4),
        (3, 2),
        (0, 0),
        (2, 5),
        (4, 4),
        (1, 1),
        (0, 2),
        (5, 1),
        (0, 0),
    ];
    let mut a = World::new();
    let mut b = World::new();
    for &(i0, i1) in inputs.iter() {
        let ea = step(&mut a, i0, i1);
        let eb = step(&mut b, i0, i1);
        assert_eq!(ea, eb);
    }
    assert_eq!(a, b);
}

#[test]
fn eliminated_player_stays_frozen() {
    let mut w = World::new();
    for _ in 0..150 {
        step(&mut w, 0, 0);
    }
    assert!(!w.p0.alive && !w.p1.alive);
    let frozen0 = w.p0;
    let frozen1 = w.p1;
    for _ in 0..50 {
        let ev = step(&mut w, 7, 7);
        assert!(!ev.eliminated0);
        assert!(!ev.eliminated1);
    }
    assert_eq!(w.p0, frozen0);
    assert_eq!(w.p1, frozen1);
}

#[test]
fn circling_player_dies_on_its_own_trail() {
    // holding a turn makes the turning circle tighter than the collision
    // threshold allows: the player comes back around into its own trail
    // while still well inside the arena
    let mut w = World::new();
    let mut elim_tick = None;
    for tick in 1u32..=300 {
        let ev = step(&mut w, 0, INPUT_LEFT);
        if ev.eliminated1 {
            elim_tick = Some(tick);
            break;
        }
    }
    let t = elim_tick.expect("circling player was never eliminated");
    assert!(t < 117, "died at {t}, before the straight runner leaves the board");
    // a trail kill, not a boundary kill: the corpse lies inside the arena
    assert!(w.p1.x * w.p1.x + w.p1.y * w.p1.y <= ARENA_RADIUS_SQ);
    assert!(!w.p1.alive && w.p0.alive);
}
