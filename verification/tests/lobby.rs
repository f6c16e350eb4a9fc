use arena_rollback::lobby::{Lobby, SessionPhase, INPUT_DELAY, NUM_PLAYERS};

#[test]
fn lone_participant_never_starts() {
    // Scenario: matchmaking with a single participant present polls
    // indefinitely and never transitions into the game.
    let mut l = Lobby::new();
    for _ in 0..10_000 {
        assert!(l.poll(1).is_none());
        assert_eq!(l.phase, SessionPhase::Matchmaking);
    }
    for _ in 0..10_000 {
        assert!(l.poll(0).is_none());
    }
    assert_eq!(l.phase, SessionPhase::Matchmaking);
}

#[test]
fn starts_exactly_once_with_two_peers() {
    let mut l = Lobby::new();
    assert!(l.poll(1).is_none());
    let plan = l.poll(2).expect("two participants should start the session");
    assert_eq!(plan.num_players, NUM_PLAYERS);
    assert_eq!(plan.input_delay, INPUT_DELAY);
    assert_eq!(l.phase, SessionPhase::InGame);
    // only one transition: later polls return nothing and change nothing
    assert!(l.poll(2).is_none());
    assert!(l.poll(5).is_none());
    assert_eq!(l.phase, SessionPhase::InGame);
}
