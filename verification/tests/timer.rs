use arena_rollback::timer::FrameTimer;

#[test]
fn rejects_zero_period() {
    assert!(FrameTimer::try_new(0).is_none());
    assert!(FrameTimer::try_new(1).is_some());
}

#[test]
fn try_new_starts_full() {
    let t = FrameTimer::try_new(7).unwrap();
    assert_eq!(t.frames_left, 7);
    assert_eq!(t.period, 7);
}

#[test]
fn finished_once_per_period_cyclically() {
    let mut t = FrameTimer::new(3);
    let mut seen = Vec::new();
    for _ in 0..9 {
        t.tick();
        seen.push(t.finished());
    }
    assert_eq!(
        seen,
        vec![false, false, true, false, false, true, false, false, true]
    );
}

#[test]
fn fresh_timer_reads_finished() {
    // The documented quirk: a fresh counter equals the period.
    let t = FrameTimer::new(5);
    assert!(t.finished());
}

#[test]
fn period_one_always_finished() {
    let mut t = FrameTimer::new(1);
    for _ in 0..4 {
        t.tick();
        assert!(t.finished());
    }
}
