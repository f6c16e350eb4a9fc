use arena_rollback::rollback::RollbackSession;
use arena_rollback::sim::{step, World};
use arena_rollback::wire::{decode_message, encode_message};

#[test]
fn late_correction_matches_direct_simulation() {
    // Scenario: the remote input confirmed for frame 10 contradicts the
    // prediction used while simulating frames 10..15.  After the rollback
    // the session must hold exactly the state a direct simulation with the
    // corrected history produces.
    let mut s = RollbackSession::new(World::new(), 0, 0);
    for f in 0..10 {
        s.confirm_remote(f, 0);
    }
    for _ in 0..15 {
        s.advance(0);
    }
    // frames 10..14 were simulated with the predicted remote input 0
    s.confirm_remote(10, 1);
    // direct forward simulation with the corrected knowledge: frame 10 is
    // confirmed as 1, frames 11..14 predict by repeating it
    let mut w = World::new();
    for f in 0..15 {
        let remote = if f >= 10 { 1 } else { 0 };
        step(&mut w, 0, remote);
    }
    assert_eq!(s.current_world(), &w);
}

#[test]
fn rollback_equals_forward_with_inputs_known_in_advance() {
    let remote_inputs = [2u8, 2, 0, 1, 1, 4, 5, 0, 3, 3, 1, 0, 7, 2, 2, 0, 0, 1, 4, 4];
    let local_inputs = [0u8, 1, 1, 0, 4, 4, 2, 0, 1, 3, 0, 0, 5, 1, 2, 0, 1, 1, 0, 4];
    // session a: every remote input is confirmed before anything runs
    let mut a = RollbackSession::new(World::new(), 0, 2);
    for (f, &ri) in remote_inputs.iter().enumerate() {
        a.confirm_remote(f, ri);
    }
    for &li in local_inputs.iter() {
        a.advance(li);
    }
    // session b: simulates ahead on predictions; the confirmations arrive
    // afterwards, out of order, forcing rollbacks
    let mut b = RollbackSession::new(World::new(), 0, 2);
    for &li in local_inputs.iter() {
        b.advance(li);
    }
    for &f in &[7usize, 3, 19, 0, 12, 1, 5, 18, 2, 9, 4, 11, 6, 14, 8, 10, 13, 16, 15, 17] {
        b.confirm_remote(f, remote_inputs[f]);
    }
    assert_eq!(a.current_world(), b.current_world());
    assert_eq!(a.current_frame(), 20);
    assert_eq!(b.current_frame(), 20);
}

#[test]
fn duplicate_confirmations_are_ignored() {
    let mut s = RollbackSession::new(World::new(), 0, 0);
    s.confirm_remote(0, 1);
    // a duplicate delivery with a different payload: the first value wins
    s.confirm_remote(0, 7);
    s.advance(0);
    let mut w = World::new();
    step(&mut w, 0, 1);
    assert_eq!(s.current_world(), &w);
}

#[test]
fn local_input_is_scheduled_with_delay() {
    let mut s = RollbackSession::new(World::new(), 0, 2);
    let out = s.advance(1);
    assert_eq!(out.send_frame, 2);
    assert_eq!(out.send_input, 1);
    s.advance(1);
    s.advance(1);
    // the first two frames ran on the zero symbol; frame 2 used the input
    // sampled at frame 0
    let mut w = World::new();
    step(&mut w, 0, 0);
    step(&mut w, 0, 0);
    step(&mut w, 1, 0);
    assert_eq!(s.current_world(), &w);
}

#[test]
fn session_reports_elimination_events() {
    let mut s = RollbackSession::new(World::new(), 0, 0);
    let mut when = None;
    for t in 1u32..=150 {
        let out = s.advance(0);
        if out.events.eliminated0 {
            assert!(when.is_none(), "second elimination event");
            assert!(out.events.eliminated1);
            when = Some(t);
        }
    }
    assert_eq!(when, Some(117));
}

#[test]
fn remote_player_zero_session() {
    // the same engine serves the peer holding handle 1; its remote is
    // player 0
    let mut s = RollbackSession::new(World::new(), 1, 0);
    s.confirm_remote(0, 4);
    s.advance(0);
    let mut w = World::new();
    step(&mut w, 4, 0);
    assert_eq!(s.current_world(), &w);
}

#[test]
fn two_sessions_converge_over_a_lossy_channel() {
    let mut a = RollbackSession::new(World::new(), 0, 2);
    let mut b = RollbackSession::new(World::new(), 1, 2);
    let mut a_to_b: Vec<Vec<u8>> = Vec::new();
    let mut b_to_a: Vec<Vec<u8>> = Vec::new();
    for t in 0..40usize {
        let oa = a.advance((t % 5) as u8);
        let ob = b.advance((t % 3) as u8);
        a_to_b.push(encode_message(oa.send_frame as u64, oa.send_input));
        b_to_a.push(encode_message(ob.send_frame as u64, ob.send_input));
        // deliver in bursts, newest first, to exercise lag and reordering
        if t % 4 == 3 {
            while let Some(p) = a_to_b.pop() {
                let (f, i) = decode_message(&p).unwrap();
                b.confirm_remote(f as usize, i);
            }
            while let Some(p) = b_to_a.pop() {
                let (f, i) = decode_message(&p).unwrap();
                a.confirm_remote(f as usize, i);
            }
        }
    }
    while let Some(p) = a_to_b.pop() {
        let (f, i) = decode_message(&p).unwrap();
        b.confirm_remote(f as usize, i);
    }
    while let Some(p) = b_to_a.pop() {
        let (f, i) = decode_message(&p).unwrap();
        a.confirm_remote(f as usize, i);
    }
    assert_eq!(a.current_frame(), b.current_frame());
    assert_eq!(a.current_world(), b.current_world());
}
