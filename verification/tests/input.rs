use arena_rollback::input::{encode_input, INPUT_DASH, INPUT_LEFT, INPUT_RIGHT};

#[test]
fn absent_input_is_zero_symbol() {
    assert_eq!(encode_input(false, false, false), 0);
}

#[test]
fn single_flags() {
    assert_eq!(encode_input(true, false, false), INPUT_LEFT);
    assert_eq!(encode_input(false, true, false), INPUT_RIGHT);
    assert_eq!(encode_input(false, false, true), INPUT_DASH);
}

#[test]
fn all_flags_or_together() {
    assert_eq!(
        encode_input(true, true, true),
        INPUT_LEFT | INPUT_RIGHT | INPUT_DASH
    );
}

#[test]
fn flags_are_independent() {
    for l in [false, true] {
        for r in [false, true] {
            for d in [false, true] {
                let b = encode_input(l, r, d);
                assert_eq!(b & INPUT_LEFT != 0, l);
                assert_eq!(b & INPUT_RIGHT != 0, r);
                assert_eq!(b & INPUT_DASH != 0, d);
                assert!(b < 8);
            }
        }
    }
}
