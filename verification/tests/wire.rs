use arena_rollback::wire::{decode_message, encode_message, MESSAGE_LEN};

#[test]
fn round_trips_frame_and_input() {
    for &(f, i) in &[
        (0u64, 0u8),
        (1, 7),
        (117, 1),
        (u64::MAX, 255),
        (0x0123_4567_89ab_cdef, 4),
    ] {
        let b = encode_message(f, i);
        assert_eq!(b.len(), MESSAGE_LEN);
        assert_eq!(decode_message(&b), Some((f, i)));
    }
}

#[test]
fn exact_little_endian_layout() {
    let b = encode_message(0x0102_0304_0506_0708, 9);
    assert_eq!(b, vec![8, 7, 6, 5, 4, 3, 2, 1, 9]);
}

#[test]
fn wrong_length_decodes_to_nothing() {
    assert_eq!(decode_message(&vec![]), None);
    assert_eq!(decode_message(&vec![1, 2, 3]), None);
    assert_eq!(decode_message(&vec![0; 10]), None);
}
