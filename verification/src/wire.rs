//! The peer data channel message codec.
//!
//! Each tick a peer sends one message: the frame number its input symbol
//! is tagged with, and the symbol itself.  A message is nine bytes: the
//! frame number in little-endian byte order, then the input byte.  The
//! codec is pure; moving the bytes is the transport's business, and a
//! packet of the wrong length decodes to nothing.

use vstd::prelude::*;

verus! {

pub const MESSAGE_LEN: usize = 9;

pub open spec fn spec_encode_message(frame: u64, input: u8) -> Seq<u8> {
    seq![
        (frame & 0xff) as u8,
        ((frame >> 8) & 0xff) as u8,
        ((frame >> 16) & 0xff) as u8,
        ((frame >> 24) & 0xff) as u8,
        ((frame >> 32) & 0xff) as u8,
        ((frame >> 40) & 0xff) as u8,
        ((frame >> 48) & 0xff) as u8,
        ((frame >> 56) & 0xff) as u8,
        input,
    ]
}

pub open spec fn spec_decode_message(b: Seq<u8>) -> Option<(u64, u8)> {
    if b.len() != MESSAGE_LEN {
        None
    } else {
        let frame = (b[0] as u64) | ((b[1] as u64) << 8) | ((b[2] as u64) << 16) | ((b[3] as u64)
            << 24) | ((b[4] as u64) << 32) | ((b[5] as u64) << 40) | ((b[6] as u64) << 48) | ((
        b[7] as u64) << 56);
        Some((frame, b[8]))
    }
}

pub fn encode_message(frame: u64, input: u8) -> (b: Vec<u8>)
    ensures
        b@ == spec_encode_message(frame, input),
{
    let mut b: Vec<u8> = Vec::new();
    b.push((frame & 0xff) as u8);
    b.push(((frame >> 8) & 0xff) as u8);
    b.push(((frame >> 16) & 0xff) as u8);
    b.push(((frame >> 24) & 0xff) as u8);
    b.push(((frame >> 32) & 0xff) as u8);
    b.push(((frame >> 40) & 0xff) as u8);
    b.push(((frame >> 48) & 0xff) as u8);
    b.push(((frame >> 56) & 0xff) as u8);
    b.push(input);
    proof {
        assert(b@ =~= spec_encode_message(frame, input));
    }
    b
}

pub fn decode_message(b: &Vec<u8>) -> (r: Option<(u64, u8)>)
    ensures
        r == spec_decode_message(b@),
{
    if b.len() != MESSAGE_LEN {
        return None;
    }
    let frame: u64 = (b[0] as u64) | ((b[1] as u64) << 8) | ((b[2] as u64) << 16) | ((b[3] as u64)
        << 24) | ((b[4] as u64) << 32) | ((b[5] as u64) << 40) | ((b[6] as u64) << 48) | ((
    b[7] as u64) << 56);
    Some((frame, b[8]))
}

/// Law (round trip): decoding an encoded message yields the frame number
/// and input symbol that went in.
pub proof fn lemma_message_round_trip(frame: u64, input: u8)
    ensures
        spec_decode_message(spec_encode_message(frame, input)) == Some((frame, input)),
{
    let b0 = (frame & 0xff) as u8;
    let b1 = ((frame >> 8) & 0xff) as u8;
    let b2 = ((frame >> 16) & 0xff) as u8;
    let b3 = ((frame >> 24) & 0xff) as u8;
    let b4 = ((frame >> 32) & 0xff) as u8;
    let b5 = ((frame >> 40) & 0xff) as u8;
    let b6 = ((frame >> 48) & 0xff) as u8;
    let b7 = ((frame >> 56) & 0xff) as u8;
    assert((b0 as u64) | ((b1 as u64) << 8) | ((b2 as u64) << 16) | ((b3 as u64) << 24) | ((
    b4 as u64) << 32) | ((b5 as u64) << 40) | ((b6 as u64) << 48) | ((b7 as u64) << 56) == frame)
        by (bit_vector)
        requires
            b0 == (frame & 0xff) as u8,
            b1 == ((frame >> 8) & 0xff) as u8,
            b2 == ((frame >> 16) & 0xff) as u8,
            b3 == ((frame >> 24) & 0xff) as u8,
            b4 == ((frame >> 32) & 0xff) as u8,
            b5 == ((frame >> 40) & 0xff) as u8,
            b6 == ((frame >> 48) & 0xff) as u8,
            b7 == ((frame >> 56) & 0xff) as u8,
    ;
}

} // verus!
