//! The input codec: one byte per player per tick.
//!
//! The byte is a bitset of three mutually independent flags: turn left,
//! turn right, dash.  Absent input is the zero symbol.  The codec is pure;
//! reading the physical keys happens outside the library, which hands in
//! one `bool` per logical control (each of which may be bound to several
//! physical keys, OR-ed together by the caller).

use vstd::prelude::*;

verus! {

pub const INPUT_LEFT: u8 = 1;

pub const INPUT_RIGHT: u8 = 2;

pub const INPUT_DASH: u8 = 4;

pub open spec fn wants_left(input: u8) -> bool {
    input & INPUT_LEFT != 0
}

pub open spec fn wants_right(input: u8) -> bool {
    input & INPUT_RIGHT != 0
}

pub open spec fn wants_dash(input: u8) -> bool {
    input & INPUT_DASH != 0
}

/// Turn direction an input symbol asks for: `1` (one counter-clockwise
/// heading step) for left, `-1` for right, `0` when both or neither flag
/// is set.
pub open spec fn spec_turn(input: u8) -> int {
    if wants_left(input) && !wants_right(input) {
        1
    } else if wants_right(input) && !wants_left(input) {
        -1
    } else {
        0
    }
}

/// Speed multiplier an input symbol asks for: doubled while dashing.
pub open spec fn spec_speed_mult(input: u8) -> int {
    if wants_dash(input) {
        2
    } else {
        1
    }
}

/// Encode the three logical controls into one input symbol by OR-ing the
/// flag bits.  Total: every combination of controls has a symbol, and the
/// three flags are recovered independently.
pub fn encode_input(left: bool, right: bool, dash: bool) -> (r: u8)
    ensures
        wants_left(r) == left,
        wants_right(r) == right,
        wants_dash(r) == dash,
        r < 8,
{
    let l: u8 = if left { INPUT_LEFT } else { 0 };
    let r0: u8 = if right { INPUT_RIGHT } else { 0 };
    let d: u8 = if dash { INPUT_DASH } else { 0 };
    let input: u8 = (l | r0) | d;
    proof {
        assert((((l | r0) | d) & 1 != 0) == (l == 1) && (((l | r0) | d) & 2 != 0) == (r0 == 2)
            && (((l | r0) | d) & 4 != 0) == (d == 4) && ((l | r0) | d) < 8) by (bit_vector)
            requires
                l == 0 || l == 1,
                r0 == 0 || r0 == 2,
                d == 0 || d == 4,
        ;
    }
    input
}

} // verus!
