//! The swim direction that the player's movement keys ask for.

use vstd::prelude::*;

verus! {

/// One axis of the direction: +1 for the positive key, -1 for the negative
/// one, and 0 when both or neither are held.
pub open spec fn key_axis(positive: bool, negative: bool) -> int {
    (if positive { 1int } else { 0int }) - (if negative { 1int } else { 0int })
}

/// The unnormalised swim direction `(x, y)` asked for by the keys: up
/// (W) adds one to `y`, down (S) takes one from it, left (A) takes one
/// from `x` and right (D) adds one to it.
pub fn movement_from_keys(up: bool, down: bool, left: bool, right: bool) -> (m: (i32, i32))
    ensures
        m.0 == key_axis(right, left),
        m.1 == key_axis(up, down),
{
    let mut x: i32 = 0;
    let mut y: i32 = 0;
    if up {
        y = y + 1;
    }
    if down {
        y = y - 1;
    }
    if left {
        x = x - 1;
    }
    if right {
        x = x + 1;
    }
    (x, y)
}

/// Holding both keys of an axis, or neither, gives no movement on that
/// axis; swapping the two keys reverses it; and it never exceeds one step.
pub proof fn law_opposite_keys_cancel(positive: bool, negative: bool)
    ensures
        key_axis(positive, negative) == 0 <==> positive == negative,
        key_axis(positive, negative) == -key_axis(negative, positive),
        -1 <= key_axis(positive, negative) <= 1,
{
}

} // verus!
