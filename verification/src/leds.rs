//! LED patterns: the eight-LED roulette and the timer-driven chase.
use vstd::prelude::*;

verus! {

/// The switching done at step `i` of the roulette: at an even step LED
/// `i / 2` goes on; at an odd step the LED seven places further round (that
/// is, the one lit three steps earlier) goes off.  Steps run from 0 to 15.
pub open spec fn roulette_action(i: int) -> Option<(usize, bool)> {
    if 0 <= i < 16 {
        if i % 2 == 0 {
            Some(((i / 2) as usize, true))
        } else {
            Some((((i / 2 + 7) % 8) as usize, false))
        }
    } else {
        None
    }
}

/// The LED to switch at step `i`, and whether it goes on.
pub fn roulette_step(i: u8) -> (r: Option<(usize, bool)>)
    ensures
        r == roulette_action(i as int),
{
    match i {
        0 => Some((0, true)),
        2 => Some((1, true)),
        4 => Some((2, true)),
        6 => Some((3, true)),
        8 => Some((4, true)),
        10 => Some((5, true)),
        12 => Some((6, true)),
        14 => Some((7, true)),
        1 => Some((7, false)),
        3 => Some((0, false)),
        5 => Some((1, false)),
        7 => Some((2, false)),
        9 => Some((3, false)),
        11 => Some((4, false)),
        13 => Some((5, false)),
        15 => Some((6, false)),
        _ => None,
    }
}

/// The step after step `i`: the steps count up to 15 and start again at 0.
pub fn roulette_next(i: u8) -> (r: u8)
    requires
        i < 255,
    ensures
        r == if i == 15 { 0 } else { i + 1 },
{
    if i == 15 {
        0
    } else {
        i + 1
    }
}

/// In one round of the roulette every LED goes on once, at step `2 k`, and
/// off three steps later.
pub proof fn lemma_roulette_each_led(k: int)
    requires
        0 <= k < 8,
    ensures
        roulette_action(2 * k) == Some((k as usize, true)),
        roulette_action((2 * k + 3) % 16) == Some((k as usize, false)),
{
}

/// The LED after `curr` in the chase round the eight LEDs.
pub fn chase_next(curr: usize) -> (next: usize)
    requires
        curr < 8,
    ensures
        next == (curr + 1) % 8,
{
    (curr + 1) % 8
}

} // verus!
