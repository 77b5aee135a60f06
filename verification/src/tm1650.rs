//! The TM1650 four-digit seven-segment display controller.
use vstd::prelude::*;

verus! {

/// Segment patterns of the hexadecimal digits 0 to F.
pub const SEG: [u8; 16] = [
    0x3F, 0x06, 0x5B, 0x4F,
    0x66, 0x6D, 0x7D, 0x07,
    0x7F, 0x6F, 0x77, 0x7C,
    0x39, 0x5E, 0x79, 0x71,
];

/// Address of the display's command register.
pub const CMD_ADDR: u8 = 0x24;

/// Addresses of the four digit registers, leftmost first.
pub const DISPLAY_ADDR: [u8; 4] = [0x34, 0x35, 0x36, 0x37];

/// The segment pattern that shows the hexadecimal digit `d`.
pub open spec fn segment_pattern(d: int) -> u8 {
    if d == 0 { 0x3F }
    else if d == 1 { 0x06 }
    else if d == 2 { 0x5B }
    else if d == 3 { 0x4F }
    else if d == 4 { 0x66 }
    else if d == 5 { 0x6D }
    else if d == 6 { 0x7D }
    else if d == 7 { 0x07 }
    else if d == 8 { 0x7F }
    else if d == 9 { 0x6F }
    else if d == 10 { 0x77 }
    else if d == 11 { 0x7C }
    else if d == 12 { 0x39 }
    else if d == 13 { 0x5E }
    else if d == 14 { 0x79 }
    else { 0x71 }
}

/// The address of digit register `i` (0 is the leftmost digit).
pub open spec fn digit_address(i: int) -> u8 {
    (0x34 + i) as u8
}

/// The segment pattern of the hexadecimal digit `d`, read from [`SEG`].
pub fn segment_code(d: u8) -> (p: u8)
    requires
        d < 16,
    ensures
        p == segment_pattern(d as int),
{
    let table = SEG;
    assert(table@ =~= seq![
        0x3Fu8, 0x06, 0x5B, 0x4F, 0x66, 0x6D, 0x7D, 0x07,
        0x7F, 0x6F, 0x77, 0x7C, 0x39, 0x5E, 0x79, 0x71,
    ]);
    table[d as usize]
}

/// The address of digit register `i`, read from [`DISPLAY_ADDR`].
pub fn display_address(i: usize) -> (a: u8)
    requires
        i < 4,
    ensures
        a == digit_address(i as int),
{
    let table = DISPLAY_ADDR;
    assert(table@ =~= seq![0x34u8, 0x35, 0x36, 0x37]);
    table[i]
}

} // verus!
