//! The busy indicator: ten braille frames shown in turn.
use vstd::prelude::*;

verus! {

/// The frame shown at step `i` of the cycle (`0 <= i < 10`).
pub open spec fn spinner_glyph(i: int) -> char {
    if i == 0 {
        '\u{280b}'
    } else if i == 1 {
        '\u{2819}'
    } else if i == 2 {
        '\u{2839}'
    } else if i == 3 {
        '\u{2838}'
    } else if i == 4 {
        '\u{283c}'
    } else if i == 5 {
        '\u{2834}'
    } else if i == 6 {
        '\u{2826}'
    } else if i == 7 {
        '\u{2827}'
    } else if i == 8 {
        '\u{2807}'
    } else {
        '\u{280f}'
    }
}

/// The frame shown at tick `frame`: the cycle restarts every ten ticks.
pub fn spinner_char(frame: usize) -> (c: char)
    ensures
        c == spinner_glyph((frame % 10) as int),
{
    let i = frame % 10;
    if i == 0 {
        '\u{280b}'
    } else if i == 1 {
        '\u{2819}'
    } else if i == 2 {
        '\u{2839}'
    } else if i == 3 {
        '\u{2838}'
    } else if i == 4 {
        '\u{283c}'
    } else if i == 5 {
        '\u{2834}'
    } else if i == 6 {
        '\u{2826}'
    } else if i == 7 {
        '\u{2827}'
    } else if i == 8 {
        '\u{2807}'
    } else {
        '\u{280f}'
    }
}

} // verus!
