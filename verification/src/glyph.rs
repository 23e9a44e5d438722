//! The glyph ramp: eight characters, darkest first, one for each band of 32
//! luminance levels.

use vstd::prelude::*;

verus! {

/// Number of luminance levels that share one glyph.
pub const BAND_WIDTH: u8 = 32;

/// The ramp, darkest glyph first.
pub open spec fn ramp() -> Seq<char> {
    seq!['#', '@', '8', '&', 'o', ':', '*', '.']
}

/// Index in the ramp of the glyph that stands for luminance `level`.
pub open spec fn glyph_index(level: u8) -> int {
    level as int / 32
}

/// The glyph that stands for luminance `level`.
pub open spec fn glyph_of(level: u8) -> char {
    ramp()[glyph_index(level)]
}

/// Whether `c` is one of the eight glyphs of the ramp.
pub open spec fn is_glyph(c: char) -> bool {
    exists|i: int| 0 <= i < 8 && ramp()[i] == c
}

/// Position in the ramp of the band that `level` falls in.
pub fn band(level: u8) -> (index: u8)
    ensures
        index as int == glyph_index(level),
        index < 8,
        32 * index <= level < 32 * index + 32,
{
    level / BAND_WIDTH
}

/// The glyph for a luminance level: `#` for 0..=31, `@` for 32..=63, and so on
/// up to `.` for 224..=255.
pub fn glyph(level: u8) -> (c: char)
    ensures
        c == glyph_of(level),
        is_glyph(c),
{
    let index: u8 = band(level);
    let c: char = if index == 0 {
        '#'
    } else if index == 1 {
        '@'
    } else if index == 2 {
        '8'
    } else if index == 3 {
        '&'
    } else if index == 4 {
        'o'
    } else if index == 5 {
        ':'
    } else if index == 6 {
        '*'
    } else {
        '.'
    };
    assert(ramp()[index as int] == c);
    c
}

/// A brighter level never gets a glyph that stands earlier in the ramp.
pub proof fn lemma_glyph_monotone(darker: u8, brighter: u8)
    requires
        darker <= brighter,
    ensures
        glyph_index(darker) <= glyph_index(brighter),
        0 <= glyph_index(darker),
        glyph_index(brighter) < 8,
{
}

/// Every level has a glyph of the ramp, and no glyph of the ramp is a line
/// break.
pub proof fn lemma_glyph_in_ramp(level: u8)
    ensures
        is_glyph(glyph_of(level)),
        glyph_of(level) != '\n',
{
    let i: int = glyph_index(level);
    assert(0 <= i < 8);
    assert(ramp()[i] == glyph_of(level));
}

/// No glyph of the ramp is a line break.
pub proof fn lemma_glyph_is_no_break(c: char)
    requires
        is_glyph(c),
    ensures
        c != '\n',
{
    let i: int = choose|i: int| 0 <= i < 8 && ramp()[i] == c;
    assert(ramp()[i] == c);
}

} // verus!
