use vstd::prelude::*;

verus! {

/// The built-in bitmap font for the hexadecimal digits `0` to `F`. Each glyph
/// is five rows of eight pixels, most significant bit leftmost; only the left
/// four columns are used.
pub const FONT_SET: [u8; 80] = [
    0xF0, 0x90, 0x90, 0x90, 0xF0,
    0x20, 0x60, 0x20, 0x20, 0x70,
    0xF0, 0x10, 0xF0, 0x80, 0xF0,
    0xF0, 0x10, 0xF0, 0x10, 0xF0,
    0x90, 0x90, 0xF0, 0x10, 0x10,
    0xF0, 0x80, 0xF0, 0x10, 0xF0,
    0xF0, 0x80, 0xF0, 0x90, 0xF0,
    0xF0, 0x10, 0x20, 0x40, 0x40,
    0xF0, 0x90, 0xF0, 0x90, 0xF0,
    0xF0, 0x90, 0xF0, 0x10, 0xF0,
    0xF0, 0x90, 0xF0, 0x90, 0x90,
    0xE0, 0x90, 0xE0, 0x90, 0xE0,
    0xF0, 0x80, 0x80, 0x80, 0xF0,
    0xE0, 0x90, 0x90, 0x90, 0xE0,
    0xF0, 0x80, 0xF0, 0x80, 0xF0,
    0xF0, 0x80, 0xF0, 0x80, 0x80,
];

/// The font as a sequence of bytes.
pub open spec fn glyph_table() -> Seq<u8> {
    FONT_SET@
}

/// Address of the first row of the glyph for `digit` once the font sits at
/// the bottom of memory: five bytes per glyph.
pub open spec fn glyph_address(digit: int) -> int {
    digit * 5
}

/// The glyph of each of the sixteen digits lies within the font.
pub proof fn lemma_glyphs_in_font(digit: int)
    requires
        0 <= digit < 16,
    ensures
        0 <= glyph_address(digit),
        glyph_address(digit) + 5 <= glyph_table().len(),
{
}

} // verus!
