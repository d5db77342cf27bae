//! The built-in hexadecimal glyphs that occupy the bottom of memory.

use vstd::prelude::*;

verus! {

/// Number of bytes in one glyph sprite.
pub const GLYPH_HEIGHT: usize = 5;

/// Number of bytes taken by the sixteen glyphs together.
pub const FONT_SIZE: usize = 80;

/// The sprites of the digits `0` to `F`, five bytes each, in digit order.
pub const CHARACTER_SPRITES: [u8; 80] = [
    0xF0, 0x90, 0x90, 0x90, 0xF0,
    0x20, 0x60, 0x20, 0x20, 0x70,
    0xF0, 0x10, 0xF0, 0x80, 0xF0,
    0xF0, 0x10, 0xF0, 0x10, 0xF0,
    0x90, 0x90, 0xF0, 0x10, 0x10,
    0xF0, 0x80, 0xF0, 0x10, 0xF0,
    0xF0, 0x80, 0xF0, 0x90, 0xF0,
    0xF0, 0x10, 0x20, 0x40, 0x40,
    0xF0, 0x90, 0xF0, 0x90, 0xF0,
    0xF0, 0x90, 0xF0, 0x10, 0xF0,
    0xF0, 0x90, 0xF0, 0x90, 0x90,
    0xF0, 0x80, 0x80, 0x80, 0xF0,
    0xF0, 0x80, 0x80, 0x80, 0xF0,
    0xE0, 0x90, 0x90, 0x90, 0xE0,
    0xF0, 0x80, 0xF0, 0x80, 0xF0,
    0xF0, 0x80, 0xF0, 0x80, 0x80,
];

/// Address at which the glyph of `digit` starts: the glyphs lie one after
/// the other from address 0 on.
pub open spec fn glyph_address(digit: int) -> int {
    GLYPH_HEIGHT * digit
}

/// The font as a sequence of bytes, as it lies at the bottom of memory.
pub open spec fn font_bytes() -> Seq<u8> {
    CHARACTER_SPRITES@
}

} // verus!
