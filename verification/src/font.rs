use vstd::prelude::*;

verus! {

/// Number of bytes in the built-in font: sixteen glyphs of five rows.
pub const FONT_SIZE: usize = 80;

/// The built-in font: the glyphs for the hexadecimal digits `0` to `F`, five
/// bytes each, one byte per row.
pub const FONT: [u8; 80] = [
    0x60, 0xa0, 0xa0, 0xa0, 0xc0,
    0x40, 0xc0, 0x40, 0x40, 0xe0,
    0xc0, 0x20, 0x40, 0x80, 0xe0,
    0xc0, 0x20, 0x40, 0x20, 0xc0,
    0x20, 0xa0, 0xe0, 0x20, 0x20,
    0xe0, 0x80, 0xc0, 0x20, 0xc0,
    0x40, 0x80, 0xc0, 0xa0, 0x40,
    0xe0, 0x20, 0x60, 0x40, 0x40,
    0x40, 0xa0, 0x40, 0xa0, 0x40,
    0x40, 0xa0, 0x60, 0x20, 0x40,
    0x40, 0xa0, 0xe0, 0xa0, 0xa0,
    0xc0, 0xa0, 0xc0, 0xa0, 0xc0,
    0x60, 0x80, 0x80, 0x80, 0x60,
    0xc0, 0xa0, 0xa0, 0xa0, 0xc0,
    0xe0, 0x80, 0xc0, 0x80, 0xe0,
    0xe0, 0x80, 0xc0, 0x80, 0x80,
];

} // verus!
