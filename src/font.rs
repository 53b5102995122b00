//! The bitmap font: five columns by eight rows per character.
use vstd::prelude::*;

verus! {

/// Bitmap of an ASCII character: row `r` is byte `r` (top row first), and
/// column `c` of a row is its bit `4 - c`. Characters outside the font are blank.
pub open spec fn font_glyph(c: u8) -> u64 {
    match c {
        48 => 0x000e11191513110e,  // '0'
        49 => 0x000e040404040c04,  // '1'
        50 => 0x001f08040201110e,  // '2'
        51 => 0x000e11010204021f,  // '3'
        52 => 0x0002021f120a0602,  // '4'
        53 => 0x000e1101011e101f,  // '5'
        54 => 0x000e11111e100806,  // '6'
        55 => 0x000808080402011f,  // '7'
        56 => 0x000e11110e11110e,  // '8'
        57 => 0x000c02010f11110e,  // '9'
        46 => 0x000c0c0000000000,  // '.'
        45 => 0x000000001f000000,  // '-'
        58 => 0x00000c0c000c0c00,  // ':'
        65 => 0x001111111f11110e,  // 'A'
        67 => 0x000e11101010110e,  // 'C'
        68 => 0x001e11111111111e,  // 'D'
        78 => 0x0011111113151911,  // 'N'
        80 => 0x001010101e11111e,  // 'P'
        82 => 0x001112141e11111e,  // 'R'
        84 => 0x000404040404041f,  // 'T'
        87 => 0x000a151515111111,  // 'W'
        98 => 0x001e111119161010,  // 'b'
        100 => 0x000f1111130d0101,  // 'd'
        101 => 0x000e101f110e0000,  // 'e'
        103 => 0x0e010f11110f0000,  // 'g'
        104 => 0x0011111119161010,  // 'h'
        114 => 0x0010101019160000,  // 'r'
        117 => 0x000d131111110000,  // 'u'
        118 => 0x00040a1111110000,  // 'v'
        _ => 0,
    }
}

/// Whether column `col`, row `row` of character `c` is lit.
pub open spec fn glyph_on(c: u8, col: int, row: int) -> bool {
    0 <= col < 5 && 0 <= row < 8 && (font_glyph(c) >> ((8 * row + 4 - col) as u64)) & 1 == 1
}

/// Bitmap of an ASCII character, laid out as `font_glyph` says.
pub fn glyph_bits(c: u8) -> (r: u64)
    ensures
        r == font_glyph(c),
{
    match c {
        48 => 0x000e11191513110e,  // '0'
        49 => 0x000e040404040c04,  // '1'
        50 => 0x001f08040201110e,  // '2'
        51 => 0x000e11010204021f,  // '3'
        52 => 0x0002021f120a0602,  // '4'
        53 => 0x000e1101011e101f,  // '5'
        54 => 0x000e11111e100806,  // '6'
        55 => 0x000808080402011f,  // '7'
        56 => 0x000e11110e11110e,  // '8'
        57 => 0x000c02010f11110e,  // '9'
        46 => 0x000c0c0000000000,  // '.'
        45 => 0x000000001f000000,  // '-'
        58 => 0x00000c0c000c0c00,  // ':'
        65 => 0x001111111f11110e,  // 'A'
        67 => 0x000e11101010110e,  // 'C'
        68 => 0x001e11111111111e,  // 'D'
        78 => 0x0011111113151911,  // 'N'
        80 => 0x001010101e11111e,  // 'P'
        82 => 0x001112141e11111e,  // 'R'
        84 => 0x000404040404041f,  // 'T'
        87 => 0x000a151515111111,  // 'W'
        98 => 0x001e111119161010,  // 'b'
        100 => 0x000f1111130d0101,  // 'd'
        101 => 0x000e101f110e0000,  // 'e'
        103 => 0x0e010f11110f0000,  // 'g'
        104 => 0x0011111119161010,  // 'h'
        114 => 0x0010101019160000,  // 'r'
        117 => 0x000d131111110000,  // 'u'
        118 => 0x00040a1111110000,  // 'v'
        _ => 0,
    }
}

/// Whether column `col`, row `row` of character `c` is lit.
pub fn glyph_pixel(c: u8, col: usize, row: usize) -> (r: bool)
    requires
        col < 5,
        row < 8,
    ensures
        r == glyph_on(c, col as int, row as int),
{
    let shift: u64 = (8 * row + 4 - col) as u64;
    (glyph_bits(c) >> shift) & 1 == 1
}

} // verus!
