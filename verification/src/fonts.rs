//! The built-in font: a five-byte glyph for each hexadecimal digit.

use vstd::prelude::*;

verus! {

/// Number of bytes of one glyph.
pub const GLYPH_SIZE: usize = 5;

/// The glyphs of the digits `0` to `F`, five sprite rows each.
pub const FONTS: [[u8; 5]; 16] = [
    [0xF0, 0x90, 0x90, 0x90, 0xF0],  // 0
    [0x20, 0x60, 0x20, 0x20, 0x70],  // 1
    [0xF0, 0x10, 0xF0, 0x80, 0xF0],  // 2
    [0xF0, 0x10, 0xF0, 0x10, 0xF0],  // 3
    [0x90, 0x90, 0xF0, 0x10, 0x10],  // 4
    [0xF0, 0x80, 0xF0, 0x10, 0xF0],  // 5
    [0xF0, 0x80, 0xF0, 0x90, 0xF0],  // 6
    [0xF0, 0x10, 0x20, 0x40, 0x40],  // 7
    [0xF0, 0x90, 0xF0, 0x90, 0xF0],  // 8
    [0xF0, 0x90, 0xF0, 0x10, 0xF0],  // 9
    [0xF0, 0x90, 0xF0, 0x90, 0x90],  // A
    [0xE0, 0x90, 0xE0, 0x90, 0xE0],  // B
    [0xF0, 0x80, 0x80, 0x80, 0xF0],  // C
    [0xE0, 0x90, 0x90, 0x90, 0xE0],  // D
    [0xF0, 0x80, 0xF0, 0x80, 0xF0],  // E
    [0xF0, 0x80, 0xF0, 0x80, 0x80],  // F
];

/// Number of bytes of the font atlas: it fills memory from address 0 up to this address.
pub const FONT_BYTES: usize = 80;

/// The byte of the font atlas at address `addr`: row `addr mod 5` of the glyph of digit
/// `addr / 5`.
pub open spec fn atlas_byte(addr: int) -> u8 {
    FONTS[addr / (GLYPH_SIZE as int)][addr % (GLYPH_SIZE as int)]
}

/// The address at which the glyph of `digit` starts.
pub open spec fn glyph_address(digit: int) -> int {
    digit * GLYPH_SIZE
}

/// `memory` with the font atlas written over its first 80 bytes.
pub open spec fn with_fonts(memory: Seq<u8>) -> Seq<u8> {
    Seq::new(
        memory.len(),
        |addr: int|
            if addr < FONT_BYTES {
                atlas_byte(addr)
            } else {
                memory[addr]
            },
    )
}

/// Writes the font atlas to the start of `mem` and returns, for each digit, the address
/// of its glyph.
pub fn write_fonts(mem: &mut [u8; 4096]) -> (fonts_map: [u16; 16])
    ensures
        final(mem)@ == with_fonts(old(mem)@),
        forall|digit: int| 0 <= digit < 16 ==> fonts_map[digit] == glyph_address(digit),
{
    let start_addr: usize = 0x0;
    let mut i: usize = 0;
    while i < 16
        invariant
            i <= 16,
            start_addr == 0,
            forall|addr: int| 0 <= addr < i * 5 ==> mem[addr] == atlas_byte(addr),
            forall|addr: int| i * 5 <= addr < 4096 ==> mem[addr] == old(mem)[addr],
        decreases 16 - i,
    {
        let mut j: usize = 0;
        while j < 5
            invariant
                i < 16,
                j <= 5,
                start_addr == 0,
                forall|addr: int| 0 <= addr < i * 5 + j ==> mem[addr] == atlas_byte(addr),
                forall|addr: int| i * 5 + j <= addr < 4096 ==> mem[addr] == old(mem)[addr],
            decreases 5 - j,
        {
            let indx = start_addr + i * 5 + j;
            mem[indx] = FONTS[i][j];
            j += 1;
        }
        i += 1;
    }
    assert(mem@ =~= with_fonts(old(mem)@));
    let mut fonts_map: [u16; 16] = [0, 1, 2, 3, 4, 5, 6, 7, 8, 9, 10, 11, 12, 13, 14, 15];
    let mut digit: usize = 0;
    while digit < 16
        invariant
            digit <= 16,
            start_addr == 0,
            forall|d: int| 0 <= d < digit ==> fonts_map[d] == glyph_address(d),
            forall|d: int| digit <= d < 16 ==> fonts_map[d] == d,
        decreases 16 - digit,
    {
        fonts_map[digit] = fonts_map[digit] * 5 + start_addr as u16;
        digit += 1;
    }
    fonts_map
}

} // verus!
