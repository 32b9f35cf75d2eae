//! Colour register values of the NTSC code space in the PAL one. The two
//! standards number their hues differently and share the luminance scale.

use vstd::prelude::*;

verus! {

/// For each NTSC hue, the PAL hue that shows the same colour.
pub const NTSC_TO_PAL_HUE: [u8; 16] = [0, 2, 4, 4, 6, 8, 10, 12, 13, 11, 9, 7, 5, 3, 2, 2];

/// The PAL colour register value for an NTSC one: the hue (high nibble) goes
/// through `NTSC_TO_PAL_HUE`, the luminance (low nibble) stays.
pub open spec fn pal_code(code: u8) -> u8 {
    (16 * NTSC_TO_PAL_HUE[code as int / 16] + code % 16) as u8
}

/// The PAL value keeps the luminance and has the hue that the table gives,
/// for every byte value.
pub proof fn lemma_pal_code_nibbles(code: u8)
    ensures
        pal_code(code) % 16 == code % 16,
        pal_code(code) / 16 == NTSC_TO_PAL_HUE[code as int / 16],
        NTSC_TO_PAL_HUE[code as int / 16] < 16,
{
}

/// Gives the PAL colour register value for an NTSC one.
pub fn to_pal(code: u8) -> (pal: u8)
    ensures
        pal == pal_code(code),
{
    let hue: u8 = code >> 4;
    let luma: u8 = code & 0x0f;
    assert(hue == code / 16 && luma == code % 16) by (bit_vector)
        requires
            hue == code >> 4,
            luma == code & 0x0f,
    ;
    let pal_hue: u8 = NTSC_TO_PAL_HUE[hue as usize];
    assert((pal_hue << 4) | luma == 16 * pal_hue + luma) by (bit_vector)
        requires
            pal_hue < 16,
            luma < 16,
    ;
    (pal_hue << 4) | luma
}

} // verus!
