//! The fixed NTSC colour table of the TIA and exact-match lookup into it.
//!
//! The table holds 128 entries, sixteen hues of eight luminances each. A
//! colour register value packs the hue into the high nibble and the
//! luminance into the low nibble.

use vstd::prelude::*;

verus! {

/// Number of colours the TIA can show.
pub const PALETTE_SIZE: usize = 128;

/// The NTSC palette, five bytes per entry: red, green, blue, hue, luminance.
/// Entries are ordered by hue, then by luminance.
pub const VCS_NTSC_PALETTE: [u8; 640] = [
    0, 0, 0, 0, 0,
    64, 64, 64, 0, 2,
    108, 108, 108, 0, 4,
    144, 144, 144, 0, 6,
    176, 176, 176, 0, 8,
    200, 200, 200, 0, 10,
    220, 220, 220, 0, 12,
    236, 236, 236, 0, 14,
    68, 68, 0, 1, 0,
    100, 100, 16, 1, 2,
    132, 132, 36, 1, 4,
    160, 160, 52, 1, 6,
    184, 184, 64, 1, 8,
    208, 208, 80, 1, 10,
    232, 232, 92, 1, 12,
    252, 252, 104, 1, 14,
    112, 40, 0, 2, 0,
    132, 68, 20, 2, 2,
    152, 92, 40, 2, 4,
    172, 120, 60, 2, 6,
    188, 140, 76, 2, 8,
    204, 160, 92, 2, 10,
    220, 180, 104, 2, 12,
    236, 200, 120, 2, 14,
    132, 24, 0, 3, 0,
    152, 52, 24, 3, 2,
    172, 80, 48, 3, 4,
    192, 104, 72, 3, 6,
    208, 128, 92, 3, 8,
    224, 148, 112, 3, 10,
    236, 168, 128, 3, 12,
    252, 188, 148, 3, 14,
    136, 0, 0, 4, 0,
    156, 32, 32, 4, 2,
    176, 60, 60, 4, 4,
    192, 88, 88, 4, 6,
    208, 112, 112, 4, 8,
    224, 136, 136, 4, 10,
    236, 160, 160, 4, 12,
    252, 180, 180, 4, 14,
    120, 0, 92, 5, 0,
    140, 32, 116, 5, 2,
    160, 60, 136, 5, 4,
    176, 88, 156, 5, 6,
    192, 112, 176, 5, 8,
    208, 132, 192, 5, 10,
    220, 156, 208, 5, 12,
    236, 176, 224, 5, 14,
    72, 0, 120, 6, 0,
    96, 32, 144, 6, 2,
    120, 60, 164, 6, 4,
    140, 88, 184, 6, 6,
    160, 112, 204, 6, 8,
    180, 132, 220, 6, 10,
    196, 156, 236, 6, 12,
    212, 176, 252, 6, 14,
    20, 0, 132, 7, 0,
    48, 32, 152, 7, 2,
    76, 60, 172, 7, 4,
    104, 88, 192, 7, 6,
    124, 112, 208, 7, 8,
    148, 136, 224, 7, 10,
    168, 160, 236, 7, 12,
    188, 180, 252, 7, 14,
    0, 0, 136, 8, 0,
    28, 32, 156, 8, 2,
    56, 64, 176, 8, 4,
    80, 92, 192, 8, 6,
    104, 116, 208, 8, 8,
    124, 140, 224, 8, 10,
    144, 164, 236, 8, 12,
    164, 184, 252, 8, 14,
    0, 24, 124, 9, 0,
    28, 56, 144, 9, 2,
    56, 84, 168, 9, 4,
    80, 112, 188, 9, 6,
    104, 136, 204, 9, 8,
    124, 156, 220, 9, 10,
    144, 180, 236, 9, 12,
    164, 200, 252, 9, 14,
    0, 44, 92, 10, 0,
    28, 76, 120, 10, 2,
    56, 104, 144, 10, 4,
    80, 132, 172, 10, 6,
    104, 156, 192, 10, 8,
    124, 180, 212, 10, 10,
    144, 204, 232, 10, 12,
    164, 224, 252, 10, 14,
    0, 60, 44, 11, 0,
    28, 92, 72, 11, 2,
    56, 124, 100, 11, 4,
    80, 156, 128, 11, 6,
    104, 180, 148, 11, 8,
    124, 208, 172, 11, 10,
    144, 228, 192, 11, 12,
    164, 252, 212, 11, 14,
    0, 60, 0, 12, 0,
    32, 92, 32, 12, 2,
    64, 124, 64, 12, 4,
    92, 156, 92, 12, 6,
    116, 180, 116, 12, 8,
    140, 208, 140, 12, 10,
    164, 228, 164, 12, 12,
    184, 252, 184, 12, 14,
    20, 56, 0, 13, 0,
    52, 92, 28, 13, 2,
    80, 124, 56, 13, 4,
    108, 152, 80, 13, 6,
    132, 180, 104, 13, 8,
    156, 204, 124, 13, 10,
    180, 228, 144, 13, 12,
    200, 252, 164, 13, 14,
    44, 48, 0, 14, 0,
    76, 80, 28, 14, 2,
    104, 112, 52, 14, 4,
    132, 140, 76, 14, 6,
    156, 168, 100, 14, 8,
    180, 192, 120, 14, 10,
    204, 212, 136, 14, 12,
    224, 236, 156, 14, 14,
    68, 40, 0, 15, 0,
    100, 72, 24, 15, 2,
    132, 104, 48, 15, 4,
    160, 132, 68, 15, 6,
    184, 156, 88, 15, 8,
    208, 180, 108, 15, 10,
    232, 204, 124, 15, 12,
    252, 224, 140, 15, 14,
];

/// One colour of the palette: the RGB triple shown on screen and the hue and
/// luminance that select it.
#[derive(Clone, Copy, Debug, PartialEq, Eq, Structural)]
pub struct PaletteEntry {
    pub red: u8,
    pub green: u8,
    pub blue: u8,
    pub hue: u8,
    pub luma: u8,
}

/// The colour register value for a hue and a luminance: `(hue << 4) | luma`.
pub open spec fn color_code(hue: u8, luma: u8) -> u8
    recommends
        hue < 16,
        luma < 16,
{
    (16 * hue + luma) as u8
}

impl PaletteEntry {
    /// The colour register value of this entry.
    pub open spec fn code(self) -> u8 {
        color_code(self.hue, self.luma)
    }

    /// Whether this entry shows exactly the given RGB triple.
    pub open spec fn has_rgb(self, red: u8, green: u8, blue: u8) -> bool {
        self.red == red && self.green == green && self.blue == blue
    }
}

/// Entry `i` of the palette, for `0 <= i < 128`.
pub open spec fn palette_entry(i: int) -> PaletteEntry
    recommends
        0 <= i < 128,
{
    PaletteEntry {
        red: VCS_NTSC_PALETTE[5 * i],
        green: VCS_NTSC_PALETTE[5 * i + 1],
        blue: VCS_NTSC_PALETTE[5 * i + 2],
        hue: VCS_NTSC_PALETTE[5 * i + 3],
        luma: VCS_NTSC_PALETTE[5 * i + 4],
    }
}

/// Whether some palette entry shows exactly this RGB triple.
pub open spec fn in_palette(red: u8, green: u8, blue: u8) -> bool {
    exists|i: int| 0 <= i < 128 && #[trigger] palette_entry(i).has_rgb(red, green, blue)
}

/// The index of an entry that shows this RGB triple, where there is one.
pub open spec fn palette_index(red: u8, green: u8, blue: u8) -> int {
    choose|i: int| 0 <= i < 128 && #[trigger] palette_entry(i).has_rgb(red, green, blue)
}

/// What a sample resolves to: the colour register value of the palette entry
/// with exactly this RGB triple if the sample is not fully transparent, and
/// nothing otherwise. There is no nearest-colour search.
#[verifier::opaque]
pub open spec fn matched_code(red: u8, green: u8, blue: u8, alpha: u8) -> Option<u8> {
    if alpha != 0 && in_palette(red, green, blue) {
        Some(palette_entry(palette_index(red, green, blue)).code())
    } else {
        None
    }
}

/// Every entry holds a hue below 16 and an even luminance below 16, and the
/// entries are laid out by hue and luminance, so that the colour register
/// value of entry `i` is `2 * i`.
pub proof fn lemma_palette_layout(i: int)
    requires
        0 <= i < 128,
    ensures
        palette_entry(i).hue == i / 8,
        palette_entry(i).luma == 2 * (i % 8),
        palette_entry(i).code() == 2 * i,
{
}

/// The RGB triple of entry `i` as one number.
spec fn rgb_key(i: int) -> int {
    65536 * VCS_NTSC_PALETTE[5 * i] + 256 * VCS_NTSC_PALETTE[5 * i + 1] + VCS_NTSC_PALETTE[5 * i
        + 2]
}

#[verifier::rlimit(60)]
#[verifier::spinoff_prover]
proof fn lemma_keys_distinct(i: int, j: int)
    requires
        0 <= i < j < 128,
    ensures
        rgb_key(i) != rgb_key(j),
{
}

/// No two palette entries show the same RGB triple.
pub proof fn lemma_palette_distinct(i: int, j: int)
    requires
        0 <= i < 128,
        0 <= j < 128,
        palette_entry(i).red == palette_entry(j).red,
        palette_entry(i).green == palette_entry(j).green,
        palette_entry(i).blue == palette_entry(j).blue,
    ensures
        i == j,
{
    assert(rgb_key(i) == rgb_key(j));
    if i < j {
        lemma_keys_distinct(i, j);
    } else if j < i {
        lemma_keys_distinct(j, i);
    }
}

/// Matching the exact RGB of a palette entry on a sample that is not fully
/// transparent gives that entry's colour register value.
pub proof fn lemma_entry_matches_itself(i: int, alpha: u8)
    requires
        0 <= i < 128,
        alpha != 0,
    ensures
        matched_code(
            palette_entry(i).red,
            palette_entry(i).green,
            palette_entry(i).blue,
            alpha,
        ) == Some(palette_entry(i).code()),
{
    reveal(matched_code);
    let e = palette_entry(i);
    assert(palette_entry(i).has_rgb(e.red, e.green, e.blue));
    lemma_palette_distinct(i, palette_index(e.red, e.green, e.blue));
}

/// An RGB triple that no palette entry shows matches nothing, whatever the
/// opacity; and a fully transparent sample matches nothing, whatever its colour.
pub proof fn lemma_unmatched(red: u8, green: u8, blue: u8, alpha: u8)
    requires
        alpha == 0 || forall|i: int|
            0 <= i < 128 ==> !(#[trigger] palette_entry(i)).has_rgb(red, green, blue),
    ensures
        matched_code(red, green, blue, alpha) is None,
{
    reveal(matched_code);
}

/// Reads entry `index` of the palette.
pub fn palette_entry_at(index: usize) -> (entry: PaletteEntry)
    requires
        index < 128,
    ensures
        entry == palette_entry(index as int),
{
    PaletteEntry {
        red: VCS_NTSC_PALETTE[5 * index],
        green: VCS_NTSC_PALETTE[5 * index + 1],
        blue: VCS_NTSC_PALETTE[5 * index + 2],
        hue: VCS_NTSC_PALETTE[5 * index + 3],
        luma: VCS_NTSC_PALETTE[5 * index + 4],
    }
}

/// Packs a hue and a luminance into a colour register value.
pub fn pack_color_code(hue: u8, luma: u8) -> (code: u8)
    ensures
        code == (hue << 4) | luma,
        hue < 16 && luma < 16 ==> code == color_code(hue, luma),
{
    assert(hue < 16 && luma < 16 ==> (hue << 4) | luma == 16 * hue + luma) by (bit_vector);
    (hue << 4) | luma
}

/// Looks a sample up in the palette by exact RGB equality. A fully
/// transparent sample, and a colour that is not in the palette, give `None`.
pub fn match_color(red: u8, green: u8, blue: u8, alpha: u8) -> (code: Option<u8>)
    ensures
        code == matched_code(red, green, blue, alpha),
{
    proof {
        reveal(matched_code);
    }
    if alpha == 0 {
        return None;
    }
    let mut c: usize = 0;
    while c < PALETTE_SIZE
        invariant
            alpha != 0,
            c <= 128,
            forall|i: int| 0 <= i < c ==> !(#[trigger] palette_entry(i)).has_rgb(red, green, blue),
        decreases 128 - c,
    {
        let entry: PaletteEntry = palette_entry_at(c);
        if red == entry.red && green == entry.green && blue == entry.blue {
            proof {
                reveal(matched_code);
                lemma_palette_layout(c as int);
                assert(palette_entry(c as int).has_rgb(red, green, blue));
                lemma_palette_distinct(c as int, palette_index(red, green, blue));
            }
            return Some(pack_color_code(entry.hue, entry.luma));
        }
        c += 1;
    }
    proof {
        reveal(matched_code);
    }
    None
}

} // verus!
