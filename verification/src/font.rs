//! The bitmap font of the text tool: a sheet of glyphs, three pixels wide and
//! seven high, laid out twenty to a row in cells of four by eight pixels.

use vstd::prelude::*;
use vstd::string::*;
use image::DynamicImage;
use crate::row::Pixel;
use crate::source::{
    dimensions, get_pixel, holds_floats, image_height, image_holds_floats, image_width,
    sample_at,
};

verus! {

/// The characters of the font, in the order of their glyphs on the sheet.
pub const CHARACTERS: &'static str =
    "ABCDEFGHIJKLMNOPQRSTUVWXYZabcdefghijklmnopqrstuvwxyz0123456789 <>\u{b0}\"'?!@*#$%&()+-";

/// Number of characters of the font.
pub const FONT_SIZE: usize = 80;

/// The glyphs of the font, that of character `i` of `CHARACTERS` at place
/// `i`. A glyph is seven rows of three pixels, the left pixel in bit 2.
#[derive(Clone, Debug, PartialEq, Eq)]
pub struct Font {
    pub glyphs: Vec<[u8; 7]>,
}

/// Whether the font has a glyph for a character.
pub open spec fn in_font(c: char) -> bool {
    exists|i: int| 0 <= i < 80 && #[trigger] CHARACTERS@[i] == c
}

/// The place of a character of the font in `CHARACTERS`.
pub open spec fn char_position(c: char) -> int {
    choose|i: int| 0 <= i < 80 && #[trigger] CHARACTERS@[i] == c
}

/// The font has eighty characters, and no character twice.
pub proof fn lemma_characters_distinct(i: int, j: int)
    requires
        0 <= i < 80,
        0 <= j < 80,
        CHARACTERS@[i] == CHARACTERS@[j],
    ensures
        CHARACTERS@.len() == 80,
        i == j,
{
    reveal_strlit(
        "ABCDEFGHIJKLMNOPQRSTUVWXYZabcdefghijklmnopqrstuvwxyz0123456789 <>\u{b0}\"'?!@*#$%&()+-",
    );
}

/// The column of the sheet at which the glyph of character `index` starts.
pub open spec fn glyph_left(index: int) -> int {
    (index % 20) * 4
}

/// The row of the sheet at which the glyph of character `index` starts.
pub open spec fn glyph_top(index: int) -> int {
    (index / 20) * 8
}

/// A pixel of the sheet belongs to the glyph unless it is fully opaque.
pub open spec fn glyph_bit(alpha: u8) -> int {
    if alpha != 255 {
        1
    } else {
        0
    }
}

/// One row of a glyph from the opacities of its three pixels, left to right.
pub open spec fn glyph_row(left: u8, middle: u8, right: u8) -> int {
    4 * glyph_bit(left) + 2 * glyph_bit(middle) + glyph_bit(right)
}

/// Row `y` of the glyph of character `index` on a sheet.
pub open spec fn sheet_row(img: DynamicImage, index: int, y: int) -> int {
    glyph_row(
        sample_at(img, glyph_left(index), glyph_top(index) + y).alpha,
        sample_at(img, glyph_left(index) + 1, glyph_top(index) + y).alpha,
        sample_at(img, glyph_left(index) + 2, glyph_top(index) + y).alpha,
    )
}

/// The glyph of character `index` on a sheet.
pub open spec fn sheet_glyph(img: DynamicImage, index: int) -> Seq<u8> {
    Seq::new(7, |y: int| sheet_row(img, index, y) as u8)
}

/// Whether an image of the given size is large enough to hold the glyphs of
/// all characters.
pub open spec fn is_font_size(width: int, height: int) -> bool {
    width >= 79 && height >= 31
}

/// Whether the font can be read from an image: the image stores integer
/// samples and is large enough to hold the glyphs of all characters.
pub open spec fn is_font_sheet(img: DynamicImage) -> bool {
    !image_holds_floats(img) && is_font_size(image_width(img), image_height(img))
}

impl Font {
    /// There is one glyph for each character, and a glyph row has three bits.
    pub open spec fn well_formed(self) -> bool {
        &&& self.glyphs@.len() == 80
        &&& forall|i: int, y: int|
            0 <= i < 80 && 0 <= y < 7 ==> (#[trigger] self.glyphs@[i]@[y]) < 8
    }

    /// The glyph of a character of the font.
    pub open spec fn glyph_of(self, c: char) -> Seq<u8> {
        self.glyphs@[char_position(c)]@
    }

    /// Looks up the glyph of a character.
    pub fn glyph(&self, c: char) -> (found: Option<[u8; 7]>)
        requires
            self.well_formed(),
        ensures
            found is Some <==> in_font(c),
            found matches Some(glyph) ==> glyph@ == self.glyph_of(c),
    {
        match position(c) {
            Some(i) => Some(self.glyphs[i]),
            None => None,
        }
    }
}

/// Finds the place of a character in `CHARACTERS`.
pub fn position(c: char) -> (place: Option<usize>)
    ensures
        place is Some <==> in_font(c),
        place matches Some(i) ==> i == char_position(c) && i < 80,
{
    proof {
        reveal_strlit(
            "ABCDEFGHIJKLMNOPQRSTUVWXYZabcdefghijklmnopqrstuvwxyz0123456789 <>\u{b0}\"'?!@*#$%&()+-",
        );
    }
    let mut i: usize = 0;
    while i < FONT_SIZE
        invariant
            i <= 80,
            CHARACTERS@.len() == 80,
            forall|k: int| 0 <= k < i ==> #[trigger] CHARACTERS@[k] != c,
        decreases 80 - i,
    {
        if CHARACTERS.get_char(i) == c {
            proof {
                lemma_characters_distinct(i as int, char_position(c));
            }
            return Some(i);
        }
        i += 1;
    }
    None
}

/// Tells whether an image of the given size is large enough to hold the
/// glyphs of all characters: the last glyph of a row of the sheet ends at
/// column 79, and the last row of glyphs at row 31.
pub fn font_fits(width: u32, height: u32) -> (ok: bool)
    ensures
        ok == is_font_size(width as int, height as int),
{
    width >= 79 && height >= 31
}

/// Tells whether the font can be read from an image.
pub fn holds_font(img: &DynamicImage) -> (ok: bool)
    ensures
        ok == is_font_sheet(*img),
{
    if holds_floats(img) {
        return false;
    }
    let (width, height) = dimensions(img);
    font_fits(width, height)
}

/// Packs the three pixels of a glyph row from their opacities.
pub fn pack_glyph_row(left: u8, middle: u8, right: u8) -> (row: u8)
    ensures
        row == glyph_row(left, middle, right),
        row < 8,
{
    let mut row: u8 = 0;
    if left != 255 {
        row = row + 4;
    }
    if middle != 255 {
        row = row + 2;
    }
    if right != 255 {
        row = row + 1;
    }
    row
}

/// Reads the glyph of character `index` from the sheet.
pub fn read_glyph(img: &DynamicImage, index: u32) -> (glyph: [u8; 7])
    requires
        index < 80,
        is_font_sheet(*img),
    ensures
        glyph@ == sheet_glyph(*img, index as int),
        forall|y: int| 0 <= y < 7 ==> #[trigger] glyph@[y] < 8,
{
    let left: u32 = (index % 20) * 4;
    let top: u32 = (index / 20) * 8;
    let mut glyph: [u8; 7] = [0; 7];
    let mut y: u32 = 0;
    while y < 7
        invariant
            y <= 7,
            index < 80,
            is_font_sheet(*img),
            left == glyph_left(index as int),
            top == glyph_top(index as int),
            forall|k: int| 0 <= k < y ==> #[trigger] glyph@[k] == sheet_row(*img, index as int, k),
        decreases 7 - y,
    {
        let a: Pixel = get_pixel(img, left, top + y);
        let b: Pixel = get_pixel(img, left + 1, top + y);
        let c: Pixel = get_pixel(img, left + 2, top + y);
        glyph[y as usize] = pack_glyph_row(a.alpha, b.alpha, c.alpha);
        y += 1;
    }
    assert(glyph@ =~= sheet_glyph(*img, index as int));
    glyph
}

/// Reads the font from its sheet.
pub fn read_font(img: &DynamicImage) -> (font: Font)
    requires
        is_font_sheet(*img),
    ensures
        font.well_formed(),
        forall|i: int| 0 <= i < 80 ==> (#[trigger] font.glyphs@[i])@ == sheet_glyph(*img, i),
{
    let mut glyphs: Vec<[u8; 7]> = Vec::new();
    let mut i: u32 = 0;
    while i < 80
        invariant
            i <= 80,
            is_font_sheet(*img),
            glyphs@.len() == i,
            forall|k: int| 0 <= k < i ==> (#[trigger] glyphs@[k])@ == sheet_glyph(*img, k),
            forall|k: int, y: int| 0 <= k < i && 0 <= y < 7 ==> (#[trigger] glyphs@[k]@[y]) < 8,
        decreases 80 - i,
    {
        let glyph: [u8; 7] = read_glyph(img, i);
        glyphs.push(glyph);
        i += 1;
    }
    Font { glyphs }
}

/// Reads the font from its sheet where the image can be one, and gives
/// `None` where it cannot: where it is too small, or stores floating-point
/// samples.
pub fn try_read_font(img: &DynamicImage) -> (result: Option<Font>)
    ensures
        result is Some <==> is_font_sheet(*img),
        result matches Some(font) ==> font.well_formed() && forall|i: int|
            0 <= i < 80 ==> (#[trigger] font.glyphs@[i])@ == sheet_glyph(*img, i),
{
    if holds_font(img) {
        Some(read_font(img))
    } else {
        None
    }
}

} // verus!
