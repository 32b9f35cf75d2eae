//! Encoding of one sprite: a column of scan lines cut out of the source
//! artwork, each reduced to a bitmask byte and a colour byte.

use vstd::prelude::*;
use vstd::string::*;
use image::DynamicImage;
use crate::error::Error;
use crate::row::{color_byte, encode_row, row_color, row_conflict, row_mask, Pixel};
use crate::source::{
    dimensions, holds_floats, image_height, image_holds_floats, image_width, row_samples,
    sample_row,
};
use crate::table::uniform;

verus! {

/// The sampling stride of a sprite that names none.
pub fn default_pixel_width() -> (width: u8)
    ensures
        width == 1,
{
    1
}

/// Whether a sprite that does not say so is aligned on a page.
pub fn default_aligned() -> (aligned: bool)
    ensures
        !aligned,
{
    false
}

/// Where a sprite lies in the artwork: its top-left corner and its number of
/// scan lines. A sprite is always eight pixels wide.
#[derive(Clone, Copy, Debug, PartialEq, Eq, Structural)]
pub struct Region {
    pub top: u32,
    pub left: u32,
    pub height: u32,
}

/// The description of one sprite, as the configuration gives it.
#[derive(Clone, Debug, PartialEq, Eq)]
pub struct SpriteSpec {
    /// The name the generated symbols start with.
    pub name: String,
    pub region: Region,
    /// How many columns of the artwork make one sprite pixel: sample `x` of a
    /// line is taken at column `left + x * pixel_width`.
    pub pixel_width: u32,
    /// The sprite whose colour table this one uses in place of its own.
    pub color_copy: Option<String>,
    /// Where in that table this sprite's colours start.
    pub color_offset: Option<u8>,
    /// Whether the bitmask table is placed on a 256-byte boundary.
    pub pixel_alignment: bool,
}

/// The tables of one sprite, one entry per scan line, top to bottom.
#[derive(Clone, Debug, PartialEq, Eq)]
pub struct EncodedSprite {
    /// The bitmask of each line: bit `7 - x` is pixel `x`.
    pub gfx: Vec<u8>,
    /// The colour register value of each line, 0 where the line has none.
    pub colors: Vec<u8>,
}

impl EncodedSprite {
    /// Both tables hold one entry per scan line.
    pub open spec fn well_formed(self) -> bool {
        self.gfx@.len() == self.colors@.len()
    }
}

/// The samples of each line of a list of lines.
pub open spec fn line_views(lines: Seq<[Pixel; 8]>) -> Seq<Seq<Pixel>> {
    Seq::new(lines.len(), |y: int| lines[y]@)
}

/// Whether one of the first `n` lines asks for two colours.
pub open spec fn conflict_before(lines: Seq<Seq<Pixel>>, n: int) -> bool {
    exists|y: int| 0 <= y < n && row_conflict(#[trigger] lines[y])
}

/// The bitmask table of a list of lines.
pub open spec fn gfx_of(lines: Seq<Seq<Pixel>>) -> Seq<u8> {
    Seq::new(lines.len(), |y: int| row_mask(lines[y]) as u8)
}

/// The colour table of a list of lines: the colour of each line, and 0 for a
/// line without one.
pub open spec fn colors_of(lines: Seq<Seq<Pixel>>) -> Seq<u8> {
    Seq::new(lines.len(), |y: int| color_byte(row_color(lines[y])))
}

impl SpriteSpec {
    /// Whether every sample of the sprite can be read from the image: the
    /// image stores integer samples, and every sample of the sprite lies
    /// inside it. A sprite without scan lines reads nothing, from any image.
    pub open spec fn readable(self, img: DynamicImage) -> bool {
        self.region.height == 0 || (!image_holds_floats(img) && self.fits_size(
            image_width(img),
            image_height(img),
        ))
    }

    /// Whether every sample of the sprite lies inside an image of the given
    /// size.
    pub open spec fn fits_size(self, width: int, height: int) -> bool {
        self.region.height == 0 || (self.region.left + 7 * self.pixel_width < width
            && self.region.top + self.region.height <= height)
    }

    /// Whether the sprite gets colour tables of its own: it does unless it
    /// uses the table of another sprite or all its lines have the same colour.
    pub open spec fn needs_color_tables(self, colors: Seq<u8>) -> bool {
        self.color_copy is None && !uniform(colors)
    }

    /// The eight samples of scan line `y` of the sprite.
    pub open spec fn line(self, img: DynamicImage, y: int) -> Seq<Pixel> {
        row_samples(img, self.region.left as int, self.pixel_width as int, self.region.top + y)
    }

    /// The scan lines of the sprite, top to bottom.
    pub open spec fn lines(self, img: DynamicImage) -> Seq<Seq<Pixel>> {
        Seq::new(self.region.height as nat, |y: int| self.line(img, y))
    }

    /// A sprite with the default stride, no shared colour table and no
    /// alignment.
    pub fn new(name: String, region: Region) -> (spec: SpriteSpec)
        ensures
            spec.name == name,
            spec.region == region,
            spec.pixel_width == 1,
            spec.color_copy is None,
            spec.color_offset is None,
            !spec.pixel_alignment,
    {
        SpriteSpec {
            name,
            region,
            pixel_width: default_pixel_width() as u32,
            color_copy: None,
            color_offset: None,
            pixel_alignment: default_aligned(),
        }
    }

    /// Tells whether every sample of the sprite lies inside an image of the
    /// given size.
    pub fn fits_within(&self, width: u32, height: u32) -> (ok: bool)
        ensures
            ok == self.fits_size(width as int, height as int),
    {
        if self.region.height == 0 {
            return true;
        }
        let right: u64 = self.region.left as u64 + 7 * (self.pixel_width as u64);
        let bottom: u64 = self.region.top as u64 + self.region.height as u64;
        right < width as u64 && bottom <= height as u64
    }

    /// Tells whether every sample of the sprite can be read from the image.
    pub fn is_readable(&self, img: &DynamicImage) -> (ok: bool)
        ensures
            ok == self.readable(*img),
    {
        if self.region.height == 0 {
            return true;
        }
        if holds_floats(img) {
            return false;
        }
        let (width, height) = dimensions(img);
        self.fits_within(width, height)
    }
}

/// A line without opaque samples gives bitmask 0 and colour byte 0, and
/// holds no conflict.
pub proof fn lemma_transparent_line(lines: Seq<Seq<Pixel>>, y: int)
    requires
        0 <= y < lines.len(),
        lines[y].len() == 8,
        forall|x: int| 0 <= x < 8 ==> !(#[trigger] lines[y][x]).is_opaque(),
    ensures
        gfx_of(lines)[y] == 0,
        colors_of(lines)[y] == 0,
        !row_conflict(lines[y]),
{
    crate::row::lemma_transparent_row(lines[y]);
}

/// A list of lines with a line on which two samples resolve to different
/// colours holds a conflict, so that it cannot be encoded.
pub proof fn lemma_conflict_line(lines: Seq<Seq<Pixel>>, y: int, i: int, j: int)
    requires
        0 <= y < lines.len(),
        lines[y].len() == 8,
        0 <= i < 8,
        0 <= j < 8,
        lines[y][i].code() is Some,
        lines[y][j].code() is Some,
        lines[y][i].code() != lines[y][j].code(),
    ensures
        row_conflict(lines[y]),
        conflict_before(lines, lines.len() as int),
{
    crate::row::lemma_two_colors_conflict(lines[y], i, j);
}

/// Encodes a list of lines, from the first on. The first line that asks for
/// two colours ends the work: the error names that line and the sprite, and
/// nothing of the sprite is returned.
pub fn encode_lines(name: &str, lines: &Vec<[Pixel; 8]>) -> (result: Result<EncodedSprite, Error>)
    ensures
        result is Err <==> conflict_before(line_views(lines@), lines@.len() as int),
        result matches Ok(sprite) ==> sprite.gfx@ == gfx_of(line_views(lines@)) && sprite.colors@
            == colors_of(line_views(lines@)) && sprite.well_formed(),
        result matches Err(e) ==> e matches Error::SecondColor { line, sprite } && sprite@ == name@
            && line < lines@.len() && row_conflict(line_views(lines@)[line as int])
            && !conflict_before(line_views(lines@), line as int),
{
    let ghost views = line_views(lines@);
    let mut gfx: Vec<u8> = Vec::new();
    let mut colors: Vec<u8> = Vec::new();
    let mut y: usize = 0;
    while y < lines.len()
        invariant
            y <= lines.len(),
            views == line_views(lines@),
            gfx@.len() == y,
            colors@.len() == y,
            !conflict_before(views, y as int),
            forall|k: int| 0 <= k < y ==> gfx@[k] == row_mask(views[k]) as u8,
            forall|k: int| 0 <= k < y ==> colors@[k] == color_byte(row_color(views[k])),
        decreases lines.len() - y,
    {
        assert(views[y as int] == lines@[y as int]@);
        match encode_row(&lines[y]) {
            Some(row) => {
                gfx.push(row.mask);
                colors.push(
                    match row.color {
                        Some(code) => code,
                        None => 0,
                    },
                );
            },
            None => {
                return Err(Error::SecondColor { line: y, sprite: String::from_str(name) });
            },
        }
        y += 1;
    }
    assert(gfx@ =~= gfx_of(views));
    assert(colors@ =~= colors_of(views));
    Ok(EncodedSprite { gfx, colors })
}

/// Reads the scan lines of a sprite from the image, top to bottom.
pub fn sample_lines(spec: &SpriteSpec, img: &DynamicImage) -> (lines: Vec<[Pixel; 8]>)
    requires
        spec.readable(*img),
    ensures
        lines@.len() == spec.region.height,
        line_views(lines@) == spec.lines(*img),
{
    let mut lines: Vec<[Pixel; 8]> = Vec::new();
    let mut y: u32 = 0;
    while y < spec.region.height
        invariant
            spec.readable(*img),
            y <= spec.region.height,
            lines@.len() == y,
            forall|k: int| 0 <= k < y ==> (#[trigger] lines@[k])@ == spec.line(*img, k),
        decreases spec.region.height - y,
    {
        let samples: [Pixel; 8] = sample_row(
            img,
            spec.region.left,
            spec.pixel_width,
            spec.region.top + y,
        );
        lines.push(samples);
        y += 1;
    }
    assert(line_views(lines@) =~= spec.lines(*img));
    lines
}

/// Encodes a sprite: reads its scan lines from the image and encodes them.
/// A line that asks for two colours is an error, which names the first such
/// line, counted from the top of the sprite, and the sprite.
pub fn encode_sprite(spec: &SpriteSpec, img: &DynamicImage) -> (result: Result<
    EncodedSprite,
    Error,
>)
    requires
        spec.readable(*img),
    ensures
        result is Err <==> conflict_before(spec.lines(*img), spec.region.height as int),
        result matches Ok(sprite) ==> sprite.gfx@ == gfx_of(spec.lines(*img)) && sprite.colors@
            == colors_of(spec.lines(*img)) && sprite.gfx@.len() == spec.region.height
            && sprite.well_formed(),
        result matches Err(e) ==> e matches Error::SecondColor { line, sprite } && sprite@
            == spec.name@ && line < spec.region.height && row_conflict(
            spec.line(*img, line as int),
        ) && !conflict_before(spec.lines(*img), line as int),
{
    let lines: Vec<[Pixel; 8]> = sample_lines(spec, img);
    let result = encode_lines(spec.name.as_str(), &lines);
    proof {
        if let Err(Error::SecondColor { line, .. }) = result {
            assert(spec.lines(*img)[line as int] == spec.line(*img, line as int));
        }
    }
    result
}

/// Encodes a sprite where it can be read from the image, and gives `None`
/// where it cannot: where it reaches outside the image, or the image stores
/// floating-point samples.
pub fn try_encode_sprite(spec: &SpriteSpec, img: &DynamicImage) -> (result: Option<
    Result<EncodedSprite, Error>,
>)
    ensures
        result is Some <==> spec.readable(*img),
        result matches Some(encoded) ==> {
            &&& encoded is Err <==> conflict_before(spec.lines(*img), spec.region.height as int)
            &&& encoded matches Ok(sprite) ==> sprite.gfx@ == gfx_of(spec.lines(*img))
                && sprite.colors@ == colors_of(spec.lines(*img)) && sprite.gfx@.len()
                == spec.region.height && sprite.well_formed()
            &&& encoded matches Err(e) ==> e matches Error::SecondColor { line, sprite } && sprite@
                == spec.name@ && line < spec.region.height && row_conflict(
                spec.line(*img, line as int),
            ) && !conflict_before(spec.lines(*img), line as int)
        },
{
    if spec.is_readable(img) {
        Some(encode_sprite(spec, img))
    } else {
        None
    }
}

} // verus!
