//! Encoding of one scan line: eight samples become one bitmask byte, most
//! significant bit first, and at most one colour register value.

use vstd::prelude::*;
use crate::palette::{lemma_unmatched, match_color, matched_code};

verus! {

/// Number of sprite pixels on a scan line.
pub const ROW_WIDTH: usize = 8;

/// One sample of the source image.
#[derive(Clone, Copy, Debug, PartialEq, Eq, Structural)]
pub struct Pixel {
    pub red: u8,
    pub green: u8,
    pub blue: u8,
    pub alpha: u8,
}

impl Pixel {
    /// A sample sets its bit unless it is fully transparent.
    pub open spec fn is_opaque(self) -> bool {
        self.alpha != 0
    }

    /// The colour register value this sample resolves to, if any.
    pub open spec fn code(self) -> Option<u8> {
        matched_code(self.red, self.green, self.blue, self.alpha)
    }
}

/// What one scan line encodes to.
#[derive(Clone, Copy, Debug, PartialEq, Eq, Structural)]
pub struct Row {
    /// Bit `7 - x` is set when sample `x` is opaque.
    pub mask: u8,
    /// The colour of the line, where a sample resolved to one.
    pub color: Option<u8>,
}

/// The value of the bit that sample `x` of a line sets.
pub open spec fn bit_weight(x: int) -> int
    recommends
        0 <= x < 8,
{
    if x == 0 {
        128
    } else if x == 1 {
        64
    } else if x == 2 {
        32
    } else if x == 3 {
        16
    } else if x == 4 {
        8
    } else if x == 5 {
        4
    } else if x == 6 {
        2
    } else {
        1
    }
}

/// What sample `x` of a line adds to the bitmask.
pub open spec fn sample_bit(samples: Seq<Pixel>, x: int) -> int {
    if samples[x].is_opaque() {
        bit_weight(x)
    } else {
        0
    }
}

/// The bitmask of a line of eight samples.
pub open spec fn row_mask(samples: Seq<Pixel>) -> int
    recommends
        samples.len() == 8,
{
    sample_bit(samples, 0) + sample_bit(samples, 1) + sample_bit(samples, 2) + sample_bit(
        samples,
        3,
    ) + sample_bit(samples, 4) + sample_bit(samples, 5) + sample_bit(samples, 6) + sample_bit(
        samples,
        7,
    )
}

/// Whether bit `7 - x` of a bitmask is set, that is whether pixel `x` of the
/// line it encodes is opaque.
pub open spec fn mask_bit(mask: u8, x: int) -> bool
    recommends
        0 <= x < 8,
{
    (mask as int / bit_weight(x)) % 2 == 1
}

/// The colour of the first of the samples `0..n` that resolves to one.
pub open spec fn first_code(samples: Seq<Pixel>, n: int) -> Option<u8>
    decreases n,
{
    if n <= 0 {
        None
    } else if first_code(samples, n - 1) is Some {
        first_code(samples, n - 1)
    } else {
        samples[n - 1].code()
    }
}

/// The colour of a line: that of its first sample that resolves to one.
pub open spec fn row_color(samples: Seq<Pixel>) -> Option<u8>
    recommends
        samples.len() == 8,
{
    first_code(samples, 8)
}

/// Whether two of the samples `0..n` resolve to different colours.
pub open spec fn conflict_within(samples: Seq<Pixel>, n: int) -> bool {
    exists|i: int, j: int|
        0 <= i < j < n && (#[trigger] samples[i]).code() is Some && (
        #[trigger] samples[j]).code() is Some && samples[i].code() != samples[j].code()
}

/// Whether a line asks for two colours, which the hardware cannot show.
pub open spec fn row_conflict(samples: Seq<Pixel>) -> bool
    recommends
        samples.len() == 8,
{
    conflict_within(samples, 8)
}

/// The byte stored for a line's colour: 0 where the line has none.
pub open spec fn color_byte(color: Option<u8>) -> u8 {
    match color {
        Some(code) => code,
        None => 0,
    }
}

/// Where `first_code` finds a colour, some sample among `0..n` resolves to it.
proof fn lemma_first_code_witness(samples: Seq<Pixel>, n: int) -> (k: int)
    requires
        first_code(samples, n) is Some,
    ensures
        0 <= k < n,
        samples[k].code() == first_code(samples, n),
    decreases n,
{
    if first_code(samples, n - 1) is Some {
        lemma_first_code_witness(samples, n - 1)
    } else {
        n - 1
    }
}

/// Where `first_code` finds none, no sample among `0..n` resolves to a colour.
proof fn lemma_first_code_none(samples: Seq<Pixel>, n: int)
    requires
        first_code(samples, n) is None,
    ensures
        forall|k: int| 0 <= k < n ==> (#[trigger] samples[k]).code() is None,
    decreases n,
{
    if n > 0 {
        lemma_first_code_none(samples, n - 1);
    }
}

/// Without a conflict, every sample that resolves to a colour resolves to the
/// colour of the line.
pub proof fn lemma_row_color_shared(samples: Seq<Pixel>, x: int)
    requires
        samples.len() == 8,
        !row_conflict(samples),
        0 <= x < 8,
        samples[x].code() is Some,
    ensures
        row_color(samples) == samples[x].code(),
{
    if row_color(samples) is Some {
        let k = lemma_first_code_witness(samples, 8);
        if k < x {
            assert(samples[k].code() is Some && samples[x].code() is Some);
        } else if x < k {
            assert(samples[x].code() is Some && samples[k].code() is Some);
        }
    } else {
        lemma_first_code_none(samples, 8);
    }
}

/// A line on which two samples resolve to different colours holds a conflict.
pub proof fn lemma_two_colors_conflict(samples: Seq<Pixel>, i: int, j: int)
    requires
        samples.len() == 8,
        0 <= i < 8,
        0 <= j < 8,
        samples[i].code() is Some,
        samples[j].code() is Some,
        samples[i].code() != samples[j].code(),
    ensures
        row_conflict(samples),
{
    if i < j {
        assert(samples[i].code() is Some && samples[j].code() is Some);
    } else {
        assert(samples[j].code() is Some && samples[i].code() is Some);
    }
}

/// A line without opaque samples encodes to bitmask 0, has no colour, so
/// that its colour byte is 0, and holds no conflict.
pub proof fn lemma_transparent_row(samples: Seq<Pixel>)
    requires
        samples.len() == 8,
        forall|x: int| 0 <= x < 8 ==> !(#[trigger] samples[x]).is_opaque(),
    ensures
        row_mask(samples) == 0,
        row_color(samples) is None,
        color_byte(row_color(samples)) == 0,
        !row_conflict(samples),
{
    reveal_with_fuel(first_code, 9);
    assert forall|x: int| 0 <= x < 8 implies (#[trigger] samples[x]).code() is None by {
        lemma_unmatched(samples[x].red, samples[x].green, samples[x].blue, samples[x].alpha);
    }
}

/// Reading the bits of a line's bitmask back gives the opacity of its
/// samples: bit `7 - x` is set exactly when sample `x` is opaque.
pub proof fn lemma_mask_round_trip(samples: Seq<Pixel>, x: int)
    requires
        samples.len() == 8,
        0 <= x < 8,
    ensures
        0 <= row_mask(samples) < 256,
        mask_bit(row_mask(samples) as u8, x) == samples[x].is_opaque(),
{
    let m = row_mask(samples);
    let b0 = sample_bit(samples, 0) / 128;
    let b1 = sample_bit(samples, 1) / 64;
    let b2 = sample_bit(samples, 2) / 32;
    let b3 = sample_bit(samples, 3) / 16;
    let b4 = sample_bit(samples, 4) / 8;
    let b5 = sample_bit(samples, 5) / 4;
    let b6 = sample_bit(samples, 6) / 2;
    let b7 = sample_bit(samples, 7);
    assert(m == 128 * b0 + 64 * b1 + 32 * b2 + 16 * b3 + 8 * b4 + 4 * b5 + 2 * b6 + b7);
    if x == 0 {
        assert(m / 128 == b0);
    } else if x == 1 {
        assert(m / 64 == 2 * b0 + b1);
    } else if x == 2 {
        assert(m / 32 == 2 * (2 * b0 + b1) + b2);
    } else if x == 3 {
        assert(m / 16 == 2 * (4 * b0 + 2 * b1 + b2) + b3);
    } else if x == 4 {
        assert(m / 8 == 2 * (8 * b0 + 4 * b1 + 2 * b2 + b3) + b4);
    } else if x == 5 {
        assert(m / 4 == 2 * (16 * b0 + 8 * b1 + 4 * b2 + 2 * b3 + b4) + b5);
    } else if x == 6 {
        assert(m / 2 == 2 * (32 * b0 + 16 * b1 + 8 * b2 + 4 * b3 + 2 * b4 + b5) + b6);
    } else {
        assert(m == 2 * (64 * b0 + 32 * b1 + 16 * b2 + 8 * b3 + 4 * b4 + 2 * b5 + b6) + b7);
    }
}

/// Tells whether pixel `x` of a bitmask is set.
pub fn pixel_is_set(mask: u8, x: u8) -> (set: bool)
    requires
        x < 8,
    ensures
        set == mask_bit(mask, x as int),
{
    let shift: u8 = 7 - x;
    assert(((mask >> shift) & 1 == 1) == ((mask / (1u8 << shift)) % 2 == 1)) by (bit_vector)
        requires
            shift < 8,
    ;
    assert((1u8 << shift) == bit_weight(x as int)) by {
        assert(1u8 << 0u8 == 1 && 1u8 << 1u8 == 2 && 1u8 << 2u8 == 4 && 1u8 << 3u8 == 8 && 1u8
            << 4u8 == 16 && 1u8 << 5u8 == 32 && 1u8 << 6u8 == 64 && 1u8 << 7u8 == 128)
            by (bit_vector);
    }
    (mask >> shift) & 1 == 1
}

/// The bitmask of the samples `0..n`, as the encoder holds it after `n` steps.
spec fn mask_prefix(samples: Seq<Pixel>, n: int) -> int
    decreases n,
{
    if n <= 0 {
        0
    } else {
        2 * mask_prefix(samples, n - 1) + if samples[n - 1].is_opaque() {
            1int
        } else {
            0int
        }
    }
}

proof fn lemma_mask_prefix_bound(samples: Seq<Pixel>, n: int)
    requires
        0 <= n <= 7,
    ensures
        0 <= mask_prefix(samples, n) < 128,
    decreases n,
{
    reveal_with_fuel(mask_prefix, 8);
}

/// Encodes one scan line. Each opaque sample sets its bit, whether or not its
/// colour is in the palette. The line takes the colour of its first sample
/// that resolves to one; a later sample that resolves to another colour is a
/// conflict, and the line cannot be encoded.
pub fn encode_row(samples: &[Pixel; 8]) -> (row: Option<Row>)
    ensures
        row is None <==> row_conflict(samples@),
        row matches Some(r) ==> r.mask == row_mask(samples@) && r.color == row_color(samples@),
{
    let mut mask: u8 = 0;
    let mut color: Option<u8> = None;
    let mut x: usize = 0;
    while x < ROW_WIDTH
        invariant
            x <= 8,
            mask == mask_prefix(samples@, x as int),
            color == first_code(samples@, x as int),
            !conflict_within(samples@, x as int),
        decreases 8 - x,
    {
        let sample: Pixel = samples[x];
        proof {
            lemma_mask_prefix_bound(samples@, x as int);
        }
        mask = mask * 2;
        if sample.alpha != 0 {
            mask = mask + 1;
            if let Some(code) = match_color(sample.red, sample.green, sample.blue, sample.alpha) {
                match color {
                    Some(current) => {
                        if current != code {
                            proof {
                                let k = lemma_first_code_witness(samples@, x as int);
                                assert(samples@[k].code() is Some);
                                assert(samples@[x as int].code() is Some);
                            }
                            return None;
                        }
                    },
                    None => {
                        color = Some(code);
                    },
                }
            }
        }
        proof {
            let n = x as int;
            if sample.alpha == 0 {
                lemma_unmatched(sample.red, sample.green, sample.blue, sample.alpha);
            }
            assert forall|i: int, j: int|
                0 <= i < j < n + 1 && (#[trigger] samples@[i]).code() is Some && (
                #[trigger] samples@[j]).code() is Some implies samples@[i].code()
                == samples@[j].code() by {
                if j == n {
                    if first_code(samples@, n) is Some {
                        let k = lemma_first_code_witness(samples@, n);
                        if k < i {
                            assert(samples@[k].code() is Some && samples@[i].code() is Some);
                        } else if i < k {
                            assert(samples@[i].code() is Some && samples@[k].code() is Some);
                        }
                    } else {
                        lemma_first_code_none(samples@, n);
                    }
                } else {
                    assert(samples@[i].code() is Some && samples@[j].code() is Some);
                }
            }
        }
        x += 1;
    }
    proof {
        reveal_with_fuel(mask_prefix, 9);
    }
    Some(Row { mask, color })
}

} // verus!
