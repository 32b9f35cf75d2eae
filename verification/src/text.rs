//! Lines of text as rows of glyphs: a line is brought to a fixed length, its
//! glyphs are packed two to a byte, and the bytes are written as a C table.

use vstd::prelude::*;
use vstd::string::*;
use vstd::utf8::{decode_utf8, encode_utf8, encode_utf8_decode_utf8, is_char_boundary};
use crate::emit::{decimal, push_decimal};
use crate::error::Error;
use crate::font::{in_font, position, Font};

verus! {

/// The number of characters on a line of text that is `width` pixels wide: a
/// character takes four pixels.
pub fn line_length(width: u8) -> (length: usize)
    ensures
        length == width / 4,
{
    width as usize / 4
}

/// `count` spaces.
pub open spec fn spaces(count: int) -> Seq<char> {
    Seq::new(count as nat, |i: int| ' ')
}

/// A line brought to `length` bytes of UTF-8: a shorter line is filled up
/// with spaces, a longer one is cut.
pub open spec fn fitted_text(line: Seq<char>, length: int) -> Seq<char> {
    if encode_utf8(line).len() < length {
        line + spaces(length - encode_utf8(line).len())
    } else {
        decode_utf8(encode_utf8(line).subrange(0, length))
    }
}

/// Whether a line can be brought to `length` bytes: a longer line can where
/// the cut does not fall inside a character.
pub open spec fn can_fit(line: Seq<char>, length: int) -> bool {
    encode_utf8(line).len() >= length ==> is_char_boundary(encode_utf8(line), length)
}

/// Whether the font has a glyph for each of the first `n` characters.
pub open spec fn known_before(text: Seq<char>, n: int) -> bool {
    forall|i: int| 0 <= i < n ==> in_font(#[trigger] text[i])
}

/// Row `y` of the glyph of character `i` of a text, and 0 where the text has
/// no such character.
pub open spec fn glyph_half(font: Font, text: Seq<char>, i: int, y: int) -> int {
    if 0 <= i < text.len() {
        font.glyph_of(text[i])[y] as int
    } else {
        0
    }
}

/// Byte `j` of a packed line. Seven bytes make one cell of two characters,
/// one byte for each glyph row: the first character of the cell in the high
/// nibble, the second in the low one.
pub open spec fn packed_byte(font: Font, text: Seq<char>, j: int) -> int {
    16 * glyph_half(font, text, 2 * (j / 7), j % 7) + glyph_half(font, text, 2 * (j / 7) + 1, j % 7)
}

/// The bytes of a line of `length` characters.
pub open spec fn packed_line(font: Font, text: Seq<char>, length: int) -> Seq<u8> {
    Seq::new((length / 2 * 7) as nat, |j: int| packed_byte(font, text, j) as u8)
}

/// Whether a line of `length` characters has a cell for every character of
/// a text up to the first one that the font does not know.
pub open spec fn cells_suffice(text: Seq<char>, length: int) -> bool {
    forall|n: int|
        0 <= n <= text.len() && #[trigger] known_before(text, n) ==> n <= 2 * (length / 2)
}

/// The first `n` entries of a table, each followed by a comma and a space,
/// and every seventh also by a line break and a tab.
pub open spec fn entries_text(bytes: Seq<u8>, n: int) -> Seq<char>
    decreases n,
{
    if n <= 0 {
        Seq::empty()
    } else {
        entries_text(bytes, n - 1) + decimal(bytes[n - 1] as nat) + ", "@ + if n % 7 == 0 {
            "\n\t"@
        } else {
            Seq::empty()
        }
    }
}

/// The declaration of the table of line `number`.
pub open spec fn line_text(number: nat, bytes: Seq<u8>) -> Seq<char> {
    "const char line"@ + decimal(number) + "["@ + decimal(bytes.len()) + "] = {\n\t"@
        + entries_text(bytes, bytes.len() - 1) + decimal(bytes.last() as nat) + "};\n"@
}

/// Whether a line can be rendered at `length` characters: it can be brought
/// to that length, every character up to the first unknown one has a cell,
/// the table is not empty, and its size can be counted.
pub open spec fn renders(line: Seq<char>, length: int) -> bool {
    &&& can_fit(line, length)
    &&& cells_suffice(fitted_text(line, length), length)
    &&& known_before(fitted_text(line, length), fitted_text(line, length).len() as int) ==> length
        >= 2
    &&& length / 2 * 7 <= usize::MAX
}

/// Brings a line to `length` bytes.
pub fn fit_line(line: &str, length: usize) -> (text: String)
    requires
        can_fit(line@, length as int),
    ensures
        text@ == fitted_text(line@, length as int),
{
    let size: usize = line.as_bytes().len();
    if size < length {
        let missing: usize = length - size;
        let mut text: String = String::from_str(line);
        let mut i: usize = 0;
        assert(text@ =~= line@ + spaces(0));
        while i < missing
            invariant
                i <= missing,
                text@ == line@ + spaces(i as int),
            decreases missing - i,
        {
            proof {
                reveal_strlit(" ");
                assert(line@ + spaces(i as int) + " "@ =~= line@ + spaces(i + 1));
            }
            text.append(" ");
            i += 1;
        }
        text
    } else {
        let (head, _) = line.split_at(length);
        proof {
            encode_utf8_decode_utf8(head@);
        }
        String::from_str(head)
    }
}

/// Packs the glyphs of a text into the bytes of a line of `length`
/// characters. The first character without a glyph ends the work and is
/// returned.
pub fn pack_line(font: &Font, text: &str, length: usize) -> (result: Result<Vec<u8>, char>)
    requires
        font.well_formed(),
        cells_suffice(text@, length as int),
        length / 2 * 7 <= usize::MAX,
    ensures
        result is Ok <==> known_before(text@, text@.len() as int),
        result matches Ok(bytes) ==> bytes@ == packed_line(*font, text@, length as int),
        result matches Err(c) ==> exists|i: int|
            0 <= i < text@.len() && #[trigger] text@[i] == c && !in_font(c) && known_before(
                text@,
                i,
            ),
{
    let count: usize = text.unicode_len();
    let mut glyphs: Vec<[u8; 7]> = Vec::new();
    let mut i: usize = 0;
    while i < count
        invariant
            i <= count == text@.len(),
            font.well_formed(),
            glyphs@.len() == i,
            known_before(text@, i as int),
            forall|k: int| 0 <= k < i ==> (#[trigger] glyphs@[k])@ == font.glyph_of(text@[k]),
        decreases count - i,
    {
        let c: char = text.get_char(i);
        match font.glyph(c) {
            Some(glyph) => {
                glyphs.push(glyph);
            },
            None => {
                return Err(c);
            },
        }
        i += 1;
    }
    let size: usize = length / 2 * 7;
    let mut bytes: Vec<u8> = Vec::new();
    let mut j: usize = 0;
    while j < size
        invariant
            j <= size == length / 2 * 7,
            count == text@.len(),
            count <= 2 * (length as int / 2),
            font.well_formed(),
            glyphs@.len() == count,
            known_before(text@, count as int),
            forall|k: int| 0 <= k < count ==> (#[trigger] glyphs@[k])@ == font.glyph_of(text@[k]),
            forall|k: int, y: int|
                0 <= k < count && 0 <= y < 7 ==> 0 <= #[trigger] font.glyph_of(text@[k])[y] < 8,
            bytes@.len() == j,
            forall|k: int| 0 <= k < j ==> #[trigger] bytes@[k] == packed_byte(*font, text@, k),
        decreases size - j,
    {
        let first: usize = 2 * (j / 7);
        let y: usize = j % 7;
        let high: u8 = if first < count {
            glyphs[first][y]
        } else {
            0
        };
        let low: u8 = if first + 1 < count {
            glyphs[first + 1][y]
        } else {
            0
        };
        assert(high < 8 && low < 8) by {
            if first < count {
                assert(glyphs@[first as int]@ == font.glyph_of(text@[first as int]));
            }
            if first + 1 < count {
                assert(glyphs@[first + 1]@ == font.glyph_of(text@[first + 1]));
            }
        }
        assert((high << 4) | low == 16 * high + low) by (bit_vector)
            requires
                high < 8,
                low < 8,
        ;
        bytes.push((high << 4) | low);
        j += 1;
    }
    assert(bytes@ =~= packed_line(*font, text@, length as int));
    Ok(bytes)
}

/// Renders the declaration of the table of line `number`.
pub fn render_line(number: usize, bytes: &Vec<u8>) -> (text: String)
    requires
        bytes.len() >= 1,
    ensures
        text@ == line_text(number as nat, bytes@),
{
    let mut text: String = String::from_str("const char line");
    push_decimal(&mut text, number as u128);
    text.append("[");
    push_decimal(&mut text, bytes.len() as u128);
    text.append("] = {\n\t");
    let ghost head = text@;
    let last: usize = bytes.len() - 1;
    let mut i: usize = 0;
    assert(text@ =~= head + entries_text(bytes@, 0));
    while i < last
        invariant
            i <= last == bytes.len() - 1,
            text@ == head + entries_text(bytes@, i as int),
        decreases last - i,
    {
        let ghost before = text@;
        push_decimal(&mut text, bytes[i] as u128);
        text.append(", ");
        if (i + 1) % 7 == 0 {
            text.append("\n\t");
        }
        proof {
            let item = decimal(bytes@[i as int] as nat) + ", "@;
            if (i + 1) % 7 == 0 {
                assert(text@ =~= head + (entries_text(bytes@, i as int) + decimal(
                    bytes@[i as int] as nat,
                ) + ", "@ + "\n\t"@));
            } else {
                assert(text@ =~= head + (entries_text(bytes@, i as int) + decimal(
                    bytes@[i as int] as nat,
                ) + ", "@ + Seq::<char>::empty()));
            }
        }
        i += 1;
    }
    push_decimal(&mut text, bytes[last] as u128);
    text.append("};\n");
    text
}

/// Tells whether a line can be rendered at `length` characters.
pub fn can_render(line: &str, length: usize) -> (ok: bool)
    ensures
        ok == renders(line@, length as int),
{
    let size: usize = line.as_bytes().len();
    if size >= length && !line.is_char_boundary(length) {
        return false;
    }
    if length / 2 > usize::MAX / 7 {
        return false;
    }
    let fitted: String = fit_line(line, length);
    let text: &str = fitted.as_str();
    let count: usize = text.unicode_len();
    let cells: usize = 2 * (length / 2);
    let mut i: usize = 0;
    while i < count
        invariant
            i <= count == text@.len(),
            i <= cells == 2 * (length as int / 2),
            known_before(text@, i as int),
            text@ == fitted_text(line@, length as int),
            can_fit(line@, length as int),
            length / 2 * 7 <= usize::MAX,
        decreases count - i,
    {
        let c: char = text.get_char(i);
        if position(c).is_none() {
            assert forall|n: int|
                0 <= n <= text@.len() && #[trigger] known_before(text@, n) implies n <= cells by {
                if n > i {
                    assert(in_font(text@[i as int]));
                }
            }
            assert(!known_before(text@, text@.len() as int)) by {
                if known_before(text@, text@.len() as int) {
                    assert(in_font(text@[i as int]));
                }
            }
            return true;
        }
        if i >= cells {
            assert(known_before(text@, i + 1));
            return false;
        }
        i += 1;
    }
    assert forall|n: int| 0 <= n <= text@.len() && #[trigger] known_before(text@, n) implies n
        <= cells by {}
    length >= 2
}

/// Renders a line of text as the table of its glyphs: the line is brought to
/// `length` characters, its glyphs are packed, and the bytes are written as
/// the table of line `number`. A character without a glyph is an error.
pub fn text_line(font: &Font, number: usize, line: &str, length: usize) -> (result: Result<
    String,
    Error,
>)
    requires
        font.well_formed(),
        renders(line@, length as int),
    ensures
        result is Ok <==> known_before(
            fitted_text(line@, length as int),
            fitted_text(line@, length as int).len() as int,
        ),
        result matches Ok(table) ==> table@ == line_text(
            number as nat,
            packed_line(*font, fitted_text(line@, length as int), length as int),
        ),
        result matches Err(e) ==> e matches Error::UnknownCharacter { character, text } && text@
            == line@ && !in_font(character) && exists|i: int|
            0 <= i < fitted_text(line@, length as int).len() && #[trigger] fitted_text(
                line@,
                length as int,
            )[i] == character && known_before(fitted_text(line@, length as int), i),
{
    let fitted: String = fit_line(line, length);
    match pack_line(font, fitted.as_str(), length) {
        Ok(bytes) => Ok(render_line(number, &bytes)),
        Err(c) => Err(Error::UnknownCharacter { character: c, text: String::from_str(line) }),
    }
}

} // verus!
