//! The C declarations of single tables: the bitmask table of a sprite and its
//! two colour tables, one for each television standard.

use vstd::prelude::*;
use vstd::string::*;
use crate::colorspace::{pal_code, to_pal};
use crate::emit::{decimal, hex_byte, push_decimal, push_hex_byte};

verus! {

/// Bytes as C literals, each followed by a comma and a space.
pub open spec fn hex_list_text(bytes: Seq<u8>) -> Seq<char>
    decreases bytes.len(),
{
    if bytes.len() == 0 {
        Seq::empty()
    } else {
        hex_list_text(bytes.drop_last()) + hex_byte(bytes.last()) + ", "@
    }
}

/// Bytes as C literals with a comma and a space between them.
pub open spec fn hex_joined_text(bytes: Seq<u8>) -> Seq<char> {
    if bytes.len() == 0 {
        Seq::empty()
    } else {
        hex_list_text(bytes.drop_last()) + hex_byte(bytes.last())
    }
}

/// The declaration of a bitmask table. The kernel fetches ahead of and behind
/// the sprite, so two zero bytes stand before the bitmasks and two after them.
pub open spec fn gfx_table_text(qualifier: Seq<char>, name: Seq<char>, gfx: Seq<u8>) -> Seq<char> {
    qualifier + "const char "@ + name + "_gfx["@ + decimal(gfx.len() + 4) + "] = {0, 0, "@
        + hex_list_text(gfx) + "0, 0};\n"@
}

/// The number of zero bytes before the colours of a colour table.
pub open spec fn color_padding(padded: bool) -> nat {
    if padded {
        2
    } else {
        0
    }
}

/// The text of those zero bytes.
pub open spec fn color_padding_text(padded: bool) -> Seq<char> {
    if padded {
        "0, 0, "@
    } else {
        Seq::empty()
    }
}

/// The declaration of one colour table.
pub open spec fn color_table_text(
    qualifier: Seq<char>,
    name: Seq<char>,
    padded: bool,
    colors: Seq<u8>,
) -> Seq<char> {
    qualifier + "const char "@ + name + "_colors["@ + decimal(colors.len() + color_padding(padded))
        + "] = {"@ + color_padding_text(padded) + hex_joined_text(colors) + "};\n"@
}

/// The PAL values of colour register values, one by one.
pub open spec fn pal_codes(colors: Seq<u8>) -> Seq<u8> {
    Seq::new(colors.len(), |i: int| pal_code(colors[i]))
}

/// The two colour tables of a sprite: the one with the PAL value of every
/// entry, for a build that defines `PAL`, and the NTSC one for any other.
pub open spec fn color_tables_text(
    qualifier: Seq<char>,
    name: Seq<char>,
    padded: bool,
    colors: Seq<u8>,
) -> Seq<char> {
    "#ifdef PAL\n"@ + color_table_text(qualifier, name, padded, pal_codes(colors)) + "#else\n"@
        + color_table_text(qualifier, name, padded, colors) + "#endif\n"@
}

/// Whether all lines have the same colour. A sprite of one colour needs no
/// colour table.
pub open spec fn uniform(colors: Seq<u8>) -> bool {
    forall|i: int, j: int| 0 <= i < colors.len() && 0 <= j < colors.len() ==> colors[i] == colors[j]
}

/// Tells whether all lines have the same colour.
pub fn is_uniform(colors: &Vec<u8>) -> (same: bool)
    ensures
        same == uniform(colors@),
{
    let mut i: usize = 1;
    while i < colors.len()
        invariant
            1 <= i,
            forall|k: int| 0 <= k < i && k < colors@.len() ==> #[trigger] colors@[k] == colors@[0],
        decreases colors.len() - i,
    {
        if colors[i] != colors[0] {
            return false;
        }
        i += 1;
    }
    true
}

/// Gives the PAL value of every entry of a colour table.
pub fn to_pal_codes(colors: &Vec<u8>) -> (pal: Vec<u8>)
    ensures
        pal@ == pal_codes(colors@),
{
    let mut pal: Vec<u8> = Vec::new();
    let mut i: usize = 0;
    while i < colors.len()
        invariant
            i <= colors.len(),
            pal@.len() == i,
            forall|k: int| 0 <= k < i ==> pal@[k] == pal_code(colors@[k]),
        decreases colors.len() - i,
    {
        pal.push(to_pal(colors[i]));
        i += 1;
    }
    assert(pal@ =~= pal_codes(colors@));
    pal
}

/// Appends the first `count` bytes as C literals, each followed by a comma
/// and a space.
fn push_hex_list(out: &mut String, bytes: &Vec<u8>, count: usize)
    requires
        count <= bytes.len(),
    ensures
        final(out)@ == old(out)@ + hex_list_text(bytes@.take(count as int)),
{
    let mut i: usize = 0;
    assert(out@ =~= old(out)@ + hex_list_text(bytes@.take(0)));
    while i < count
        invariant
            i <= count <= bytes.len(),
            out@ == old(out)@ + hex_list_text(bytes@.take(i as int)),
        decreases count - i,
    {
        push_hex_byte(out, bytes[i]);
        out.append(", ");
        proof {
            let before = bytes@.take(i as int);
            let after = bytes@.take(i + 1);
            assert(after.drop_last() =~= before);
            assert(after.last() == bytes@[i as int]);
            assert(out@ =~= old(out)@ + hex_list_text(after));
        }
        i += 1;
    }
}

/// Renders the declaration of a bitmask table.
pub fn gfx_table(qualifier: &str, name: &str, gfx: &Vec<u8>) -> (text: String)
    ensures
        text@ == gfx_table_text(qualifier@, name@, gfx@),
{
    let mut text: String = String::from_str(qualifier);
    text.append("const char ");
    text.append(name);
    text.append("_gfx[");
    push_decimal(&mut text, gfx.len() as u128 + 4);
    text.append("] = {0, 0, ");
    push_hex_list(&mut text, gfx, gfx.len());
    assert(gfx@.take(gfx.len() as int) =~= gfx@);
    text.append("0, 0};\n");
    text
}

/// Renders the declaration of one colour table.
pub fn color_table(qualifier: &str, name: &str, padded: bool, colors: &Vec<u8>) -> (text: String)
    ensures
        text@ == color_table_text(qualifier@, name@, padded, colors@),
{
    let mut text: String = String::from_str(qualifier);
    text.append("const char ");
    text.append(name);
    text.append("_colors[");
    if padded {
        push_decimal(&mut text, colors.len() as u128 + 2);
        text.append("] = {");
        text.append("0, 0, ");
    } else {
        push_decimal(&mut text, colors.len() as u128);
        text.append("] = {");
        assert(text@ =~= text@ + Seq::<char>::empty());
    }
    if colors.len() > 0 {
        let ghost head = text@;
        push_hex_list(&mut text, colors, colors.len() - 1);
        push_hex_byte(&mut text, colors[colors.len() - 1]);
        assert(colors@.take(colors.len() - 1) =~= colors@.drop_last());
        assert(text@ =~= head + hex_joined_text(colors@));
    } else {
        assert(text@ =~= text@ + hex_joined_text(colors@));
    }
    text.append("};\n");
    text
}

/// Renders the two colour tables of a sprite.
pub fn color_tables(qualifier: &str, name: &str, padded: bool, colors: &Vec<u8>) -> (text: String)
    ensures
        text@ == color_tables_text(qualifier@, name@, padded, colors@),
{
    let pal: Vec<u8> = to_pal_codes(colors);
    let mut text: String = String::from_str("#ifdef PAL\n");
    text.append(color_table(qualifier, name, padded, &pal).as_str());
    text.append("#else\n");
    text.append(color_table(qualifier, name, padded, colors).as_str());
    text.append("#endif\n");
    text
}

} // verus!
