//! What is written for a sprite in each of the three output layouts.

use vstd::prelude::*;
use vstd::string::*;
use crate::batch::{
    batch_tables_text, color_pointer_table_text, count_define_text, entry_of,
    gfx_pointer_table_text, height_table_text, height_values, index_defines_text, Batch,
    BatchEntry,
};
use crate::error::Error;
use crate::sprite::{EncodedSprite, SpriteSpec};
use crate::table::{color_tables, color_tables_text, gfx_table, gfx_table_text, is_uniform};

verus! {

/// The layout of the generated source.
#[derive(Clone, Copy, Debug, PartialEq, Eq, Structural)]
pub enum Mode {
    /// Tables for the sprite multiplexing kernel: one bitmask table per
    /// sprite, then tables that the whole set of sprites shares.
    Multisprite,
    /// One table per sprite, top line first.
    Raw,
    /// One table per sprite, bottom line first, for a kernel that counts
    /// scan lines down.
    Reversed,
}

/// The layout that the three flags of the command line select, where they
/// select one: that of the one flag set, and the multisprite layout where
/// none is.
pub open spec fn selected_mode(multisprite: bool, raw: bool, reversed: bool) -> Option<Mode> {
    if multisprite && !raw && !reversed {
        Some(Mode::Multisprite)
    } else if !multisprite && raw && !reversed {
        Some(Mode::Raw)
    } else if !multisprite && !raw && reversed {
        Some(Mode::Reversed)
    } else if !multisprite && !raw && !reversed {
        Some(Mode::Multisprite)
    } else {
        None
    }
}

/// Picks the layout from the three flags. Two flags at once are an error.
pub fn select_mode(multisprite: bool, raw: bool, reversed: bool) -> (result: Result<Mode, Error>)
    ensures
        match selected_mode(multisprite, raw, reversed) {
            Some(mode) => result == Ok::<Mode, Error>(mode),
            None => result == Err::<Mode, Error>(Error::ExclusiveModes),
        },
{
    if multisprite {
        if raw || reversed {
            return Err(Error::ExclusiveModes);
        }
        Ok(Mode::Multisprite)
    } else if raw {
        if reversed {
            return Err(Error::ExclusiveModes);
        }
        Ok(Mode::Raw)
    } else if reversed {
        Ok(Mode::Reversed)
    } else {
        Ok(Mode::Multisprite)
    }
}

/// What stands before a table that may be placed on a 256-byte boundary.
pub open spec fn alignment_text(aligned: bool) -> Seq<char> {
    if aligned {
        "aligned(256) "@
    } else {
        Seq::empty()
    }
}

/// The text for one sprite in the multisprite layout: its bitmask table
/// and, where it needs them, its colour tables. All are placed in the bank of
/// the kernel, and the colour tables start with two zero bytes as the bitmask
/// table does.
pub open spec fn multisprite_text(spec: SpriteSpec, gfx: Seq<u8>, colors: Seq<u8>) -> Seq<char> {
    gfx_table_text("MS_KERNEL_BANK "@, spec.name@, gfx) + if spec.needs_color_tables(colors) {
        color_tables_text("MS_KERNEL_BANK "@, spec.name@, true, colors)
    } else {
        Seq::empty()
    }
}

/// The text for one sprite in the raw layout: its bitmask table, aligned
/// where the sprite asks for it, and, where it needs them, its colour tables.
pub open spec fn raw_text(spec: SpriteSpec, gfx: Seq<u8>, colors: Seq<u8>) -> Seq<char> {
    gfx_table_text(alignment_text(spec.pixel_alignment), spec.name@, gfx)
        + if spec.needs_color_tables(colors) {
        color_tables_text(Seq::empty(), spec.name@, false, colors)
    } else {
        Seq::empty()
    }
}

/// The text for one sprite in the reversed layout: that of the raw layout
/// for the sprite turned upside down.
pub open spec fn reversed_text(spec: SpriteSpec, gfx: Seq<u8>, colors: Seq<u8>) -> Seq<char> {
    raw_text(spec, gfx.reverse(), colors.reverse())
}

/// The text for one sprite in a layout.
pub open spec fn sprite_text(mode: Mode, spec: SpriteSpec, gfx: Seq<u8>, colors: Seq<u8>) -> Seq<
    char,
> {
    match mode {
        Mode::Multisprite => multisprite_text(spec, gfx, colors),
        Mode::Raw => raw_text(spec, gfx, colors),
        Mode::Reversed => reversed_text(spec, gfx, colors),
    }
}

/// The reversed layout of a sprite is, character for character, the raw
/// layout of the same sprite with its bitmask and colour sequences reversed.
pub proof fn lemma_reversed_is_raw_of_reversed(spec: SpriteSpec, gfx: Seq<u8>, colors: Seq<u8>)
    ensures
        sprite_text(Mode::Reversed, spec, gfx, colors) == sprite_text(
            Mode::Raw,
            spec,
            gfx.reverse(),
            colors.reverse(),
        ),
        sprite_text(Mode::Raw, spec, gfx, colors) == sprite_text(
            Mode::Reversed,
            spec,
            gfx.reverse(),
            colors.reverse(),
        ),
{
    assert(gfx.reverse().reverse() =~= gfx);
    assert(colors.reverse().reverse() =~= colors);
}

/// A copy of a table with the last entry first.
pub fn reversed(bytes: &Vec<u8>) -> (turned: Vec<u8>)
    ensures
        turned@ == bytes@.reverse(),
{
    let mut turned: Vec<u8> = Vec::new();
    let mut i: usize = bytes.len();
    while i > 0
        invariant
            i <= bytes.len(),
            turned@.len() == bytes.len() - i,
            forall|k: int| 0 <= k < turned@.len() ==> turned@[k] == bytes@[bytes.len() - 1 - k],
        decreases i,
    {
        i -= 1;
        turned.push(bytes[i]);
    }
    assert(turned@ =~= bytes@.reverse());
    turned
}

/// Renders one sprite in the multisprite layout.
pub fn render_multisprite(spec: &SpriteSpec, gfx: &Vec<u8>, colors: &Vec<u8>) -> (text: String)
    ensures
        text@ == multisprite_text(*spec, gfx@, colors@),
{
    let mut text: String = gfx_table("MS_KERNEL_BANK ", spec.name.as_str(), gfx);
    if spec.color_copy.is_none() && !is_uniform(colors) {
        text.append(color_tables("MS_KERNEL_BANK ", spec.name.as_str(), true, colors).as_str());
    } else {
        assert(text@ =~= text@ + Seq::<char>::empty());
    }
    text
}

/// Renders one sprite in the raw layout.
pub fn render_raw(spec: &SpriteSpec, gfx: &Vec<u8>, colors: &Vec<u8>) -> (text: String)
    ensures
        text@ == raw_text(*spec, gfx@, colors@),
{
    proof {
        reveal_strlit("");
        assert(""@ =~= Seq::<char>::empty());
    }
    let qualifier: &str = if spec.pixel_alignment {
        "aligned(256) "
    } else {
        ""
    };
    let mut text: String = gfx_table(qualifier, spec.name.as_str(), gfx);
    if spec.color_copy.is_none() && !is_uniform(colors) {
        text.append(color_tables("", spec.name.as_str(), false, colors).as_str());
    } else {
        assert(text@ =~= text@ + Seq::<char>::empty());
    }
    text
}

/// Renders one sprite in the reversed layout.
pub fn render_reversed(spec: &SpriteSpec, gfx: &Vec<u8>, colors: &Vec<u8>) -> (text: String)
    ensures
        text@ == reversed_text(*spec, gfx@, colors@),
{
    let turned_gfx: Vec<u8> = reversed(gfx);
    let turned_colors: Vec<u8> = reversed(colors);
    render_raw(spec, &turned_gfx, &turned_colors)
}

/// Renders one sprite in a layout.
pub fn render_sprite(mode: Mode, spec: &SpriteSpec, sprite: &EncodedSprite) -> (text: String)
    ensures
        text@ == sprite_text(mode, *spec, sprite.gfx@, sprite.colors@),
{
    match mode {
        Mode::Multisprite => render_multisprite(spec, &sprite.gfx, &sprite.colors),
        Mode::Raw => render_raw(spec, &sprite.gfx, &sprite.colors),
        Mode::Reversed => render_reversed(spec, &sprite.gfx, &sprite.colors),
    }
}

/// The text for a list of sprites in a layout, one after the other.
pub open spec fn sprites_text(mode: Mode, sprites: Seq<(SpriteSpec, EncodedSprite)>) -> Seq<char>
    decreases sprites.len(),
{
    if sprites.len() == 0 {
        Seq::empty()
    } else {
        sprites_text(mode, sprites.drop_last()) + sprite_text(
            mode,
            sprites.last().0,
            sprites.last().1.gfx@,
            sprites.last().1.colors@,
        )
    }
}

/// What the shared tables hold of each sprite of a list.
pub open spec fn batch_entries(sprites: Seq<(SpriteSpec, EncodedSprite)>) -> Seq<BatchEntry> {
    Seq::new(sprites.len(), |i: int| entry_of(sprites[i].0, sprites[i].1))
}

/// Whether no sprite of a list needs colour tables of its own.
pub open spec fn one_color_sprites(sprites: Seq<(SpriteSpec, EncodedSprite)>) -> bool {
    forall|i: int|
        0 <= i < sprites.len() ==> !(#[trigger] sprites[i]).0.needs_color_tables(
            sprites[i].1.colors@,
        )
}

/// All that is written for a list of sprites: the text of each sprite, in
/// order, and after them, in the multisprite layout, the shared tables.
pub open spec fn output_text(mode: Mode, sprites: Seq<(SpriteSpec, EncodedSprite)>) -> Seq<char> {
    sprites_text(mode, sprites) + if mode == Mode::Multisprite {
        batch_tables_text(batch_entries(sprites), one_color_sprites(sprites))
    } else {
        Seq::empty()
    }
}

/// The shared tables of a list of sprites hold one height per sprite, the
/// number of scan lines of that sprite and three more, and they hold the
/// pointers to the colour tables exactly when some sprite of the list needs
/// colour tables of its own.
pub proof fn lemma_shared_tables(sprites: Seq<(SpriteSpec, EncodedSprite)>)
    ensures
        height_values(batch_entries(sprites)).len() == sprites.len(),
        forall|i: int|
            0 <= i < sprites.len() ==> #[trigger] height_values(batch_entries(sprites))[i]
                == sprites[i].1.gfx.len() + 3,
        one_color_sprites(sprites) <==> !exists|i: int|
            0 <= i < sprites.len() && (#[trigger] sprites[i]).0.needs_color_tables(
                sprites[i].1.colors@,
            ),
        batch_tables_text(batch_entries(sprites), one_color_sprites(sprites)) == if exists|i: int|
            0 <= i < sprites.len() && (#[trigger] sprites[i]).0.needs_color_tables(
                sprites[i].1.colors@,
            ) {
            count_define_text(sprites.len()) + gfx_pointer_table_text(batch_entries(sprites))
                + color_pointer_table_text(batch_entries(sprites)) + height_table_text(
                batch_entries(sprites),
            ) + index_defines_text(batch_entries(sprites))
        } else {
            count_define_text(sprites.len()) + gfx_pointer_table_text(batch_entries(sprites))
                + height_table_text(batch_entries(sprites)) + index_defines_text(
                batch_entries(sprites),
            )
        },
{
    let entries = batch_entries(sprites);
    assert(count_define_text(sprites.len()) + gfx_pointer_table_text(entries) + Seq::<char>::empty()
        =~= count_define_text(sprites.len()) + gfx_pointer_table_text(entries));
}

/// Collects what the shared tables hold of a list of sprites.
pub fn batch_of(sprites: &Vec<(SpriteSpec, EncodedSprite)>) -> (batch: Batch)
    ensures
        batch.entries@ == batch_entries(sprites@),
        batch.one_color_sprites == one_color_sprites(sprites@),
{
    let mut batch: Batch = Batch::new();
    let mut i: usize = 0;
    while i < sprites.len()
        invariant
            i <= sprites.len(),
            batch.entries@ == batch_entries(sprites@.take(i as int)),
            batch.one_color_sprites == one_color_sprites(sprites@.take(i as int)),
        decreases sprites.len() - i,
    {
        batch.add(&sprites[i].0, &sprites[i].1);
        proof {
            let before = sprites@.take(i as int);
            let after = sprites@.take(i + 1);
            assert(after[i as int] == sprites@[i as int]);
            assert(forall|k: int| 0 <= k < i ==> after[k] == before[k]);
            assert(batch.entries@ =~= batch_entries(after));
            if one_color_sprites(after) {
                assert forall|k: int| 0 <= k < before.len() implies !(
                #[trigger] before[k]).0.needs_color_tables(before[k].1.colors@) by {
                    assert(after[k] == before[k]);
                }
            }
        }
        i += 1;
    }
    assert(sprites@.take(sprites.len() as int) =~= sprites@);
    batch
}

/// Renders a list of sprites in a layout.
pub fn render(mode: Mode, sprites: &Vec<(SpriteSpec, EncodedSprite)>) -> (text: String)
    ensures
        text@ == output_text(mode, sprites@),
{
    let mut text: String = String::new();
    let mut i: usize = 0;
    assert(sprites@.take(0) =~= Seq::<(SpriteSpec, EncodedSprite)>::empty());
    while i < sprites.len()
        invariant
            i <= sprites.len(),
            text@ == sprites_text(mode, sprites@.take(i as int)),
        decreases sprites.len() - i,
    {
        text.append(render_sprite(mode, &sprites[i].0, &sprites[i].1).as_str());
        proof {
            let after = sprites@.take(i + 1);
            assert(after.drop_last() =~= sprites@.take(i as int));
            assert(after.last() == sprites@[i as int]);
        }
        i += 1;
    }
    assert(sprites@.take(sprites.len() as int) =~= sprites@);
    match mode {
        Mode::Multisprite => {
            text.append(batch_of(sprites).tables().as_str());
        },
        _ => {
            assert(text@ =~= text@ + Seq::<char>::empty());
        },
    }
    text
}

} // verus!
