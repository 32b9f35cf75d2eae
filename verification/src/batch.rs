//! The tables that all sprites of the multisprite layout share: pointers to
//! the bitmask and colour tables, heights, and a named index for each sprite.
//! The order of the sprites is that in which they were added, and the index
//! of a sprite is its place in that order, from 0.

use vstd::prelude::*;
use vstd::string::*;
use crate::emit::{decimal, push_decimal};
use crate::sprite::{EncodedSprite, SpriteSpec};
use crate::table::is_uniform;

verus! {

/// What the shared tables hold of one sprite.
#[derive(Clone, Debug, PartialEq, Eq)]
pub struct BatchEntry {
    /// The name of the sprite.
    pub name: String,
    /// The name of the sprite whose colour table this one uses: its own, or
    /// that of the sprite it copies.
    pub color_source: String,
    /// The number of scan lines.
    pub lines: usize,
    /// Where in the colour table the colours of this sprite start, if not at
    /// its beginning.
    pub color_offset: Option<u8>,
}

/// The sprites of one run, in order, and whether any of them came with
/// colour tables.
#[derive(Clone, Debug, PartialEq, Eq)]
pub struct Batch {
    pub entries: Vec<BatchEntry>,
    /// Whether no sprite so far needed colour tables of its own.
    pub one_color_sprites: bool,
}

/// What the shared tables hold of a sprite.
pub open spec fn entry_of(spec: SpriteSpec, sprite: EncodedSprite) -> BatchEntry {
    BatchEntry {
        name: spec.name,
        color_source: match spec.color_copy {
            Some(other) => other,
            None => spec.name,
        },
        lines: sprite.gfx.len(),
        color_offset: spec.color_offset,
    }
}

/// The entry of the height table for a sprite: the kernel needs three scan
/// lines more than the sprite has.
pub open spec fn entry_height(entry: BatchEntry) -> nat {
    (entry.lines + 3) as nat
}

/// The height table.
pub open spec fn height_values(entries: Seq<BatchEntry>) -> Seq<nat> {
    Seq::new(entries.len(), |i: int| entry_height(entries[i]))
}

/// The name of the bitmask table of a sprite.
pub open spec fn gfx_pointer_text(entry: BatchEntry) -> Seq<char> {
    entry.name@ + "_gfx"@
}

/// The place of the colours of a sprite: a colour table, and an offset into
/// it where the sprite has one.
pub open spec fn color_pointer_text(entry: BatchEntry) -> Seq<char> {
    match entry.color_offset {
        Some(offset) => entry.color_source@ + "_colors + "@ + decimal(offset as nat),
        None => entry.color_source@ + "_colors"@,
    }
}

/// Items with a comma and a space between them.
pub open spec fn joined_text(items: Seq<Seq<char>>) -> Seq<char>
    decreases items.len(),
{
    if items.len() == 0 {
        Seq::empty()
    } else if items.len() == 1 {
        items[0]
    } else {
        joined_text(items.drop_last()) + ", "@ + items.last()
    }
}

/// The line that names the index of a sprite; `upper` is the name of the
/// sprite in upper case.
pub open spec fn index_define_text(upper: Seq<char>, index: nat) -> Seq<char> {
    "#define SPRITE_"@ + upper + " "@ + decimal(index) + "\n"@
}

/// The upper-case form of a text, as `str::to_uppercase` gives it.
pub uninterp spec fn uppercase(text: Seq<char>) -> Seq<char>;

/// The lines that name the indices of the sprites.
pub open spec fn index_defines_text(entries: Seq<BatchEntry>) -> Seq<char>
    decreases entries.len(),
{
    if entries.len() == 0 {
        Seq::empty()
    } else {
        index_defines_text(entries.drop_last()) + index_define_text(
            uppercase(entries.last().name@),
            (entries.len() - 1) as nat,
        )
    }
}

/// The line that defines the number of sprites.
pub open spec fn count_define_text(count: nat) -> Seq<char> {
    "#define MS_NB_SPRITES_DEF "@ + decimal(count) + "\n"@
}

/// The table of pointers to the bitmask tables.
pub open spec fn gfx_pointer_table_text(entries: Seq<BatchEntry>) -> Seq<char> {
    "MS_KERNEL_BANK aligned(256) const char *ms_grptr[MS_NB_SPRITES_DEF] = {"@ + joined_text(
        Seq::new(entries.len(), |i: int| gfx_pointer_text(entries[i])),
    ) + "};\n"@
}

/// The table of pointers to the colour tables.
pub open spec fn color_pointer_table_text(entries: Seq<BatchEntry>) -> Seq<char> {
    "MS_KERNEL_BANK const char *ms_coluptr[MS_NB_SPRITES_DEF] = {"@ + joined_text(
        Seq::new(entries.len(), |i: int| color_pointer_text(entries[i])),
    ) + "};\n"@
}

/// The table of heights.
pub open spec fn height_table_text(entries: Seq<BatchEntry>) -> Seq<char> {
    "MS_KERNEL_BANK const char ms_height[MS_NB_SPRITES_DEF] = {"@ + joined_text(
        Seq::new(entries.len(), |i: int| decimal(entry_height(entries[i]))),
    ) + "};\n"@
}

/// The shared tables: the number of sprites, the pointers to the bitmask
/// tables, the pointers to the colour tables unless every sprite did
/// without colour tables, the heights, and the named indices.
pub open spec fn batch_tables_text(entries: Seq<BatchEntry>, one_color_sprites: bool) -> Seq<char> {
    count_define_text(entries.len()) + gfx_pointer_table_text(entries) + (if one_color_sprites {
        Seq::empty()
    } else {
        color_pointer_table_text(entries)
    }) + height_table_text(entries) + index_defines_text(entries)
}

/// Upper-cases a name with `str::to_uppercase`, which follows the Unicode
/// case mappings. Nothing is claimed of the result but that it is a function
/// of the text.
#[verifier::external_body]
fn to_uppercase(text: &str) -> (upper: String)
    ensures
        upper@ == uppercase(text@),
{
    text.to_uppercase()
}

/// Renders items with a comma and a space between them.
pub fn join_items(items: &Vec<String>) -> (text: String)
    ensures
        text@ == joined_text(Seq::new(items@.len(), |i: int| items@[i]@)),
{
    let ghost views = Seq::new(items@.len(), |i: int| items@[i]@);
    let mut text: String = String::new();
    let mut i: usize = 0;
    assert(views.take(0) =~= Seq::<Seq<char>>::empty());
    while i < items.len()
        invariant
            i <= items.len(),
            views == Seq::new(items@.len(), |k: int| items@[k]@),
            text@ == joined_text(views.take(i as int)),
        decreases items.len() - i,
    {
        proof {
            let after = views.take(i + 1);
            assert(after.drop_last() =~= views.take(i as int));
            assert(after.last() == items@[i as int]@);
            if i == 0 {
                assert(text@ + items@[0]@ =~= joined_text(after));
            }
        }
        if i != 0 {
            text.append(", ");
        }
        text.append(items[i].as_str());
        i += 1;
    }
    assert(views.take(items.len() as int) =~= views);
    text
}

/// Renders the line that names the index of a sprite, from the name of the
/// sprite in upper case.
pub fn index_define(upper: &str, index: usize) -> (text: String)
    ensures
        text@ == index_define_text(upper@, index as nat),
{
    let mut text: String = String::from_str("#define SPRITE_");
    text.append(upper);
    text.append(" ");
    push_decimal(&mut text, index as u128);
    text.append("\n");
    text
}

impl BatchEntry {
    /// Renders the name of the bitmask table of the sprite.
    pub fn gfx_pointer(&self) -> (text: String)
        ensures
            text@ == gfx_pointer_text(*self),
    {
        let mut text: String = self.name.clone();
        text.append("_gfx");
        text
    }

    /// Renders the place of the colours of the sprite.
    pub fn color_pointer(&self) -> (text: String)
        ensures
            text@ == color_pointer_text(*self),
    {
        let mut text: String = self.color_source.clone();
        match self.color_offset {
            Some(offset) => {
                text.append("_colors + ");
                push_decimal(&mut text, offset as u128);
            },
            None => {
                text.append("_colors");
            },
        }
        text
    }
}

/// Renders the line that defines the number of sprites.
pub fn count_define(count: usize) -> (text: String)
    ensures
        text@ == count_define_text(count as nat),
{
    let mut text: String = String::from_str("#define MS_NB_SPRITES_DEF ");
    push_decimal(&mut text, count as u128);
    text.append("\n");
    text
}

/// Renders the table of pointers to the bitmask tables.
pub fn gfx_pointer_table(entries: &Vec<BatchEntry>) -> (text: String)
    ensures
        text@ == gfx_pointer_table_text(entries@),
{
    let mut items: Vec<String> = Vec::new();
    let mut i: usize = 0;
    while i < entries.len()
        invariant
            i <= entries.len(),
            items@.len() == i,
            forall|k: int| 0 <= k < i ==> (#[trigger] items@[k])@ == gfx_pointer_text(entries@[k]),
        decreases entries.len() - i,
    {
        items.push(entries[i].gfx_pointer());
        i += 1;
    }
    assert(Seq::new(items@.len(), |k: int| items@[k]@) =~= Seq::new(
        entries@.len(),
        |k: int| gfx_pointer_text(entries@[k]),
    ));
    let mut text: String = String::from_str(
        "MS_KERNEL_BANK aligned(256) const char *ms_grptr[MS_NB_SPRITES_DEF] = {",
    );
    text.append(join_items(&items).as_str());
    text.append("};\n");
    text
}

/// Renders the table of pointers to the colour tables.
pub fn color_pointer_table(entries: &Vec<BatchEntry>) -> (text: String)
    ensures
        text@ == color_pointer_table_text(entries@),
{
    let mut items: Vec<String> = Vec::new();
    let mut i: usize = 0;
    while i < entries.len()
        invariant
            i <= entries.len(),
            items@.len() == i,
            forall|k: int|
                0 <= k < i ==> (#[trigger] items@[k])@ == color_pointer_text(entries@[k]),
        decreases entries.len() - i,
    {
        items.push(entries[i].color_pointer());
        i += 1;
    }
    assert(Seq::new(items@.len(), |k: int| items@[k]@) =~= Seq::new(
        entries@.len(),
        |k: int| color_pointer_text(entries@[k]),
    ));
    let mut text: String = String::from_str(
        "MS_KERNEL_BANK const char *ms_coluptr[MS_NB_SPRITES_DEF] = {",
    );
    text.append(join_items(&items).as_str());
    text.append("};\n");
    text
}

/// Renders the table of heights.
pub fn height_table(entries: &Vec<BatchEntry>) -> (text: String)
    ensures
        text@ == height_table_text(entries@),
{
    let mut items: Vec<String> = Vec::new();
    let mut i: usize = 0;
    while i < entries.len()
        invariant
            i <= entries.len(),
            items@.len() == i,
            forall|k: int|
                0 <= k < i ==> (#[trigger] items@[k])@ == decimal(entry_height(entries@[k])),
        decreases entries.len() - i,
    {
        let mut item: String = String::new();
        push_decimal(&mut item, entries[i].lines as u128 + 3);
        assert(item@ =~= decimal(entry_height(entries@[i as int])));
        items.push(item);
        i += 1;
    }
    assert(Seq::new(items@.len(), |k: int| items@[k]@) =~= Seq::new(
        entries@.len(),
        |k: int| decimal(entry_height(entries@[k])),
    ));
    let mut text: String = String::from_str(
        "MS_KERNEL_BANK const char ms_height[MS_NB_SPRITES_DEF] = {",
    );
    text.append(join_items(&items).as_str());
    text.append("};\n");
    text
}

/// Renders the lines that name the indices of the sprites.
pub fn index_defines(entries: &Vec<BatchEntry>) -> (text: String)
    ensures
        text@ == index_defines_text(entries@),
{
    let mut text: String = String::new();
    let mut i: usize = 0;
    assert(entries@.take(0) =~= Seq::<BatchEntry>::empty());
    while i < entries.len()
        invariant
            i <= entries.len(),
            text@ == index_defines_text(entries@.take(i as int)),
        decreases entries.len() - i,
    {
        let upper: String = to_uppercase(entries[i].name.as_str());
        text.append(index_define(upper.as_str(), i).as_str());
        proof {
            let after = entries@.take(i + 1);
            assert(after.drop_last() =~= entries@.take(i as int));
            assert(after.last() == entries@[i as int]);
        }
        i += 1;
    }
    assert(entries@.take(entries.len() as int) =~= entries@);
    text
}

impl Batch {
    /// A run without sprites.
    pub fn new() -> (batch: Batch)
        ensures
            batch.entries@.len() == 0,
            batch.one_color_sprites,
    {
        Batch { entries: Vec::new(), one_color_sprites: true }
    }

    /// Adds a sprite after those already there.
    pub fn add(&mut self, spec: &SpriteSpec, sprite: &EncodedSprite)
        ensures
            final(self).entries@ == old(self).entries@.push(entry_of(*spec, *sprite)),
            final(self).one_color_sprites == (old(self).one_color_sprites
                && !spec.needs_color_tables(sprite.colors@)),
    {
        let color_source: String = match &spec.color_copy {
            Some(other) => other.clone(),
            None => spec.name.clone(),
        };
        if spec.color_copy.is_none() && !is_uniform(&sprite.colors) {
            self.one_color_sprites = false;
        }
        self.entries.push(
            BatchEntry {
                name: spec.name.clone(),
                color_source,
                lines: sprite.gfx.len(),
                color_offset: spec.color_offset,
            },
        );
    }

    /// Renders the shared tables.
    pub fn tables(&self) -> (text: String)
        ensures
            text@ == batch_tables_text(self.entries@, self.one_color_sprites),
    {
        let mut text: String = count_define(self.entries.len());
        text.append(gfx_pointer_table(&self.entries).as_str());
        if self.one_color_sprites {
            assert(text@ =~= text@ + Seq::<char>::empty());
        } else {
            text.append(color_pointer_table(&self.entries).as_str());
        }
        text.append(height_table(&self.entries).as_str());
        text.append(index_defines(&self.entries).as_str());
        text
    }

    /// Whether the shared tables hold pointers to colour tables.
    pub fn has_color_pointers(&self) -> (present: bool)
        ensures
            present == !self.one_color_sprites,
    {
        !self.one_color_sprites
    }
}

} // verus!
