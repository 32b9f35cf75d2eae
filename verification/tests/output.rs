use tools2600::batch::{height_table, index_define, join_items, Batch, BatchEntry};
use tools2600::emit::{push_decimal, push_hex_byte};
use tools2600::error::Error;
use tools2600::output::{
    batch_of, render, render_multisprite, render_raw, render_reversed, render_sprite, reversed,
    select_mode, Mode,
};
use tools2600::sprite::{EncodedSprite, Region, SpriteSpec};
use tools2600::table::{color_table, color_tables, gfx_table, is_uniform, to_pal_codes};

fn sprite(name: &str, height: u32) -> SpriteSpec {
    SpriteSpec::new(name.to_string(), Region { top: 0, left: 0, height })
}

fn decimal(n: u128) -> String {
    let mut text = String::new();
    push_decimal(&mut text, n);
    text
}

#[test]
fn numbers_in_base_ten() {
    assert_eq!(decimal(0), "0");
    assert_eq!(decimal(7), "7");
    assert_eq!(decimal(10), "10");
    assert_eq!(decimal(255), "255");
    assert_eq!(decimal(1002003), "1002003");
    assert_eq!(decimal(18446744073709551615), "18446744073709551615");
    assert_eq!(decimal(u128::MAX), "340282366920938463463374607431768211455");
    let mut text = String::from("n = ");
    push_decimal(&mut text, 42);
    assert_eq!(text, "n = 42");
}

#[test]
fn bytes_as_c_literals() {
    let mut text = String::new();
    push_hex_byte(&mut text, 0);
    push_hex_byte(&mut text, 0x0a);
    push_hex_byte(&mut text, 0xff);
    push_hex_byte(&mut text, 0x3c);
    assert_eq!(text, "0x000x0a0xff0x3c");
}

#[test]
fn one_flag_selects_its_layout() {
    assert_eq!(select_mode(true, false, false), Ok(Mode::Multisprite));
    assert_eq!(select_mode(false, true, false), Ok(Mode::Raw));
    assert_eq!(select_mode(false, false, true), Ok(Mode::Reversed));
}

#[test]
fn no_flag_selects_the_multisprite_layout() {
    assert_eq!(select_mode(false, false, false), Ok(Mode::Multisprite));
}

#[test]
fn two_flags_are_an_error() {
    assert_eq!(select_mode(true, true, false), Err(Error::ExclusiveModes));
    assert_eq!(select_mode(true, false, true), Err(Error::ExclusiveModes));
    assert_eq!(select_mode(false, true, true), Err(Error::ExclusiveModes));
    assert_eq!(select_mode(true, true, true), Err(Error::ExclusiveModes));
    assert_eq!(
        Error::ExclusiveModes.message(),
        "multisprite, raw and reversed flags are exclusive"
    );
}

#[test]
fn error_messages_name_line_and_sprite() {
    let error = Error::SecondColor { line: 17, sprite: "hero".to_string() };
    assert_eq!(error.message(), "Second color found on line 17 of sprite hero");
}

#[test]
fn uniform_colours() {
    assert!(is_uniform(&vec![]));
    assert!(is_uniform(&vec![5]));
    assert!(is_uniform(&vec![5, 5, 5]));
    assert!(!is_uniform(&vec![5, 5, 6]));
    assert!(!is_uniform(&vec![4, 5, 5]));
}

#[test]
fn a_table_turned_upside_down() {
    assert_eq!(reversed(&vec![]), Vec::<u8>::new());
    assert_eq!(reversed(&vec![1, 2, 3]), vec![3, 2, 1]);
}

#[test]
fn pal_tables_convert_every_entry() {
    assert_eq!(to_pal_codes(&vec![0x12, 0x3e, 0xfe]), vec![0x22, 0x4e, 0x2e]);
}

#[test]
fn the_bitmask_table_is_padded() {
    assert_eq!(
        gfx_table("", "block", &vec![0xff, 0xff]),
        "const char block_gfx[6] = {0, 0, 0xff, 0xff, 0, 0};\n"
    );
    assert_eq!(gfx_table("Q ", "n", &vec![]), "Q const char n_gfx[4] = {0, 0, 0, 0};\n");
}

#[test]
fn colour_tables_with_and_without_padding() {
    assert_eq!(
        color_table("", "a", false, &vec![0x1e, 0x0e]),
        "const char a_colors[2] = {0x1e, 0x0e};\n"
    );
    assert_eq!(
        color_table("B ", "a", true, &vec![0x1e, 0x0e, 0x00]),
        "B const char a_colors[5] = {0, 0, 0x1e, 0x0e, 0x00};\n"
    );
    assert_eq!(color_table("", "a", false, &vec![]), "const char a_colors[0] = {};\n");
    assert_eq!(
        color_tables("", "a", false, &vec![0x1e, 0x3e]),
        "#ifdef PAL\nconst char a_colors[2] = {0x2e, 0x4e};\n#else\nconst char a_colors[2] = {0x1e, 0x3e};\n#endif\n"
    );
}

#[test]
fn a_uniform_black_block_has_a_padded_table_and_no_colours() {
    let spec = sprite("block", 2);
    let gfx = vec![0xff, 0xff];
    let colors = vec![0x00, 0x00];
    assert_eq!(
        render_multisprite(&spec, &gfx, &colors),
        "MS_KERNEL_BANK const char block_gfx[6] = {0, 0, 0xff, 0xff, 0, 0};\n"
    );
    assert_eq!(
        render_raw(&spec, &gfx, &colors),
        "const char block_gfx[6] = {0, 0, 0xff, 0xff, 0, 0};\n"
    );
    assert_eq!(
        render_reversed(&spec, &gfx, &colors),
        "const char block_gfx[6] = {0, 0, 0xff, 0xff, 0, 0};\n"
    );
}

#[test]
fn the_raw_layout_of_a_two_colour_sprite() {
    let mut spec = sprite("ship", 3);
    spec.pixel_alignment = true;
    let text = render_raw(&spec, &vec![0x18, 0x3c, 0x7e], &vec![0x1e, 0x1e, 0x3e]);
    assert_eq!(
        text,
        "aligned(256) const char ship_gfx[7] = {0, 0, 0x18, 0x3c, 0x7e, 0, 0};\n\
         #ifdef PAL\nconst char ship_colors[3] = {0x2e, 0x2e, 0x4e};\n\
         #else\nconst char ship_colors[3] = {0x1e, 0x1e, 0x3e};\n#endif\n"
    );
}

#[test]
fn the_reversed_layout_starts_with_the_bottom_line() {
    let spec = sprite("ship", 3);
    let text = render_reversed(&spec, &vec![0x18, 0x3c, 0x7e], &vec![0x1e, 0x1e, 0x3e]);
    assert_eq!(
        text,
        "const char ship_gfx[7] = {0, 0, 0x7e, 0x3c, 0x18, 0, 0};\n\
         #ifdef PAL\nconst char ship_colors[3] = {0x4e, 0x2e, 0x2e};\n\
         #else\nconst char ship_colors[3] = {0x3e, 0x1e, 0x1e};\n#endif\n"
    );
}

#[test]
fn reversed_is_raw_of_the_reversed_tables() {
    let mut spec = sprite("ship", 4);
    let gfx = vec![0x01, 0x02, 0x04, 0x08];
    let colors = vec![0x10, 0x20, 0x30, 0x40];
    let turned_gfx = vec![0x08, 0x04, 0x02, 0x01];
    let turned_colors = vec![0x40, 0x30, 0x20, 0x10];
    for aligned in [false, true] {
        spec.pixel_alignment = aligned;
        assert_eq!(
            render_reversed(&spec, &gfx, &colors),
            render_raw(&spec, &turned_gfx, &turned_colors)
        );
        assert_eq!(
            render_raw(&spec, &gfx, &colors),
            render_reversed(&spec, &turned_gfx, &turned_colors)
        );
    }
    let encoded = EncodedSprite { gfx: gfx.clone(), colors: colors.clone() };
    let turned = EncodedSprite { gfx: turned_gfx, colors: turned_colors };
    assert_eq!(
        render_sprite(Mode::Reversed, &spec, &encoded),
        render_sprite(Mode::Raw, &spec, &turned)
    );
}

#[test]
fn the_multisprite_layout_of_a_two_colour_sprite() {
    let spec = sprite("ship", 3);
    let text = render_multisprite(&spec, &vec![0x18, 0x3c, 0x7e], &vec![0x1e, 0x1e, 0x3e]);
    assert_eq!(
        text,
        "MS_KERNEL_BANK const char ship_gfx[7] = {0, 0, 0x18, 0x3c, 0x7e, 0, 0};\n\
         #ifdef PAL\nMS_KERNEL_BANK const char ship_colors[5] = {0, 0, 0x2e, 0x2e, 0x4e};\n\
         #else\nMS_KERNEL_BANK const char ship_colors[5] = {0, 0, 0x1e, 0x1e, 0x3e};\n#endif\n"
    );
}

#[test]
fn a_sprite_that_copies_colours_has_no_table_of_its_own() {
    let mut spec = sprite("twin", 2);
    spec.color_copy = Some("ship".to_string());
    let gfx = vec![0x81, 0x42];
    let colors = vec![0x1e, 0x3e];
    assert_eq!(
        render_multisprite(&spec, &gfx, &colors),
        "MS_KERNEL_BANK const char twin_gfx[6] = {0, 0, 0x81, 0x42, 0, 0};\n"
    );
    assert_eq!(
        render_raw(&spec, &gfx, &colors),
        "const char twin_gfx[6] = {0, 0, 0x81, 0x42, 0, 0};\n"
    );
    assert_eq!(
        render_reversed(&spec, &gfx, &colors),
        "const char twin_gfx[6] = {0, 0, 0x42, 0x81, 0, 0};\n"
    );
}

#[test]
fn items_are_joined_with_commas() {
    assert_eq!(join_items(&vec![]), "");
    assert_eq!(join_items(&vec!["a".to_string()]), "a");
    assert_eq!(join_items(&vec!["a".to_string(), "b".to_string(), "c".to_string()]), "a, b, c");
}

#[test]
fn a_sprite_index_is_a_define() {
    assert_eq!(index_define("SHIP", 0), "#define SPRITE_SHIP 0\n");
    assert_eq!(index_define("X", 12), "#define SPRITE_X 12\n");
}

/// The entries of the height table, read back from its text.
fn heights(batch: &Batch) -> Vec<usize> {
    let text = height_table(&batch.entries);
    let list = &text[text.find('{').unwrap() + 1..text.find('}').unwrap()];
    list.split(", ").filter(|item| !item.is_empty()).map(|item| item.parse().unwrap()).collect()
}

fn three_sprites() -> Vec<(SpriteSpec, EncodedSprite)> {
    vec![
        (sprite("rock", 2), EncodedSprite { gfx: vec![0x3c, 0x7e], colors: vec![0x04, 0x04] }),
        (
            sprite("ship", 3),
            EncodedSprite { gfx: vec![0x18, 0x3c, 0x7e], colors: vec![0x1e, 0x1e, 0x3e] },
        ),
        (sprite("shot", 1), EncodedSprite { gfx: vec![0x10], colors: vec![0x0e] }),
    ]
}

#[test]
fn three_sprites_one_of_them_in_two_colours() {
    let sprites = three_sprites();
    let batch = batch_of(&sprites);
    assert!(batch.has_color_pointers());
    assert!(!batch.one_color_sprites);
    assert_eq!(heights(&batch), vec![5, 6, 4]);
    assert_eq!(batch.entries.len(), 3);
    assert_eq!(
        batch.tables(),
        "#define MS_NB_SPRITES_DEF 3\n\
         MS_KERNEL_BANK aligned(256) const char *ms_grptr[MS_NB_SPRITES_DEF] = {rock_gfx, ship_gfx, shot_gfx};\n\
         MS_KERNEL_BANK const char *ms_coluptr[MS_NB_SPRITES_DEF] = {rock_colors, ship_colors, shot_colors};\n\
         MS_KERNEL_BANK const char ms_height[MS_NB_SPRITES_DEF] = {5, 6, 4};\n\
         #define SPRITE_ROCK 0\n#define SPRITE_SHIP 1\n#define SPRITE_SHOT 2\n"
    );
}

#[test]
fn sprites_of_one_colour_need_no_colour_pointers() {
    let mut sprites = three_sprites();
    sprites.remove(1);
    let batch = batch_of(&sprites);
    assert!(!batch.has_color_pointers());
    assert_eq!(heights(&batch), vec![5, 4]);
    assert_eq!(
        batch.tables(),
        "#define MS_NB_SPRITES_DEF 2\n\
         MS_KERNEL_BANK aligned(256) const char *ms_grptr[MS_NB_SPRITES_DEF] = {rock_gfx, shot_gfx};\n\
         MS_KERNEL_BANK const char ms_height[MS_NB_SPRITES_DEF] = {5, 4};\n\
         #define SPRITE_ROCK 0\n#define SPRITE_SHOT 1\n"
    );
}

#[test]
fn an_empty_batch() {
    let batch = Batch::new();
    assert!(batch.one_color_sprites);
    assert!(batch.entries.is_empty());
    assert_eq!(heights(&batch), Vec::<usize>::new());
    assert_eq!(
        batch.tables(),
        "#define MS_NB_SPRITES_DEF 0\n\
         MS_KERNEL_BANK aligned(256) const char *ms_grptr[MS_NB_SPRITES_DEF] = {};\n\
         MS_KERNEL_BANK const char ms_height[MS_NB_SPRITES_DEF] = {};\n"
    );
}

#[test]
fn a_copied_colour_table_is_pointed_to_with_its_offset() {
    let mut batch = Batch::new();
    let ship = sprite("ship", 2);
    batch.add(&ship, &EncodedSprite { gfx: vec![1, 2], colors: vec![0x1e, 0x3e] });
    let mut twin = sprite("twin", 1);
    twin.color_copy = Some("ship".to_string());
    twin.color_offset = Some(1);
    batch.add(&twin, &EncodedSprite { gfx: vec![3], colors: vec![0x3e] });
    let mut late = sprite("late", 1);
    late.color_offset = Some(200);
    batch.add(&late, &EncodedSprite { gfx: vec![4], colors: vec![0x00] });
    assert_eq!(
        batch.entries[1],
        BatchEntry {
            name: "twin".to_string(),
            color_source: "ship".to_string(),
            lines: 1,
            color_offset: Some(1),
        }
    );
    assert_eq!(batch.entries[0].gfx_pointer(), "ship_gfx");
    assert_eq!(batch.entries[0].color_pointer(), "ship_colors");
    assert_eq!(batch.entries[1].color_pointer(), "ship_colors + 1");
    assert_eq!(batch.entries[2].color_pointer(), "late_colors + 200");
    assert_eq!(batch.entries[0].lines, 2);
    assert_eq!(
        batch.tables(),
        "#define MS_NB_SPRITES_DEF 3\n\
         MS_KERNEL_BANK aligned(256) const char *ms_grptr[MS_NB_SPRITES_DEF] = {ship_gfx, twin_gfx, late_gfx};\n\
         MS_KERNEL_BANK const char *ms_coluptr[MS_NB_SPRITES_DEF] = {ship_colors, ship_colors + 1, late_colors + 200};\n\
         MS_KERNEL_BANK const char ms_height[MS_NB_SPRITES_DEF] = {5, 4, 4};\n\
         #define SPRITE_SHIP 0\n#define SPRITE_TWIN 1\n#define SPRITE_LATE 2\n"
    );
}

#[test]
fn a_copying_sprite_in_two_colours_does_not_ask_for_colour_pointers() {
    let mut batch = Batch::new();
    let mut twin = sprite("twin", 2);
    twin.color_copy = Some("ship".to_string());
    batch.add(&twin, &EncodedSprite { gfx: vec![1, 2], colors: vec![0x1e, 0x3e] });
    assert!(batch.one_color_sprites);
    assert!(!batch.has_color_pointers());
}

#[test]
fn index_names_are_upper_case() {
    let mut batch = Batch::new();
    batch.add(&sprite("big_Ship2", 0), &EncodedSprite { gfx: vec![], colors: vec![] });
    assert_eq!(
        batch.tables(),
        "#define MS_NB_SPRITES_DEF 1\n\
         MS_KERNEL_BANK aligned(256) const char *ms_grptr[MS_NB_SPRITES_DEF] = {big_Ship2_gfx};\n\
         MS_KERNEL_BANK const char ms_height[MS_NB_SPRITES_DEF] = {3};\n\
         #define SPRITE_BIG_SHIP2 0\n"
    );
}

#[test]
fn the_whole_output_of_each_layout() {
    let sprites = three_sprites();
    let per_sprite = |mode: Mode| -> String {
        sprites.iter().map(|(spec, encoded)| render_sprite(mode, spec, encoded)).collect()
    };
    assert_eq!(render(Mode::Raw, &sprites), per_sprite(Mode::Raw));
    assert_eq!(render(Mode::Reversed, &sprites), per_sprite(Mode::Reversed));
    assert_eq!(
        render(Mode::Multisprite, &sprites),
        per_sprite(Mode::Multisprite) + &batch_of(&sprites).tables()
    );
    assert_eq!(
        render(Mode::Raw, &sprites),
        "const char rock_gfx[6] = {0, 0, 0x3c, 0x7e, 0, 0};\n\
         const char ship_gfx[7] = {0, 0, 0x18, 0x3c, 0x7e, 0, 0};\n\
         #ifdef PAL\nconst char ship_colors[3] = {0x2e, 0x2e, 0x4e};\n\
         #else\nconst char ship_colors[3] = {0x1e, 0x1e, 0x3e};\n#endif\n\
         const char shot_gfx[5] = {0, 0, 0x10, 0, 0};\n"
    );
    assert_eq!(render(Mode::Raw, &vec![]), "");
    assert_eq!(
        render(Mode::Multisprite, &vec![]),
        "#define MS_NB_SPRITES_DEF 0\n\
         MS_KERNEL_BANK aligned(256) const char *ms_grptr[MS_NB_SPRITES_DEF] = {};\n\
         MS_KERNEL_BANK const char ms_height[MS_NB_SPRITES_DEF] = {};\n"
    );
}
