use tools2600::row::{encode_row, pixel_is_set, Pixel, Row};

const CLEAR: Pixel = Pixel { red: 0, green: 0, blue: 0, alpha: 0 };
const BLACK: Pixel = Pixel { red: 0, green: 0, blue: 0, alpha: 255 };
const WHITE: Pixel = Pixel { red: 236, green: 236, blue: 236, alpha: 255 };
const YELLOW: Pixel = Pixel { red: 252, green: 252, blue: 104, alpha: 255 };
const OFF_PALETTE: Pixel = Pixel { red: 1, green: 2, blue: 3, alpha: 255 };

#[test]
fn a_transparent_line_is_zero_without_colour() {
    assert_eq!(encode_row(&[CLEAR; 8]), Some(Row { mask: 0, color: None }));
}

#[test]
fn a_transparent_line_ignores_the_colour_under_it() {
    let hidden = Pixel { red: 236, green: 236, blue: 236, alpha: 0 };
    assert_eq!(encode_row(&[hidden; 8]), Some(Row { mask: 0, color: None }));
}

#[test]
fn a_full_line_sets_every_bit() {
    assert_eq!(encode_row(&[BLACK; 8]), Some(Row { mask: 0xff, color: Some(0x00) }));
    assert_eq!(encode_row(&[WHITE; 8]), Some(Row { mask: 0xff, color: Some(0x0e) }));
}

#[test]
fn the_first_sample_is_the_highest_bit() {
    let mut line = [CLEAR; 8];
    line[0] = WHITE;
    assert_eq!(encode_row(&line), Some(Row { mask: 0x80, color: Some(0x0e) }));
    let mut line = [CLEAR; 8];
    line[7] = WHITE;
    assert_eq!(encode_row(&line), Some(Row { mask: 0x01, color: Some(0x0e) }));
    let mut line = [CLEAR; 8];
    line[2] = YELLOW;
    line[5] = YELLOW;
    assert_eq!(encode_row(&line), Some(Row { mask: 0x24, color: Some(0x1e) }));
}

#[test]
fn two_colours_on_a_line_are_a_conflict() {
    let mut line = [CLEAR; 8];
    line[1] = WHITE;
    line[6] = YELLOW;
    assert_eq!(encode_row(&line), None);
    let mut line = [WHITE; 8];
    line[7] = BLACK;
    assert_eq!(encode_row(&line), None);
}

#[test]
fn an_opaque_sample_outside_the_palette_sets_its_bit_only() {
    assert_eq!(encode_row(&[OFF_PALETTE; 8]), Some(Row { mask: 0xff, color: None }));
    let mut line = [CLEAR; 8];
    line[0] = OFF_PALETTE;
    line[3] = YELLOW;
    line[4] = OFF_PALETTE;
    assert_eq!(encode_row(&line), Some(Row { mask: 0x98, color: Some(0x1e) }));
}

#[test]
fn the_bits_of_the_mask_give_the_opacity_back() {
    for pattern in 0..256usize {
        let mut line = [CLEAR; 8];
        for x in 0..8 {
            if pattern & (1 << x) != 0 {
                line[x] = WHITE;
            }
        }
        let row = encode_row(&line).unwrap();
        for x in 0..8u8 {
            assert_eq!(pixel_is_set(row.mask, x), line[x as usize].alpha != 0);
        }
    }
}

#[test]
fn bits_are_read_from_the_left() {
    assert!(pixel_is_set(0x80, 0));
    assert!(!pixel_is_set(0x80, 1));
    assert!(pixel_is_set(0x01, 7));
    assert!(!pixel_is_set(0x01, 0));
    assert!(pixel_is_set(0x24, 2));
    assert!(pixel_is_set(0x24, 5));
    assert!(!pixel_is_set(0x24, 3));
}
