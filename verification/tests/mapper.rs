use gif_recolor::color::Color;
use gif_recolor::error::PaletteError;
use gif_recolor::mapper::{create_mapped_palette, flatten_palette, nearest_color_index};

fn hex(text: &str) -> Color {
    Color::from_hex(text).unwrap()
}

#[test]
fn nearest_index_finds_the_least_distance() {
    let palette = vec![hex("#FF0000"), hex("#00FF00"), hex("#0000FF")];
    assert_eq!(nearest_color_index(&hex("#10F010"), &palette), Ok(1));
    assert_eq!(nearest_color_index(&hex("#0505F5"), &palette), Ok(2));
    assert_eq!(nearest_color_index(&hex("#FA0505"), &palette), Ok(0));
}

#[test]
fn nearest_index_is_valid_and_no_entry_is_nearer() {
    let palette = vec![hex("#102030"), hex("#F0E0D0"), hex("#808080"), hex("#000000"), hex("#7F7F7F")];
    for r in (0..=255u8).step_by(51) {
        for g in (0..=255u8).step_by(51) {
            for b in (0..=255u8).step_by(51) {
                let color = Color { r, g, b };
                let found = nearest_color_index(&color, &palette).unwrap();
                assert!(found < palette.len());
                let least = palette[found].distance_squared(&color);
                for (at, entry) in palette.iter().enumerate() {
                    assert!(entry.distance_squared(&color) >= least);
                    if at < found {
                        assert!(entry.distance_squared(&color) > least);
                    }
                }
            }
        }
    }
}

#[test]
fn nearest_index_gives_a_tie_to_the_lower_index() {
    let black = hex("#000000");
    let palette = vec![hex("#FF0000"), hex("#0000FF")];
    assert_eq!(palette[0].distance_squared(&black), palette[1].distance_squared(&black));
    assert_eq!(nearest_color_index(&black, &palette), Ok(0));
    let swapped = vec![hex("#0000FF"), hex("#FF0000")];
    assert_eq!(nearest_color_index(&black, &swapped), Ok(0));
    for _ in 0..5 {
        assert_eq!(nearest_color_index(&black, &palette), Ok(0));
    }
}

#[test]
fn nearest_index_gives_a_tie_after_a_farther_entry_to_the_first_of_the_tie() {
    let grey = hex("#808080");
    let palette = vec![hex("#000000"), hex("#818080"), hex("#808180"), hex("#808080"), hex("#808080")];
    assert_eq!(nearest_color_index(&grey, &palette), Ok(3));
    let ties = vec![hex("#000000"), hex("#818080"), hex("#808180"), hex("#808081")];
    assert_eq!(nearest_color_index(&grey, &ties), Ok(1));
}

#[test]
fn nearest_index_of_an_only_entry_is_zero() {
    assert_eq!(nearest_color_index(&hex("#ABCDEF"), &[hex("#000000")]), Ok(0));
}

#[test]
fn nearest_index_refuses_an_empty_palette() {
    assert_eq!(nearest_color_index(&hex("#ABCDEF"), &[]), Err(PaletteError::EmptyPalette));
}

#[test]
fn mapped_palette_of_the_two_colour_example() {
    let palette = vec![hex("#FF0000"), hex("#0000FF")];
    assert_eq!(
        create_mapped_palette(&[250, 5, 5, 10, 10, 245], &palette),
        Ok(vec![255, 0, 0, 0, 0, 255])
    );
}

#[test]
fn mapped_palette_of_black_goes_to_the_first_of_two_equidistant_colours() {
    let palette = vec![hex("#FF0000"), hex("#0000FF")];
    assert_eq!(palette[0].distance_squared(&hex("#000000")), 65025);
    assert_eq!(palette[1].distance_squared(&hex("#000000")), 65025);
    assert_eq!(create_mapped_palette(&[0, 0, 0], &palette), Ok(vec![255, 0, 0]));
}

#[test]
fn mapped_palette_of_an_empty_table_is_empty() {
    let palette = vec![hex("#FF0000"), hex("#0000FF")];
    assert_eq!(create_mapped_palette(&[], &palette), Ok(vec![]));
    assert_eq!(create_mapped_palette(&[], &[]), Ok(vec![]));
}

#[test]
fn mapped_palette_keeps_the_length_of_a_whole_table() {
    let palette = vec![hex("#102030"), hex("#F0E0D0"), hex("#808080")];
    let source: Vec<u8> = (0..=254u8).collect();
    assert_eq!(source.len() % 3, 0);
    let mapped = create_mapped_palette(&source, &palette).unwrap();
    assert_eq!(mapped.len(), source.len());
}

#[test]
fn mapped_palette_drops_a_partial_entry_at_the_end() {
    let palette = vec![hex("#FF0000"), hex("#0000FF")];
    let whole = create_mapped_palette(&[250, 5, 5, 10, 10, 245], &palette);
    assert_eq!(create_mapped_palette(&[250, 5, 5, 10, 10, 245, 9], &palette), whole);
    assert_eq!(create_mapped_palette(&[250, 5, 5, 10, 10, 245, 9, 9], &palette), whole);
    assert_eq!(create_mapped_palette(&[7], &palette), Ok(vec![]));
    assert_eq!(create_mapped_palette(&[7, 7], &palette), Ok(vec![]));
}

#[test]
fn mapped_palette_holds_target_colours_only() {
    let palette = vec![hex("#102030"), hex("#F0E0D0"), hex("#808080")];
    let source: Vec<u8> = (0..=254u8).rev().collect();
    let mapped = create_mapped_palette(&source, &palette).unwrap();
    for (at, entry) in mapped.chunks(3).enumerate() {
        let color = Color { r: entry[0], g: entry[1], b: entry[2] };
        assert!(palette.contains(&color));
        let original = Color { r: source[3 * at], g: source[3 * at + 1], b: source[3 * at + 2] };
        let chosen = nearest_color_index(&original, &palette).unwrap();
        assert_eq!(palette[chosen], color);
    }
}

#[test]
fn mapped_palette_is_the_same_on_every_run() {
    let palette = vec![hex("#102030"), hex("#F0E0D0"), hex("#808080")];
    let source: Vec<u8> = (0..200u8).map(|n| n.wrapping_mul(37)).collect();
    let first = create_mapped_palette(&source, &palette);
    let second = create_mapped_palette(&source, &palette);
    assert_eq!(first, second);
    assert_eq!(source, (0..200u8).map(|n| n.wrapping_mul(37)).collect::<Vec<u8>>());
}

#[test]
fn mapped_palette_is_unchanged_by_a_second_mapping() {
    let palette = vec![hex("#102030"), hex("#F0E0D0"), hex("#808080"), hex("#102030")];
    let source: Vec<u8> = (0..=254u8).map(|n| n.wrapping_mul(91)).collect();
    let once = create_mapped_palette(&source, &palette).unwrap();
    let twice = create_mapped_palette(&once, &palette).unwrap();
    assert_eq!(once, twice);
}

#[test]
fn mapped_palette_refuses_an_empty_target_once_there_is_an_entry() {
    assert_eq!(create_mapped_palette(&[1, 2, 3], &[]), Err(PaletteError::EmptyPalette));
    assert_eq!(create_mapped_palette(&[1, 2, 3, 4], &[]), Err(PaletteError::EmptyPalette));
    assert_eq!(create_mapped_palette(&[1, 2], &[]), Ok(vec![]));
}

#[test]
fn flattened_palette_lists_the_channels_in_palette_order() {
    let palette = vec![hex("#112233"), hex("#445566")];
    assert_eq!(flatten_palette(&palette), vec![0x11, 0x22, 0x33, 0x44, 0x55, 0x66]);
    assert_eq!(flatten_palette(&[]), Vec::<u8>::new());
    assert_eq!(flatten_palette(&[hex("#010203")]), vec![1, 2, 3]);
}
