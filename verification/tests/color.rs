use gif_recolor::color::{chars_of, Color};

fn rgb(r: u8, g: u8, b: u8) -> Color {
    Color { r, g, b }
}

#[test]
fn from_hex_reads_six_digits_after_a_hash() {
    assert_eq!(Color::from_hex("#FF0000"), Some(rgb(255, 0, 0)));
    assert_eq!(Color::from_hex("#0000FF"), Some(rgb(0, 0, 255)));
    assert_eq!(Color::from_hex("#112233"), Some(rgb(0x11, 0x22, 0x33)));
}

#[test]
fn from_hex_needs_no_hash() {
    assert_eq!(Color::from_hex("445566"), Some(rgb(0x44, 0x55, 0x66)));
    assert_eq!(Color::from_hex("000000"), Some(rgb(0, 0, 0)));
    assert_eq!(Color::from_hex("ffffff"), Some(rgb(255, 255, 255)));
}

#[test]
fn from_hex_takes_both_cases() {
    assert_eq!(Color::from_hex("#aBcDeF"), Some(rgb(0xAB, 0xCD, 0xEF)));
    assert_eq!(Color::from_hex("#09AFaf"), Some(rgb(0x09, 0xAF, 0xAF)));
}

#[test]
fn from_hex_refuses_wrong_lengths() {
    assert_eq!(Color::from_hex(""), None);
    assert_eq!(Color::from_hex("#"), None);
    assert_eq!(Color::from_hex("#12345"), None);
    assert_eq!(Color::from_hex("12345"), None);
    assert_eq!(Color::from_hex("#1234567"), None);
    assert_eq!(Color::from_hex("1234567"), None);
    assert_eq!(Color::from_hex("#fff"), None);
}

#[test]
fn from_hex_refuses_what_is_no_digit() {
    assert_eq!(Color::from_hex("#gg0000"), None);
    assert_eq!(Color::from_hex("#00 000"), None);
    assert_eq!(Color::from_hex("ff00zz"), None);
    assert_eq!(Color::from_hex("#ff00f/"), None);
    assert_eq!(Color::from_hex("#ff00f:"), None);
    assert_eq!(Color::from_hex("#ff00f@"), None);
    assert_eq!(Color::from_hex("#ff00fG"), None);
    assert_eq!(Color::from_hex("#ff00f`"), None);
    assert_eq!(Color::from_hex("#ff00fg"), None);
}

#[test]
fn from_hex_refuses_a_sign() {
    assert_eq!(Color::from_hex("#+f+f+f"), None);
    assert_eq!(Color::from_hex("+1+2+3"), None);
    assert_eq!(Color::from_hex("-1-2-3"), None);
}

#[test]
fn from_hex_strips_one_hash_only() {
    assert_eq!(Color::from_hex("##ff0000"), None);
    assert_eq!(Color::from_hex("##f0000"), None);
    assert_eq!(Color::from_hex("ff0000#"), None);
    assert_eq!(Color::from_hex("#ff000#"), None);
}

#[test]
fn from_hex_refuses_other_scripts_without_panicking() {
    // Six bytes, three characters.
    assert_eq!(Color::from_hex("ééé"), None);
    // Six bytes, five characters, with a character across the second byte.
    assert_eq!(Color::from_hex("aéabc"), None);
    // Six characters, none of them ASCII.
    assert_eq!(Color::from_hex("١٢٣٤٥٦"), None);
    assert_eq!(Color::from_hex("#ff00０0"), None);
}

#[test]
fn from_hex_does_not_trim() {
    assert_eq!(Color::from_hex(" #ff0000"), None);
    assert_eq!(Color::from_hex("#ff0000 "), None);
    assert_eq!(Color::from_hex("#ff0000\n"), None);
}

#[test]
fn distance_squared_of_a_colour_to_itself_is_zero() {
    let c = rgb(12, 200, 77);
    assert_eq!(c.distance_squared(&c), 0);
}

#[test]
fn distance_squared_sums_the_squared_differences() {
    assert_eq!(rgb(250, 5, 5).distance_squared(&rgb(255, 0, 0)), 75);
    assert_eq!(rgb(10, 10, 245).distance_squared(&rgb(0, 0, 255)), 300);
    assert_eq!(rgb(1, 2, 3).distance_squared(&rgb(4, 6, 8)), 9 + 16 + 25);
    assert_eq!(rgb(0, 0, 0).distance_squared(&rgb(255, 0, 0)), 65025);
}

#[test]
fn distance_squared_reaches_its_maximum_between_black_and_white() {
    assert_eq!(rgb(0, 0, 0).distance_squared(&rgb(255, 255, 255)), 195075);
    assert_eq!(rgb(255, 255, 255).distance_squared(&rgb(0, 0, 0)), 195075);
}

#[test]
fn distance_squared_is_symmetric() {
    let a = rgb(3, 250, 17);
    let b = rgb(200, 1, 99);
    assert_eq!(a.distance_squared(&b), b.distance_squared(&a));
    assert_eq!(a.distance_squared(&b), 197 * 197 + 249 * 249 + 82 * 82);
}

#[test]
fn chars_of_gives_the_characters_in_order() {
    assert_eq!(chars_of(""), Vec::<char>::new());
    assert_eq!(chars_of("#aé"), vec!['#', 'a', 'é']);
}
