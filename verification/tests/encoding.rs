//! The exact wire format of every command the encoder produces.
use linedisplayrs::display::{
    encode_brightness, encode_cursor, encode_reset, encode_scroll, encode_smart_scroll, Brightness,
    CursorMode, ScrollDirection, ScrollPosition,
};

#[test]
fn scroll_left_top_example() {
    let mut expected = vec![0x05u8];
    expected.extend_from_slice(b"Hello Word!");
    expected.push(0x0d);
    assert_eq!(
        encode_scroll("Hello Word!", ScrollDirection::Left, ScrollPosition::Top),
        expected
    );
}

#[test]
fn scroll_prefixes_all_pairs() {
    let cases: Vec<(ScrollDirection, ScrollPosition, Vec<u8>)> = vec![
        (ScrollDirection::Left, ScrollPosition::Top, vec![0x05]),
        (ScrollDirection::Left, ScrollPosition::Bottom, vec![0x1b, 0x06]),
        (ScrollDirection::Right, ScrollPosition::Top, vec![0x1b, 0x07]),
        (ScrollDirection::Right, ScrollPosition::Bottom, vec![0x1b, 0x0b]),
    ];
    for (direction, position, prefix) in cases {
        let mut expected = prefix.clone();
        expected.extend_from_slice(b"Hi");
        expected.push(0x0d);
        assert_eq!(encode_scroll("Hi", direction, position), expected);
    }
}

#[test]
fn scroll_empty_text() {
    assert_eq!(
        encode_scroll("", ScrollDirection::Left, ScrollPosition::Top),
        vec![0x05, 0x0d]
    );
}

#[test]
fn smart_scroll_two_parts_example() {
    let parts = vec![String::from("A"), String::from("B")];
    assert_eq!(
        encode_smart_scroll(&parts, ScrollDirection::Right, ScrollPosition::Top),
        vec![0x1b, 0x13, 0x1c, 0x41, 0x1c, 0x42, 0x0d]
    );
}

#[test]
fn smart_scroll_single_part_has_no_inner_separator() {
    let parts = vec![String::from("AB")];
    assert_eq!(
        encode_smart_scroll(&parts, ScrollDirection::Left, ScrollPosition::Top),
        vec![0x1b, 0x15, 0x1c, 0x41, 0x42, 0x0d]
    );
}

#[test]
fn smart_scroll_prefixes_all_pairs() {
    let cases: Vec<(ScrollDirection, ScrollPosition, Vec<u8>)> = vec![
        (ScrollDirection::Left, ScrollPosition::Top, vec![0x1b, 0x15]),
        (ScrollDirection::Left, ScrollPosition::Bottom, vec![0x1b, 0x16]),
        (ScrollDirection::Right, ScrollPosition::Top, vec![0x1b, 0x13]),
        (ScrollDirection::Right, ScrollPosition::Bottom, vec![0x1b, 0x14]),
    ];
    let parts = vec![String::from("x"), String::from("y"), String::from("z")];
    for (direction, position, prefix) in cases {
        let mut expected = prefix.clone();
        expected.extend_from_slice(&[0x1c, b'x', 0x1c, b'y', 0x1c, b'z', 0x0d]);
        assert_eq!(encode_smart_scroll(&parts, direction, position), expected);
    }
}

#[test]
fn smart_scroll_sale_banner() {
    let parts = vec![
        String::from("TIGERS"),
        String::from("4 for $20"),
        String::from("THIS WEEKEND ONLY"),
    ];
    let mut expected = vec![0x1b, 0x13, 0x1c];
    expected.extend_from_slice(b"TIGERS");
    expected.push(0x1c);
    expected.extend_from_slice(b"4 for $20");
    expected.push(0x1c);
    expected.extend_from_slice(b"THIS WEEKEND ONLY");
    expected.push(0x0d);
    assert_eq!(
        encode_smart_scroll(&parts, ScrollDirection::Right, ScrollPosition::Top),
        expected
    );
}

#[test]
fn smart_scroll_no_parts_keeps_leading_separator() {
    let parts: Vec<String> = Vec::new();
    assert_eq!(
        encode_smart_scroll(&parts, ScrollDirection::Left, ScrollPosition::Top),
        vec![0x1b, 0x15, 0x1c, 0x0d]
    );
}

#[test]
fn reset_is_one_byte() {
    assert_eq!(encode_reset(), vec![0x1f]);
}

#[test]
fn cursor_bytes() {
    assert_eq!(encode_cursor(CursorMode::On), vec![0x13]);
    assert_eq!(encode_cursor(CursorMode::Off), vec![0x14]);
}

#[test]
fn brightness_bytes() {
    assert_eq!(encode_brightness(Brightness::TwentyPercent), vec![0x04, 20]);
    assert_eq!(encode_brightness(Brightness::FortyPercent), vec![0x04, 40]);
    assert_eq!(encode_brightness(Brightness::SixtyPercent), vec![0x04, 60]);
    assert_eq!(encode_brightness(Brightness::Full), vec![0x04, 100]);
}

#[test]
fn brightness_percentage_conversion() {
    assert_eq!(u8::from(Brightness::TwentyPercent), 20);
    assert_eq!(u8::from(Brightness::FortyPercent), 40);
    assert_eq!(u8::from(Brightness::SixtyPercent), 60);
    assert_eq!(u8::from(Brightness::Full), 100);
}
