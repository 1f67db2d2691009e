use cargo_ble::prefab::{hex_byte, parse_frame_line};

#[test]
fn hex_byte_accepts_one_or_two_digits() {
    assert_eq!(hex_byte(b"0"), Some(0x0));
    assert_eq!(hex_byte(b"f"), Some(0xF));
    assert_eq!(hex_byte(b"ff"), Some(0xFF));
    assert_eq!(hex_byte(b"0e"), Some(0x0E));
    assert_eq!(hex_byte(b"A5"), Some(0xA5));
    assert_eq!(hex_byte(b""), None);
    assert_eq!(hex_byte(b"123"), None);
    assert_eq!(hex_byte(b"g1"), None);
}

#[test]
fn parse_frame_line_maps_tokens() {
    assert_eq!(
        parse_frame_line(b"0e 92 ff 04"),
        Some(vec![0x0E, 0x92, 0xFF, 0x04])
    );
    assert_eq!(parse_frame_line(b"7"), Some(vec![0x07]));
    assert_eq!(parse_frame_line(b"0e zz"), None);
    // Two adjacent spaces make an empty token, which is not a byte.
    assert_eq!(parse_frame_line(b"0e  92"), None);
}
