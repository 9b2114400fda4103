use lib::events::{decode_args_key, decode_text_char, is_wheel, Key, MouseButton};
use lib::imaging::Int32Rect;

#[test]
fn key_args_with_negative_code_are_not_key_args() {
    assert_eq!(decode_args_key(-1), None);
    assert_eq!(decode_args_key(44), Some(Key::A));
    assert_eq!(decode_args_key(1), Some(Key::NoKey));
}

#[test]
fn text_char_decodes_scalar_values_only() {
    assert_eq!(decode_text_char(65), Some('A'));
    assert_eq!(decode_text_char(0x1F600), Some('\u{1F600}'));
    assert_eq!(decode_text_char(-1), None);
    assert_eq!(decode_text_char(0xD800), None);
    assert_eq!(decode_text_char(0xDFFF), None);
    assert_eq!(decode_text_char(0x110000), None);
    assert_eq!(decode_text_char(0x10FFFF), Some('\u{10FFFF}'));
}

#[test]
fn wheel_args_have_position_and_no_button() {
    assert!(is_wheel(true, None));
    assert!(!is_wheel(true, Some(MouseButton::Left)));
    assert!(!is_wheel(false, None));
}

#[test]
fn int32_rect_new_and_default() {
    let r = Int32Rect::new(-2, 3, 40, 50);
    assert_eq!((r.x, r.y, r.width, r.height), (-2, 3, 40, 50));
    assert_eq!(Int32Rect::default(), Int32Rect::new(0, 0, 0, 0));
}
