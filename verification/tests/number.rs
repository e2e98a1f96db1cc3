//! Version numbers written as decimal text.

use native_plugin_lib::{convert_str_to_u16, try_convert_str_to_u16};

#[test]
fn decimal_text_is_converted() {
    assert_eq!(convert_str_to_u16("0"), 0);
    assert_eq!(convert_str_to_u16("1"), 1);
    assert_eq!(convert_str_to_u16("123"), 123);
    assert_eq!(convert_str_to_u16("65535"), 65535);
    assert_eq!(convert_str_to_u16("007"), 7);
}

#[test]
fn only_digits_that_fit_are_converted() {
    assert_eq!(try_convert_str_to_u16("42"), Some(42));
    assert_eq!(try_convert_str_to_u16("65535"), Some(65535));
    assert_eq!(try_convert_str_to_u16("0000065535"), Some(65535));
    assert_eq!(try_convert_str_to_u16("65536"), None);
    assert_eq!(try_convert_str_to_u16("99999"), None);
    assert_eq!(try_convert_str_to_u16(""), None);
    assert_eq!(try_convert_str_to_u16("+5"), None);
    assert_eq!(try_convert_str_to_u16("-5"), None);
    assert_eq!(try_convert_str_to_u16("5 "), None);
    assert_eq!(try_convert_str_to_u16(" 5"), None);
    assert_eq!(try_convert_str_to_u16("1.0"), None);
    assert_eq!(try_convert_str_to_u16("0x10"), None);
}
