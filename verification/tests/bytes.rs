//! Integers and terminators in raw bytes.

use native_plugin_lib::bytes::{bytes_eq, find_terminator, read_u16_at, read_u32_at, read_u64_at};
use native_plugin_lib::RStr;

#[test]
fn u64_is_read_least_significant_byte_first() {
    let mem = [0xFF, 0x01, 0x02, 0x03, 0x04, 0x05, 0x06, 0x07, 0x08, 0xEE];
    assert_eq!(read_u64_at(&mem, 1), Some(0x0807_0605_0403_0201));
    assert_eq!(read_u64_at(&mem, 0), Some(0x0706_0504_0302_01FF));
    assert_eq!(read_u64_at(&mem, 2), Some(0xEE08_0706_0504_0302));
    assert_eq!(read_u64_at(&[1, 0, 0, 0, 0, 0, 0, 0], 0), Some(1));
    assert_eq!(read_u64_at(&[0xFF; 8], 0), Some(u64::MAX));
}

#[test]
fn u64_needs_eight_bytes() {
    let mem = [0u8; 10];
    assert_eq!(read_u64_at(&mem, 3), None);
    assert_eq!(read_u64_at(&mem, 10), None);
    assert_eq!(read_u64_at(&mem, 11), None);
    assert_eq!(read_u64_at(&mem, usize::MAX), None);
    assert_eq!(read_u64_at(&[], 0), None);
}

#[test]
fn u32_is_read_least_significant_byte_first() {
    let mem = [0x78, 0x56, 0x34, 0x12, 0xFF, 0xFF];
    assert_eq!(read_u32_at(&mem, 0), Some(0x1234_5678));
    assert_eq!(read_u32_at(&mem, 1), Some(0xFF12_3456));
    assert_eq!(read_u32_at(&mem, 2), Some(0xFFFF_1234));
    assert_eq!(read_u32_at(&mem, 3), None);
    assert_eq!(read_u32_at(&mem, 6), None);
    assert_eq!(read_u32_at(&mem, usize::MAX), None);
    assert_eq!(read_u32_at(&[0xFF; 4], 0), Some(u32::MAX));
}

#[test]
fn u16_is_read_least_significant_byte_first() {
    let mem = [0x34, 0x12, 0xFF, 0xFF];
    assert_eq!(read_u16_at(&mem, 0), Some(0x1234));
    assert_eq!(read_u16_at(&mem, 1), Some(0xFF12));
    assert_eq!(read_u16_at(&mem, 2), Some(0xFFFF));
    assert_eq!(read_u16_at(&mem, 3), None);
    assert_eq!(read_u16_at(&mem, 4), None);
    assert_eq!(read_u16_at(&mem, usize::MAX), None);
}

#[test]
fn terminator_is_the_first_zero_byte() {
    let mem = b"ab\0cd\0\0e";
    assert_eq!(find_terminator(mem, 0), Some(2));
    assert_eq!(find_terminator(mem, 1), Some(1));
    assert_eq!(find_terminator(mem, 2), Some(0));
    assert_eq!(find_terminator(mem, 3), Some(2));
    assert_eq!(find_terminator(mem, 6), Some(0));
    assert_eq!(find_terminator(mem, 7), None);
    assert_eq!(find_terminator(mem, 8), None);
    assert_eq!(find_terminator(mem, 9), None);
    assert_eq!(find_terminator(&[], 0), None);
}

#[test]
fn runs_of_bytes_are_compared_whole() {
    assert!(bytes_eq(b"PLUGIN_DATA", b"PLUGIN_DATA"));
    assert!(!bytes_eq(b"PLUGIN_DATA", b"PLUGIN_DAT"));
    assert!(!bytes_eq(b"PLUGIN_DATA", b"PLUGIN_DATB"));
    assert!(!bytes_eq(b"", b"a"));
    assert!(bytes_eq(b"", b""));
}

#[test]
fn text_is_read_up_to_its_terminator() {
    let mem = b"xxLoader\0Cherry\0";
    assert_eq!(RStr::read(mem, 2), Some(RStr { start: 2, len: 6 }));
    assert_eq!(RStr::read(mem, 9), Some(RStr { start: 9, len: 6 }));
    assert_eq!(RStr::read(mem, 8), Some(RStr { start: 8, len: 0 }));
    assert_eq!(RStr::read(mem, 16), None);
    assert_eq!(RStr::read(mem, 17), None);
    assert_eq!(RStr::read(b"Loader", 0), None);
}

#[test]
fn text_must_be_utf8() {
    assert_eq!(RStr::read(b"\xC3\xA9t\xC3\xA9\0", 0), Some(RStr { start: 0, len: 5 }));
    assert_eq!(RStr::read(b"\xC3\0", 0), None);
    assert_eq!(RStr::read(b"ab\xFFcd\0", 0), None);
    assert_eq!(RStr::read(b"ab\xFFcd\0", 3), Some(RStr { start: 3, len: 2 }));
    assert_eq!(RStr::read(b"\xED\xA0\x80\0", 0), None);
}

#[test]
fn text_is_read_back_through_its_buffer() {
    let mem = "xx\u{e9}t\u{e9}\0yy".as_bytes();
    let text = RStr::read(mem, 2).unwrap();
    assert_eq!(text.as_bytes(mem), Some("\u{e9}t\u{e9}".as_bytes()));
    assert_eq!(text.as_str(mem), Some("\u{e9}t\u{e9}"));
    assert_eq!(RStr { start: 0, len: 0 }.as_str(mem), Some(""));
    assert_eq!(RStr { start: 8, len: 2 }.as_str(mem), Some("yy"));
    assert_eq!(RStr { start: 10, len: 0 }.as_str(mem), Some(""));
    assert_eq!(RStr { start: 10, len: 1 }.as_str(mem), None);
    assert_eq!(RStr { start: 11, len: 0 }.as_bytes(mem), None);
    assert_eq!(RStr { start: usize::MAX, len: 2 }.as_bytes(mem), None);
    // a span that cuts a character in two is no text
    assert_eq!(RStr { start: 2, len: 1 }.as_bytes(mem), Some(&[0xC3u8][..]));
    assert_eq!(RStr { start: 2, len: 1 }.as_str(mem), None);
}

#[test]
fn text_of_a_terminated_str() {
    assert_eq!(RStr::from_str("Loader\0"), Some(RStr { start: 0, len: 6 }));
    assert_eq!(RStr::from_str("a\0b\0"), Some(RStr { start: 0, len: 1 }));
    assert_eq!(RStr::from_str("\0"), Some(RStr { start: 0, len: 0 }));
    assert_eq!(RStr::from_str("Loader"), None);
    assert_eq!(RStr::from_str(""), None);
}
