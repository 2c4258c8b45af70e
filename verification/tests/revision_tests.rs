use sdl2_version::revision::{decode_revision, revision_number_from_ll};

#[test]
fn decodes_ascii_revision() {
    let bytes = b"hg-12345:abcdef\0";
    assert_eq!(decode_revision(bytes), "hg-12345:abcdef");
}

#[test]
fn decodes_single_nul_as_empty() {
    let bytes = [0u8];
    let r = decode_revision(&bytes);
    assert_eq!(r, "");
    assert_eq!(r.len(), 0);
}

#[test]
fn replaces_invalid_byte_with_replacement_character() {
    let bytes = [0x6f, 0x6b, 0x2d, 0xff, 0x2d, 0x00];
    assert_eq!(decode_revision(&bytes), "ok-\u{FFFD}-");
}

#[test]
fn preserves_valid_multibyte_utf8() {
    let bytes = [0x68, 0xc3, 0xa9, 0x6c, 0x6c, 0x6f, 0x00];
    assert_eq!(decode_revision(&bytes), "h\u{e9}llo");
}

#[test]
fn stops_at_the_first_nul() {
    let bytes = b"abc\0def\0";
    assert_eq!(decode_revision(bytes), "abc");
}

#[test]
fn decoded_text_is_an_independent_copy() {
    let mut buf = *b"tag\0";
    let r = decode_revision(&buf);
    buf[0] = b'x';
    assert_eq!(r, "tag");
}

#[test]
fn revision_number_passes_values_through() {
    assert_eq!(revision_number_from_ll(-1), -1);
    assert_eq!(revision_number_from_ll(0), 0);
    assert_eq!(revision_number_from_ll(i32::MAX), i32::MAX);
    assert_eq!(revision_number_from_ll(i32::MIN), i32::MIN);
}
