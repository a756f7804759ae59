use pngmet::layout::big_endian_to_uint32;
use pngmet::text::{decode_field, null_terminated_len};

#[test]
fn reads_big_endian_numbers() {
    assert_eq!(big_endian_to_uint32(&[0, 0, 3, 32]), 800);
    assert_eq!(big_endian_to_uint32(&[0, 0, 4, 89, 9]), 1113);
    assert_eq!(big_endian_to_uint32(&[1, 2, 3, 4]), 0x0102_0304);
}

#[test]
fn measures_null_terminated_fields() {
    assert_eq!(null_terminated_len(b"Software\0Adobe"), Some(9));
    assert_eq!(null_terminated_len(b"\0rest"), Some(1));
    assert_eq!(null_terminated_len(b"a\0b\0"), Some(2));
    assert_eq!(null_terminated_len(b"none"), None);
    assert_eq!(null_terminated_len(b""), None);
}

#[test]
fn decodes_fields_leniently() {
    assert_eq!(decode_field(b"date:create"), "date:create".to_string());
    assert_eq!(decode_field(b""), String::new());
    assert_eq!(decode_field("caf\u{e9}".as_bytes()), "caf\u{e9}".to_string());
    assert_eq!(decode_field(b"caf\xe9"), "caf\u{fffd}".to_string());
}
