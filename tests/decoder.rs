use pngmet::{Chunk, Decoder, DecoderError};

const SIGNATURE: [u8; 8] = [137, 80, 78, 71, 13, 10, 26, 10];

fn chunk(tag: &[u8; 4], payload: &[u8]) -> Vec<u8> {
    let mut out = (payload.len() as u32).to_be_bytes().to_vec();
    out.extend_from_slice(tag);
    out.extend_from_slice(payload);
    out.extend_from_slice(&[0xde, 0xad, 0xbe, 0xef]);
    out
}

fn png(chunks: &[Vec<u8>]) -> Vec<u8> {
    let mut out = SIGNATURE.to_vec();
    for c in chunks {
        out.extend_from_slice(c);
    }
    out
}

fn header_payload() -> Vec<u8> {
    vec![0, 0, 3, 32, 0, 0, 4, 89, 8, 6, 0, 0, 0]
}

fn end_chunk() -> Vec<u8> {
    chunk(b"IEND", &[])
}

fn decode(buffer: Vec<u8>) -> Result<Vec<Chunk>, DecoderError> {
    Decoder::new(buffer).decode()
}

#[test]
fn rejects_buffer_without_signature() {
    let mut buffer = png(&[chunk(b"IHDR", &header_payload()), end_chunk()]);
    buffer[1] = b'Q';
    assert_eq!(decode(buffer), Err(DecoderError::IsNotPngImage));
}

#[test]
fn rejects_empty_and_short_buffers() {
    assert_eq!(decode(Vec::new()), Err(DecoderError::IsNotPngImage));
    assert_eq!(decode(SIGNATURE[..7].to_vec()), Err(DecoderError::IsNotPngImage));
}

#[test]
fn reads_header_fields_big_endian() {
    let chunks = decode(png(&[chunk(b"IHDR", &header_payload()), end_chunk()])).unwrap();
    assert_eq!(chunks.len(), 1);
    match &chunks[0] {
        Chunk::Ihdr {
            width,
            height,
            bit_depth,
            colour_type,
            compression_method,
            filter_method,
            interlace_method,
            raw,
        } => {
            assert_eq!(*width, 800);
            assert_eq!(*height, 1113);
            assert_eq!(*bit_depth, 8);
            assert_eq!(*colour_type, 6);
            assert_eq!(*compression_method, 0);
            assert_eq!(*filter_method, 0);
            assert_eq!(*interlace_method, 0);
            assert_eq!(*raw, header_payload());
        }
        _ => panic!("expected a header record"),
    }
}

#[test]
fn reads_large_dimensions() {
    let payload = [0x12, 0x34, 0x56, 0x78, 0xff, 0xff, 0xff, 0xff, 16, 2, 0, 0, 1];
    let chunks = decode(png(&[chunk(b"IHDR", &payload), end_chunk()])).unwrap();
    match &chunks[0] {
        Chunk::Ihdr { width, height, interlace_method, .. } => {
            assert_eq!(*width, 0x1234_5678);
            assert_eq!(*height, u32::MAX);
            assert_eq!(*interlace_method, 1);
        }
        _ => panic!("expected a header record"),
    }
}

#[test]
fn rejects_header_of_wrong_size() {
    let mut payload = header_payload();
    payload.push(0);
    let buffer = png(&[chunk(b"IHDR", &payload), end_chunk()]);
    assert_eq!(decode(buffer), Err(DecoderError::IHDRWrongSize));
    let short = png(&[chunk(b"IHDR", &header_payload()[..12]), end_chunk()]);
    assert_eq!(decode(short), Err(DecoderError::IHDRWrongSize));
}

#[test]
fn reads_text_chunk() {
    let payload = b"Software\0Adobe ImageReady";
    let chunks = decode(png(&[chunk(b"tEXt", payload), end_chunk()])).unwrap();
    assert_eq!(chunks.len(), 1);
    match &chunks[0] {
        Chunk::Text { keyword, text_string, raw } => {
            assert_eq!(*keyword, "Software".to_string());
            assert_eq!(*text_string, "Adobe ImageReady".to_string());
            assert_eq!(raw.len(), payload.len());
        }
        _ => panic!("expected a text record"),
    }
}

#[test]
fn reads_text_chunk_with_empty_keyword() {
    let chunks = decode(png(&[chunk(b"tEXt", b"\0value"), end_chunk()])).unwrap();
    match &chunks[0] {
        Chunk::Text { keyword, text_string, .. } => {
            assert_eq!(keyword.len(), 0);
            assert_eq!(*text_string, "value".to_string());
        }
        _ => panic!("expected a text record"),
    }
}

#[test]
fn decodes_invalid_utf8_leniently() {
    let chunks = decode(png(&[chunk(b"tEXt", b"key\0a\xffb"), end_chunk()])).unwrap();
    match &chunks[0] {
        Chunk::Text { keyword, text_string, .. } => {
            assert_eq!(*keyword, "key".to_string());
            assert_eq!(*text_string, "a\u{fffd}b".to_string());
        }
        _ => panic!("expected a text record"),
    }
}

#[test]
fn rejects_text_chunk_without_terminator() {
    let buffer = png(&[chunk(b"tEXt", b"Software"), end_chunk()]);
    assert_eq!(decode(buffer), Err(DecoderError::UnterminatedField));
}

#[test]
fn reads_international_text_with_empty_tags() {
    let payload = b"XML:com.adobe.xmp\0\0\0\0\0<x:xmpmeta/>";
    let chunks = decode(png(&[chunk(b"iTXt", payload), end_chunk()])).unwrap();
    assert_eq!(chunks.len(), 1);
    match &chunks[0] {
        Chunk::Itxt {
            keyword,
            compression_flag,
            compression_method,
            language_tag,
            translated_keyword,
            text,
            raw,
        } => {
            assert_eq!(*keyword, "XML:com.adobe.xmp".to_string());
            assert_eq!(*compression_flag, 0);
            assert_eq!(*compression_method, 0);
            assert_eq!(language_tag.len(), 0);
            assert_eq!(translated_keyword.len(), 0);
            assert_eq!(*text, "<x:xmpmeta/>".to_string());
            assert_eq!(*raw, payload.to_vec());
        }
        _ => panic!("expected an international text record"),
    }
}

#[test]
fn reads_international_text_with_tags() {
    let payload = b"Title\0\x01\0fr\0Titre\0Bonjour";
    let chunks = decode(png(&[chunk(b"iTXt", payload), end_chunk()])).unwrap();
    match &chunks[0] {
        Chunk::Itxt {
            keyword,
            compression_flag,
            compression_method,
            language_tag,
            translated_keyword,
            text,
            ..
        } => {
            assert_eq!(*keyword, "Title".to_string());
            assert_eq!(*compression_flag, 1);
            assert_eq!(*compression_method, 0);
            assert_eq!(*language_tag, "fr".to_string());
            assert_eq!(*translated_keyword, "Titre".to_string());
            assert_eq!(*text, "Bonjour".to_string());
        }
        _ => panic!("expected an international text record"),
    }
}

#[test]
fn rejects_international_text_missing_fields() {
    let no_flags = png(&[chunk(b"iTXt", b"Title\0\0"), end_chunk()]);
    assert_eq!(decode(no_flags), Err(DecoderError::UnterminatedField));
    let no_translated = png(&[chunk(b"iTXt", b"Title\0\0\0en\0text"), end_chunk()]);
    assert_eq!(decode(no_translated), Err(DecoderError::UnterminatedField));
    let no_keyword_end = png(&[chunk(b"iTXt", b"Title"), end_chunk()]);
    assert_eq!(decode(no_keyword_end), Err(DecoderError::UnterminatedField));
}

#[test]
fn skips_unknown_chunks() {
    let buffer = png(&[
        chunk(b"IHDR", &header_payload()),
        chunk(b"pHYs", &[0, 0, 11, 19, 0, 0, 11, 19, 1]),
        chunk(b"tEXt", b"Software\0gnome-screenshot"),
        end_chunk(),
    ]);
    let chunks = decode(buffer).unwrap();
    assert_eq!(chunks.len(), 2);
    assert!(matches!(chunks[0], Chunk::Ihdr { .. }));
    assert!(matches!(chunks[1], Chunk::Text { .. }));
}

#[test]
fn decoding_twice_gives_identical_records() {
    let buffer = png(&[
        chunk(b"IHDR", &header_payload()),
        chunk(b"tEXt", b"date:create\x002023-04-23T12:32:40+00:00"),
        chunk(b"iTXt", b"k\0\0\0\0\0v"),
        end_chunk(),
    ]);
    let first = decode(buffer.clone());
    let second = decode(buffer);
    assert!(first.is_ok());
    assert_eq!(first, second);
}

#[test]
fn header_text_and_end_give_two_records() {
    let buffer = png(&[
        chunk(b"IHDR", &header_payload()),
        chunk(b"tEXt", b"Creation Time\0Tue 17 Jan 2023 10:44:41 AM CET"),
        end_chunk(),
    ]);
    let chunks = decode(buffer).unwrap();
    assert_eq!(chunks.len(), 2);
    match (&chunks[0], &chunks[1]) {
        (Chunk::Ihdr { width, height, .. }, Chunk::Text { keyword, text_string, .. }) => {
            assert_eq!((*width, *height), (800, 1113));
            assert_eq!(*keyword, "Creation Time".to_string());
            assert_eq!(*text_string, "Tue 17 Jan 2023 10:44:41 AM CET".to_string());
        }
        _ => panic!("expected a header and a text record"),
    }
}

#[test]
fn stops_at_end_chunk() {
    let mut buffer = png(&[chunk(b"IHDR", &header_payload()), end_chunk()]);
    buffer.extend_from_slice(&chunk(b"tEXt", b"after\0end"));
    buffer.extend_from_slice(&[1, 2, 3]);
    let chunks = decode(buffer).unwrap();
    assert_eq!(chunks.len(), 1);
}

#[test]
fn end_chunk_needs_no_checksum() {
    let mut buffer = SIGNATURE.to_vec();
    buffer.extend_from_slice(&[0, 0, 0, 0]);
    buffer.extend_from_slice(b"IEND");
    assert_eq!(decode(buffer), Ok(Vec::new()));
}

#[test]
fn rejects_truncated_streams() {
    assert_eq!(decode(SIGNATURE.to_vec()), Err(DecoderError::UnexpectedEnd));
    let mut cut = png(&[chunk(b"tEXt", b"Software\0x")]);
    cut.truncate(cut.len() - 2);
    assert_eq!(decode(cut), Err(DecoderError::UnexpectedEnd));
    let mut huge = SIGNATURE.to_vec();
    huge.extend_from_slice(&[0xff, 0xff, 0xff, 0xff]);
    huge.extend_from_slice(b"zzZz");
    assert_eq!(decode(huge), Err(DecoderError::UnexpectedEnd));
    let no_end = png(&[chunk(b"IHDR", &header_payload())]);
    assert_eq!(decode(no_end), Err(DecoderError::UnexpectedEnd));
}
