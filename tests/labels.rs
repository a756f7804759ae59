use pngmet::chunk::{
    colour_type_name, compression_flag_name, compression_method_name, filter_method_name,
    interlace_method_name, text_compression_name,
};

#[test]
fn names_colour_types() {
    assert_eq!(colour_type_name(0), "Greyscale");
    assert_eq!(colour_type_name(2), "RGB");
    assert_eq!(colour_type_name(3), "Indexed color");
    assert_eq!(colour_type_name(4), "Greyscale Alpha");
    assert_eq!(colour_type_name(6), "RGBA");
    assert_eq!(colour_type_name(5), "Unknown colour type");
}

#[test]
fn names_header_methods() {
    assert_eq!(compression_method_name(0), "DEFLATE");
    assert_eq!(compression_method_name(1), "Unknown compression method");
    assert_eq!(filter_method_name(0), "Adaptive");
    assert_eq!(filter_method_name(7), "Unknown filter method");
    assert_eq!(interlace_method_name(0), "No interlace");
    assert_eq!(interlace_method_name(1), "Adam7");
    assert_eq!(interlace_method_name(2), "Unknown interlace method");
}

#[test]
fn names_text_compression() {
    assert_eq!(compression_flag_name(0), "Uncompressed");
    assert_eq!(compression_flag_name(1), "Compressed");
    assert_eq!(compression_flag_name(9), "Unknown compression flag");
    assert_eq!(text_compression_name(1, 0), "Zlib compression method");
    assert_eq!(text_compression_name(0, 0), "Uncompressed");
    assert_eq!(text_compression_name(1, 3), "Uncompressed");
}
