//! The records that decoding yields, one variant per recognized chunk kind.

use vstd::prelude::*;

verus! {

/// One recognized chunk, with its fields and its raw payload.
#[derive(Clone, Debug, PartialEq, Eq)]
pub enum Chunk {
    /// The image header: dimensions and pixel format.
    Ihdr {
        width: u32,
        height: u32,
        bit_depth: u8,
        colour_type: u8,
        compression_method: u8,
        filter_method: u8,
        interlace_method: u8,
        raw: Vec<u8>,
    },
    /// A keyword and its text.
    Text { keyword: String, text_string: String, raw: Vec<u8> },
    /// An international text entry.
    Itxt {
        keyword: String,
        compression_flag: u8,
        compression_method: u8,
        language_tag: String,
        translated_keyword: String,
        text: String,
        raw: Vec<u8>,
    },
}

/// The mathematical value of a [`Chunk`]: strings as character sequences,
/// payloads as byte sequences.
pub enum ChunkModel {
    Ihdr {
        width: u32,
        height: u32,
        bit_depth: u8,
        colour_type: u8,
        compression_method: u8,
        filter_method: u8,
        interlace_method: u8,
        raw: Seq<u8>,
    },
    Text { keyword: Seq<char>, text_string: Seq<char>, raw: Seq<u8> },
    Itxt {
        keyword: Seq<char>,
        compression_flag: u8,
        compression_method: u8,
        language_tag: Seq<char>,
        translated_keyword: Seq<char>,
        text: Seq<char>,
        raw: Seq<u8>,
    },
}

impl View for Chunk {
    type V = ChunkModel;

    open spec fn view(&self) -> ChunkModel {
        match self {
            Chunk::Ihdr {
                width,
                height,
                bit_depth,
                colour_type,
                compression_method,
                filter_method,
                interlace_method,
                raw,
            } => ChunkModel::Ihdr {
                width: *width,
                height: *height,
                bit_depth: *bit_depth,
                colour_type: *colour_type,
                compression_method: *compression_method,
                filter_method: *filter_method,
                interlace_method: *interlace_method,
                raw: raw@,
            },
            Chunk::Text { keyword, text_string, raw } => ChunkModel::Text {
                keyword: keyword@,
                text_string: text_string@,
                raw: raw@,
            },
            Chunk::Itxt {
                keyword,
                compression_flag,
                compression_method,
                language_tag,
                translated_keyword,
                text,
                raw,
            } => ChunkModel::Itxt {
                keyword: keyword@,
                compression_flag: *compression_flag,
                compression_method: *compression_method,
                language_tag: language_tag@,
                translated_keyword: translated_keyword@,
                text: text@,
                raw: raw@,
            },
        }
    }
}

/// The models of a list of chunks, in order.
pub open spec fn chunks_view(chunks: Seq<Chunk>) -> Seq<ChunkModel> {
    chunks.map_values(|c: Chunk| c@)
}

/// The name of a header colour type code.
pub open spec fn colour_type_label(code: u8) -> Seq<char> {
    if code == 0 {
        "Greyscale"@
    } else if code == 2 {
        "RGB"@
    } else if code == 3 {
        "Indexed color"@
    } else if code == 4 {
        "Greyscale Alpha"@
    } else if code == 6 {
        "RGBA"@
    } else {
        "Unknown colour type"@
    }
}

/// Names a header colour type code.
pub fn colour_type_name(code: u8) -> (r: &'static str)
    ensures
        r@ == colour_type_label(code),
{
    match code {
        0 => "Greyscale",
        2 => "RGB",
        3 => "Indexed color",
        4 => "Greyscale Alpha",
        6 => "RGBA",
        _ => "Unknown colour type",
    }
}

/// Names a header compression method code: 0 is DEFLATE.
pub fn compression_method_name(code: u8) -> (r: &'static str)
    ensures
        r@ == (if code == 0 {
            "DEFLATE"@
        } else {
            "Unknown compression method"@
        }),
{
    if code == 0 {
        "DEFLATE"
    } else {
        "Unknown compression method"
    }
}

/// Names a header filter method code: 0 is adaptive filtering.
pub fn filter_method_name(code: u8) -> (r: &'static str)
    ensures
        r@ == (if code == 0 {
            "Adaptive"@
        } else {
            "Unknown filter method"@
        }),
{
    if code == 0 {
        "Adaptive"
    } else {
        "Unknown filter method"
    }
}

/// Names a header interlace method code: 0 is none, 1 is Adam7.
pub fn interlace_method_name(code: u8) -> (r: &'static str)
    ensures
        r@ == (if code == 0 {
            "No interlace"@
        } else if code == 1 {
            "Adam7"@
        } else {
            "Unknown interlace method"@
        }),
{
    if code == 0 {
        "No interlace"
    } else if code == 1 {
        "Adam7"
    } else {
        "Unknown interlace method"
    }
}

/// Names an international text compression flag: 0 is uncompressed, 1 is
/// compressed.
pub fn compression_flag_name(flag: u8) -> (r: &'static str)
    ensures
        r@ == (if flag == 0 {
            "Uncompressed"@
        } else if flag == 1 {
            "Compressed"@
        } else {
            "Unknown compression flag"@
        }),
{
    if flag == 0 {
        "Uncompressed"
    } else if flag == 1 {
        "Compressed"
    } else {
        "Unknown compression flag"
    }
}

/// Names the compression of an international text entry: zlib when the
/// flag says compressed and the method is 0, else uncompressed.
pub fn text_compression_name(flag: u8, method: u8) -> (r: &'static str)
    ensures
        r@ == (if flag == 1 && method == 0 {
            "Zlib compression method"@
        } else {
            "Uncompressed"@
        }),
{
    if flag == 1 && method == 0 {
        "Zlib compression method"
    } else {
        "Uncompressed"
    }
}

} // verus!
