//! The byte layout of a PNG file, stated as spec functions.

use vstd::prelude::*;

use crate::chunk::ChunkModel;
use crate::text::{decoded_text, first_null, has_null};
use crate::DecoderError;

verus! {

/// The number that four bytes give when read most significant first.
pub open spec fn be_value(b0: u8, b1: u8, b2: u8, b3: u8) -> int {
    b0 as int * 0x100_0000 + b1 as int * 0x1_0000 + b2 as int * 0x100 + b3 as int
}

/// The big-endian number held by `b[i..i + 4]`.
pub open spec fn be_u32_at(b: Seq<u8>, i: int) -> int {
    be_value(b[i], b[i + 1], b[i + 2], b[i + 3])
}

/// Reads the first four bytes of `chunk` as a big-endian `u32`.
pub fn big_endian_to_uint32(chunk: &[u8]) -> (r: u32)
    requires
        chunk@.len() >= 4,
    ensures
        r as int == be_u32_at(chunk@, 0),
{
    let b0 = chunk[0];
    let b1 = chunk[1];
    let b2 = chunk[2];
    let b3 = chunk[3];
    let r = (b3 as u32) | (b2 as u32) << 8 | (b1 as u32) << 16 | (b0 as u32) << 24;
    assert(r == (b3 as u32) | (b2 as u32) << 8 | (b1 as u32) << 16 | (b0 as u32) << 24 ==>
        r as int == b0 as int * 0x100_0000 + b1 as int * 0x1_0000 + b2 as int * 0x100 + b3 as int) by (bit_vector);
    r
}

/// The eight bytes that open every PNG file.
pub open spec fn png_signature() -> Seq<u8> {
    seq![137u8, 80u8, 78u8, 71u8, 13u8, 10u8, 26u8, 10u8]
}

/// `b` opens with the PNG signature.
pub open spec fn has_signature(b: Seq<u8>) -> bool {
    b.len() >= 8 && b.subrange(0, 8) == png_signature()
}

/// The chunk kinds that decoding tells apart by their four-byte tag.
#[derive(PartialEq, Eq, Structural, Clone, Copy, Debug)]
pub enum ChunkTag {
    /// `IHDR`
    Header,
    /// `tEXt`
    Text,
    /// `iTXt`
    InternationalText,
    /// `IEND`
    End,
    /// Any other tag.
    Other,
}

/// The kind of the tag `b[i..i + 4]`.
pub open spec fn tag_of(b: Seq<u8>, i: int) -> ChunkTag {
    let t = b.subrange(i, i + 4);
    if t == seq![73u8, 72u8, 68u8, 82u8] {
        ChunkTag::Header
    } else if t == seq![116u8, 69u8, 88u8, 116u8] {
        ChunkTag::Text
    } else if t == seq![105u8, 84u8, 88u8, 116u8] {
        ChunkTag::InternationalText
    } else if t == seq![73u8, 69u8, 78u8, 68u8] {
        ChunkTag::End
    } else {
        ChunkTag::Other
    }
}

/// The header record that a 13-byte payload gives.
pub open spec fn ihdr_model(p: Seq<u8>) -> ChunkModel {
    ChunkModel::Ihdr {
        width: be_u32_at(p, 0) as u32,
        height: be_u32_at(p, 4) as u32,
        bit_depth: p[8],
        colour_type: p[9],
        compression_method: p[10],
        filter_method: p[11],
        interlace_method: p[12],
        raw: p,
    }
}

/// The text record that payload `p` gives: a null-terminated keyword, then
/// the text up to the end of the payload.
#[verifier::opaque]
pub open spec fn text_model(p: Seq<u8>) -> Result<ChunkModel, DecoderError> {
    if has_null(p) {
        let k = first_null(p);
        Ok(
            ChunkModel::Text {
                keyword: decoded_text(p.subrange(0, k)),
                text_string: decoded_text(p.subrange(k + 1, p.len() as int)),
                raw: p,
            },
        )
    } else {
        Err(DecoderError::UnterminatedField)
    }
}

/// The international text record that payload `p` gives: a null-terminated
/// keyword, a compression flag byte, a compression method byte, a
/// null-terminated language tag, a null-terminated translated keyword, and
/// the text up to the end of the payload.
#[verifier::opaque]
pub open spec fn itxt_model(p: Seq<u8>) -> Result<ChunkModel, DecoderError> {
    if !has_null(p) || p.len() < first_null(p) + 3 {
        Err(DecoderError::UnterminatedField)
    } else {
        let k = first_null(p);
        let lang = p.subrange(k + 3, p.len() as int);
        if !has_null(lang) {
            Err(DecoderError::UnterminatedField)
        } else {
            let l = first_null(lang);
            let tr = lang.subrange(l + 1, lang.len() as int);
            if !has_null(tr) {
                Err(DecoderError::UnterminatedField)
            } else {
                let t = first_null(tr);
                Ok(
                    ChunkModel::Itxt {
                        keyword: decoded_text(p.subrange(0, k)),
                        compression_flag: p[k + 1],
                        compression_method: p[k + 2],
                        language_tag: decoded_text(lang.subrange(0, l)),
                        translated_keyword: decoded_text(tr.subrange(0, t)),
                        text: decoded_text(tr.subrange(t + 1, tr.len() as int)),
                        raw: p,
                    },
                )
            }
        }
    }
}

/// What one chunk contributes to decoding.
pub enum Step {
    /// The terminal chunk: decoding stops.
    End,
    /// Decoding fails.
    Fail(DecoderError),
    /// The chunk is passed over.
    Skip,
    /// The chunk yields a record.
    Record(ChunkModel),
}

/// The chunk whose payload of declared length `len` starts at `start` in `b`,
/// and whose 4-byte checksum follows, fits in `b`.
pub open spec fn payload_fits(b: Seq<u8>, start: int, len: int) -> bool {
    start + len + 4 <= b.len()
}

/// What a chunk of kind `tag` and declared length `len`, whose payload starts
/// at `start`, contributes.
pub open spec fn body_step(b: Seq<u8>, tag: ChunkTag, len: int, start: int) -> Step {
    let p = b.subrange(start, start + len);
    match tag {
        ChunkTag::End => Step::End,
        ChunkTag::Header => if len != 13 {
            Step::Fail(DecoderError::IHDRWrongSize)
        } else if !payload_fits(b, start, len) {
            Step::Fail(DecoderError::UnexpectedEnd)
        } else {
            Step::Record(ihdr_model(p))
        },
        ChunkTag::Text => if !payload_fits(b, start, len) {
            Step::Fail(DecoderError::UnexpectedEnd)
        } else {
            match text_model(p) {
                Ok(c) => Step::Record(c),
                Err(e) => Step::Fail(e),
            }
        },
        ChunkTag::InternationalText => if !payload_fits(b, start, len) {
            Step::Fail(DecoderError::UnexpectedEnd)
        } else {
            match itxt_model(p) {
                Ok(c) => Step::Record(c),
                Err(e) => Step::Fail(e),
            }
        },
        ChunkTag::Other => if !payload_fits(b, start, len) {
            Step::Fail(DecoderError::UnexpectedEnd)
        } else {
            Step::Skip
        },
    }
}

/// What the chunk that starts at `pos` contributes.
pub open spec fn step_at(b: Seq<u8>, pos: int) -> Step {
    if pos + 8 > b.len() {
        Step::Fail(DecoderError::UnexpectedEnd)
    } else {
        body_step(b, tag_of(b, pos + 4), be_u32_at(b, pos), pos + 8)
    }
}

/// Where the chunk after the one at `pos` starts.
pub open spec fn next_chunk(b: Seq<u8>, pos: int) -> int {
    pos + 12 + be_u32_at(b, pos)
}

/// `records` put before the records of `r`, or the error of `r`.
pub open spec fn prepend(
    records: Seq<ChunkModel>,
    r: Result<Seq<ChunkModel>, DecoderError>,
) -> Result<Seq<ChunkModel>, DecoderError> {
    match r {
        Ok(rest) => Ok(records + rest),
        Err(e) => Err(e),
    }
}

/// The records of the chunk stream that starts at `pos`, up to the terminal
/// chunk, or the first error.
pub open spec fn decode_from(b: Seq<u8>, pos: int) -> Result<Seq<ChunkModel>, DecoderError>
    decreases b.len() - pos,
{
    if pos < 0 {
        Err(DecoderError::UnexpectedEnd)
    } else {
        match step_at(b, pos) {
            Step::End => Ok(Seq::empty()),
            Step::Fail(e) => Err(e),
            Step::Skip => decode_from(b, next_chunk(b, pos)),
            Step::Record(c) => prepend(seq![c], decode_from(b, next_chunk(b, pos))),
        }
    }
}

/// The result of decoding the PNG file `b`.
pub open spec fn decode_model(b: Seq<u8>) -> Result<Seq<ChunkModel>, DecoderError> {
    if has_signature(b) {
        decode_from(b, 8)
    } else {
        Err(DecoderError::IsNotPngImage)
    }
}

/// One step of decoding: what the chunk at `pos` contributes decides the
/// records from `pos` on.
pub proof fn lemma_decode_step(b: Seq<u8>, pos: int)
    requires
        0 <= pos,
    ensures
        match step_at(b, pos) {
            Step::End => decode_from(b, pos) == Ok::<Seq<ChunkModel>, DecoderError>(Seq::empty()),
            Step::Fail(e) => decode_from(b, pos) == Err::<Seq<ChunkModel>, DecoderError>(e),
            Step::Skip => decode_from(b, pos) == decode_from(b, next_chunk(b, pos)),
            Step::Record(c) => decode_from(b, pos) == prepend(seq![c], decode_from(b, next_chunk(b, pos))),
        },
{
}

/// Putting `a` and then `c` before a result is putting `a + c` before it.
pub proof fn lemma_prepend_twice(
    a: Seq<ChunkModel>,
    c: Seq<ChunkModel>,
    r: Result<Seq<ChunkModel>, DecoderError>,
)
    ensures
        prepend(a, prepend(c, r)) == prepend(a + c, r),
{
    if let Ok(rest) = r {
        assert(a + (c + rest) =~= (a + c) + rest);
    }
}

} // verus!
