//! What holds of decoding for every input, proved over the model in
//! [`crate::layout`].

use vstd::prelude::*;

use crate::chunk::ChunkModel;
use crate::layout::{
    be_u32_at, be_value, decode_from, decode_model, has_signature, ihdr_model, itxt_model,
    lemma_decode_step, next_chunk, payload_fits, step_at, tag_of, text_model, ChunkTag, Step,
};
use crate::text::{decoded_text, first_null, has_null};
use crate::DecoderError;

verus! {

/// A buffer that does not open with the PNG signature is rejected as not a
/// PNG image, and yields no records.
pub proof fn lemma_rejects_without_signature(b: Seq<u8>)
    requires
        !has_signature(b),
    ensures
        decode_model(b) == Err::<Seq<ChunkModel>, DecoderError>(DecoderError::IsNotPngImage),
{
}

/// Four bytes read most significant first always give a `u32`.
pub proof fn lemma_be_value_fits(b0: u8, b1: u8, b2: u8, b3: u8)
    ensures
        0 <= be_value(b0, b1, b2, b3) <= u32::MAX,
{
}

/// A well-formed header chunk yields a header record whose width and height
/// are the big-endian numbers in bytes 0 to 3 and 4 to 7 of its payload, and
/// whose other fields are the payload's next five bytes.
pub proof fn lemma_header_fields(b: Seq<u8>, pos: int)
    requires
        0 <= pos,
        pos + 8 <= b.len(),
        tag_of(b, pos + 4) == ChunkTag::Header,
        be_u32_at(b, pos) == 13,
        payload_fits(b, pos + 8, 13),
    ensures
        match step_at(b, pos) {
            Step::Record(
                ChunkModel::Ihdr {
                    width,
                    height,
                    bit_depth,
                    colour_type,
                    compression_method,
                    filter_method,
                    interlace_method,
                    raw,
                },
            ) => {
                &&& width as int == be_value(b[pos + 8], b[pos + 9], b[pos + 10], b[pos + 11])
                &&& height as int == be_value(b[pos + 12], b[pos + 13], b[pos + 14], b[pos + 15])
                &&& bit_depth == b[pos + 16]
                &&& colour_type == b[pos + 17]
                &&& compression_method == b[pos + 18]
                &&& filter_method == b[pos + 19]
                &&& interlace_method == b[pos + 20]
                &&& raw == b.subrange(pos + 8, pos + 21)
            },
            _ => false,
        },
{
    let p = b.subrange(pos + 8, pos + 21);
    lemma_be_value_fits(p[0], p[1], p[2], p[3]);
    lemma_be_value_fits(p[4], p[5], p[6], p[7]);
}

/// A header chunk whose declared length is not 13 makes decoding fail with
/// the header size error from that chunk on, whatever follows it.
pub proof fn lemma_header_wrong_size(b: Seq<u8>, pos: int)
    requires
        0 <= pos,
        pos + 8 <= b.len(),
        tag_of(b, pos + 4) == ChunkTag::Header,
        be_u32_at(b, pos) != 13,
    ensures
        decode_from(b, pos) == Err::<Seq<ChunkModel>, DecoderError>(DecoderError::IHDRWrongSize),
{
}

/// An international text payload whose language tag and translated keyword
/// are both empty (two zero bytes right after the compression fields) yields
/// empty strings for both, and the bytes after them, decoded, as its text.
pub proof fn lemma_itxt_empty_tags(p: Seq<u8>)
    requires
        has_null(p),
        first_null(p) + 5 <= p.len(),
        p[first_null(p) + 3] == 0,
        p[first_null(p) + 4] == 0,
    ensures
        itxt_model(p) == Ok::<ChunkModel, DecoderError>(
            ChunkModel::Itxt {
                keyword: decoded_text(p.subrange(0, first_null(p))),
                compression_flag: p[first_null(p) + 1],
                compression_method: p[first_null(p) + 2],
                language_tag: Seq::empty(),
                translated_keyword: Seq::empty(),
                text: decoded_text(p.subrange(first_null(p) + 5, p.len() as int)),
                raw: p,
            },
        ),
{
    reveal(itxt_model);
    let k = first_null(p);
    let lang = p.subrange(k + 3, p.len() as int);
    crate::text::lemma_first_null_unique(lang, 0);
    let tr = lang.subrange(1, lang.len() as int);
    crate::text::lemma_first_null_unique(tr, 0);
    assert(lang.subrange(0, 0) =~= Seq::<u8>::empty());
    assert(tr.subrange(0, 0) =~= Seq::<u8>::empty());
    assert(tr.subrange(1, tr.len() as int) =~= p.subrange(k + 5, p.len() as int));
}

/// A chunk of an unrecognized kind is passed over whole: decoding goes on
/// at the chunk that starts after its payload and its 4 checksum bytes, and
/// the chunk adds no record.
pub proof fn lemma_unknown_chunk_skipped(b: Seq<u8>, pos: int)
    requires
        0 <= pos,
        pos + 8 <= b.len(),
        tag_of(b, pos + 4) == ChunkTag::Other,
        payload_fits(b, pos + 8, be_u32_at(b, pos)),
    ensures
        next_chunk(b, pos) == pos + 8 + be_u32_at(b, pos) + 4,
        decode_from(b, pos) == decode_from(b, next_chunk(b, pos)),
{
}

/// Decoding depends on the buffer alone: two decodings of the same bytes
/// give the same records in the same order, or the same error.
pub proof fn lemma_decode_deterministic(
    b: Seq<u8>,
    r1: Result<Seq<ChunkModel>, DecoderError>,
    r2: Result<Seq<ChunkModel>, DecoderError>,
)
    requires
        r1 == decode_model(b),
        r2 == decode_model(b),
    ensures
        r1 == r2,
{
}

/// A PNG file made of a header chunk, one text chunk and the terminal chunk
/// yields exactly two records: the header, then the text; the terminal chunk
/// adds none.
pub proof fn lemma_header_text_end(b: Seq<u8>)
    requires
        has_signature(b),
        // a header chunk at 8, with its 13-byte payload and checksum
        b.len() >= 33,
        be_u32_at(b, 8) == 13,
        tag_of(b, 12) == ChunkTag::Header,
        // a text chunk at 33 whose keyword ends within it
        b.len() >= 41,
        tag_of(b, 37) == ChunkTag::Text,
        payload_fits(b, 41, be_u32_at(b, 33)),
        has_null(b.subrange(41, 41 + be_u32_at(b, 33))),
        // the terminal chunk after it
        next_chunk(b, 33) + 8 <= b.len(),
        tag_of(b, next_chunk(b, 33) + 4) == ChunkTag::End,
    ensures
        text_model(b.subrange(41, 41 + be_u32_at(b, 33))) is Ok,
        decode_model(b) == Ok::<Seq<ChunkModel>, DecoderError>(
            seq![
                ihdr_model(b.subrange(16, 29)),
                text_model(b.subrange(41, 41 + be_u32_at(b, 33)))->Ok_0,
            ],
        ),
{
    reveal(text_model);
    let e = next_chunk(b, 33);
    lemma_decode_step(b, 8);
    lemma_decode_step(b, 33);
    lemma_decode_step(b, e);
    let t = text_model(b.subrange(41, 41 + be_u32_at(b, 33)))->Ok_0;
    assert(seq![t] + Seq::<ChunkModel>::empty() =~= seq![t]);
    assert(seq![ihdr_model(b.subrange(16, 29))] + seq![t] =~= seq![
        ihdr_model(b.subrange(16, 29)),
        t,
    ]);
}

} // verus!
