//! Reads structural and textual metadata out of PNG files by walking their
//! chunk stream.

use vstd::prelude::*;

pub mod chunk;
pub mod layout;
pub mod laws;
pub mod text;

pub use chunk::Chunk;

use chunk::{chunks_view, ChunkModel};
use layout::{
    big_endian_to_uint32, body_step, decode_from, decode_model, has_signature, itxt_model,
    lemma_decode_step, lemma_prepend_twice, next_chunk, payload_fits, prepend, step_at, tag_of,
    text_model, ChunkTag, Step,
};
use text::{decode_field, null_terminated_len};
use vstd::slice::{slice_subrange, slice_to_vec};

verus! {

/// Why decoding failed.
#[derive(PartialEq, Eq, Structural, Clone, Copy, Debug)]
pub enum DecoderError {
    /// The buffer does not open with the PNG signature.
    IsNotPngImage,
    /// A header chunk declares a length other than 13.
    IHDRWrongSize,
    /// Kept for callers that name it; unknown chunk tags are skipped, so
    /// decoding never returns it.
    UnkownTagFound,
    /// A null-terminated field has no terminator within its chunk.
    UnterminatedField,
    /// A chunk runs past the end of the buffer.
    UnexpectedEnd,
}

/// Walks the chunk stream of one PNG file held in memory.
///
/// A decoder is made for one buffer and decodes it once: its cursor only
/// moves forward, and the records it collects are handed out by `decode`.
pub struct Decoder {
    start_offset: usize,
    buffer: Vec<u8>,
    chunks: Vec<Chunk>,
}

/// The kind of the tag `buf[i..i + 4]`, whose bytes are ASCII letters:
/// `IHDR`, `tEXt`, `iTXt` and `IEND` are 73 72 68 82, 116 69 88 116,
/// 105 84 88 116 and 73 69 78 68.
fn tag_at(buf: &[u8], i: usize) -> (r: ChunkTag)
    requires
        i + 4 <= buf@.len(),
    ensures
        r == tag_of(buf@, i as int),
{
    let (a, b, c, d) = (buf[i], buf[i + 1], buf[i + 2], buf[i + 3]);
    proof {
        let s = buf@.subrange(i as int, i + 4);
        assert(s =~= seq![a, b, c, d]);
    }
    if a == 73 && b == 72 && c == 68 && d == 82 {
        ChunkTag::Header
    } else if a == 116 && b == 69 && c == 88 && d == 116 {
        ChunkTag::Text
    } else if a == 105 && b == 84 && c == 88 && d == 116 {
        ChunkTag::InternationalText
    } else if a == 73 && b == 69 && c == 78 && d == 68 {
        ChunkTag::End
    } else {
        ChunkTag::Other
    }
}

/// Whether `buf` opens with the PNG signature.
fn starts_with_signature(buf: &[u8]) -> (r: bool)
    ensures
        r == has_signature(buf@),
{
    if buf.len() < 8 {
        return false;
    }
    let r = buf[0] == 137 && buf[1] == 80 && buf[2] == 78 && buf[3] == 71 && buf[4] == 13
        && buf[5] == 10 && buf[6] == 26 && buf[7] == 10;
    proof {
        let s = buf@.subrange(0, 8);
        assert(s =~= seq![buf@[0], buf@[1], buf@[2], buf@[3], buf@[4], buf@[5], buf@[6], buf@[7]]);
    }
    r
}

impl Decoder {
    /// The buffer being decoded.
    pub closed spec fn input(&self) -> Seq<u8> {
        self.buffer@
    }

    /// Nothing has been read yet: the cursor stands at the start and no
    /// record has been collected.
    pub closed spec fn is_fresh(&self) -> bool {
        self.start_offset == 0 && self.chunks@.len() == 0
    }

    /// The records collected so far.
    pub closed spec fn records(&self) -> Seq<ChunkModel> {
        chunks_view(self.chunks@)
    }

    /// The cursor lies within the buffer.
    spec fn wf(&self) -> bool {
        self.start_offset <= self.buffer@.len()
    }

    /// `after` is `before` after a chunk body of declared length `len` that
    /// contributes `s`, with `r` returned.
    spec fn took(before: &Decoder, after: &Decoder, s: Step, len: u32, r: Result<(), DecoderError>) -> bool {
        &&& after.buffer@ == before.buffer@
        &&& match s {
            Step::Record(c) => {
                &&& r == Ok::<(), DecoderError>(())
                &&& after.records() == before.records().push(c)
                &&& after.start_offset == before.start_offset + len + 4
                &&& after.start_offset <= after.buffer@.len()
            },
            Step::Skip => {
                &&& r == Ok::<(), DecoderError>(())
                &&& after.records() == before.records()
                &&& after.start_offset == before.start_offset + len + 4
                &&& after.start_offset <= after.buffer@.len()
            },
            Step::Fail(e) => r == Err::<(), DecoderError>(e) && after.start_offset == before.start_offset,
            Step::End => false,
        }
    }

    /// A decoder for `buffer`, with its cursor at the start.
    pub fn new(buffer: Vec<u8>) -> (r: Self)
        ensures
            r.input() == buffer@,
            r.is_fresh(),
    {
        Self { start_offset: 0, chunks: Vec::new(), buffer }
    }

    /// Where the next chunk starts, if a payload of `length` bytes and its
    /// checksum fit between the cursor and the end of the buffer.
    fn chunk_end(&self, length: u32) -> (r: Option<usize>)
        requires
            self.wf(),
        ensures
            match r {
                Some(end) => {
                    &&& payload_fits(self.buffer@, self.start_offset as int, length as int)
                    &&& end == self.start_offset + length + 4
                },
                None => !payload_fits(self.buffer@, self.start_offset as int, length as int),
            },
    {
        let avail = self.buffer.len() - self.start_offset;
        if length as usize <= avail && avail - length as usize >= 4 {
            Some(self.start_offset + length as usize + 4)
        } else {
            None
        }
    }

    /// Passes over a chunk of an unrecognized kind and its checksum.
    fn ignore_chunk(&mut self, length: u32) -> (r: Result<(), DecoderError>)
        requires
            old(self).wf(),
        ensures
            Decoder::took(
                old(self),
                final(self),
                body_step(old(self).buffer@, ChunkTag::Other, length as int, old(self).start_offset as int),
                length,
                r,
            ),
    {
        match self.chunk_end(length) {
            None => Err(DecoderError::UnexpectedEnd),
            Some(end) => {
                self.start_offset = end;
                Ok(())
            },
        }
    }
    /// Reads a header chunk body of declared length `length` at the cursor.
    fn parse_ihdr(&mut self, length: u32) -> (r: Result<(), DecoderError>)
        requires
            old(self).wf(),
        ensures
            Decoder::took(
                old(self),
                final(self),
                body_step(old(self).buffer@, ChunkTag::Header, length as int, old(self).start_offset as int),
                length,
                r,
            ),
    {
        if length != 13 {
            return Err(DecoderError::IHDRWrongSize);
        }
        let end = match self.chunk_end(length) {
            None => return Err(DecoderError::UnexpectedEnd),
            Some(end) => end,
        };
        let start = self.start_offset;
        let buf = self.buffer.as_slice();
        let raw = slice_subrange(buf, start, start + 13);
        let width = big_endian_to_uint32(slice_subrange(raw, 0, 4));
        let height = big_endian_to_uint32(slice_subrange(raw, 4, 8));
        let c = Chunk::Ihdr {
            width,
            height,
            bit_depth: raw[8],
            colour_type: raw[9],
            compression_method: raw[10],
            filter_method: raw[11],
            interlace_method: raw[12],
            raw: slice_to_vec(raw),
        };
        self.push_record(c);
        self.start_offset = end;
        Ok(())
    }

    /// Appends `c` to the records.
    fn push_record(&mut self, c: Chunk)
        ensures
            final(self).buffer@ == old(self).buffer@,
            final(self).start_offset == old(self).start_offset,
            final(self).records() == old(self).records().push(c@),
    {
        self.chunks.push(c);
        assert(chunks_view(self.chunks@) =~= chunks_view(old(self).chunks@).push(c@));
    }

    /// Reads a text chunk body of declared length `length` at the cursor.
    fn parse_text(&mut self, length: u32) -> (r: Result<(), DecoderError>)
        requires
            old(self).wf(),
        ensures
            Decoder::took(
                old(self),
                final(self),
                body_step(old(self).buffer@, ChunkTag::Text, length as int, old(self).start_offset as int),
                length,
                r,
            ),
    {
        let end = match self.chunk_end(length) {
            None => return Err(DecoderError::UnexpectedEnd),
            Some(end) => end,
        };
        let start = self.start_offset;
        let len = length as usize;
        reveal(text_model);
        let raw = slice_subrange(self.buffer.as_slice(), start, start + len);
        let keyword_len = match null_terminated_len(raw) {
            None => return Err(DecoderError::UnterminatedField),
            Some(n) => n,
        };
        let keyword = decode_field(slice_subrange(raw, 0, keyword_len - 1));
        let text_string = decode_field(slice_subrange(raw, keyword_len, len));
        let c = Chunk::Text { keyword, text_string, raw: slice_to_vec(raw) };
        self.push_record(c);
        self.start_offset = end;
        Ok(())
    }

    /// Reads an international text chunk body of declared length `length` at
    /// the cursor.
    fn parse_itxt(&mut self, length: u32) -> (r: Result<(), DecoderError>)
        requires
            old(self).wf(),
        ensures
            Decoder::took(
                old(self),
                final(self),
                body_step(
                    old(self).buffer@,
                    ChunkTag::InternationalText,
                    length as int,
                    old(self).start_offset as int,
                ),
                length,
                r,
            ),
    {
        let end = match self.chunk_end(length) {
            None => return Err(DecoderError::UnexpectedEnd),
            Some(end) => end,
        };
        let start = self.start_offset;
        let len = length as usize;
        reveal(itxt_model);
        let raw = slice_subrange(self.buffer.as_slice(), start, start + len);
        let keyword_len = match null_terminated_len(raw) {
            None => return Err(DecoderError::UnterminatedField),
            Some(n) => n,
        };
        // The two single-byte fields follow the keyword's terminator.
        if len - keyword_len < 2 {
            return Err(DecoderError::UnterminatedField);
        }
        let compression_flag = raw[keyword_len];
        let compression_method = raw[keyword_len + 1];
        let rest = slice_subrange(raw, keyword_len + 2, len);
        let language_tag_len = match null_terminated_len(rest) {
            None => return Err(DecoderError::UnterminatedField),
            Some(n) => n,
        };
        let tail = slice_subrange(rest, language_tag_len, rest.len());
        let translated_keyword_len = match null_terminated_len(tail) {
            None => return Err(DecoderError::UnterminatedField),
            Some(n) => n,
        };
        let keyword = decode_field(slice_subrange(raw, 0, keyword_len - 1));
        let language_tag = decode_field(slice_subrange(rest, 0, language_tag_len - 1));
        let translated_keyword = decode_field(
            slice_subrange(tail, 0, translated_keyword_len - 1),
        );
        let text = decode_field(slice_subrange(tail, translated_keyword_len, tail.len()));
        let c = Chunk::Itxt {
            keyword,
            compression_flag,
            compression_method,
            language_tag,
            translated_keyword,
            text,
            raw: slice_to_vec(raw),
        };
        self.push_record(c);
        self.start_offset = end;
        Ok(())
    }

    /// Reads the chunk at the cursor. Returns `Ok(true)` at the terminal
    /// chunk, `Ok(false)` once a chunk has been read or passed over.
    fn parse_chunks(&mut self) -> (r: Result<bool, DecoderError>)
        requires
            old(self).wf(),
        ensures
            final(self).wf(),
            final(self).buffer@ == old(self).buffer@,
            match step_at(old(self).buffer@, old(self).start_offset as int) {
                Step::End => {
                    &&& r == Ok::<bool, DecoderError>(true)
                    &&& final(self).records() == old(self).records()
                },
                Step::Fail(e) => r == Err::<bool, DecoderError>(e),
                Step::Skip => {
                    &&& r == Ok::<bool, DecoderError>(false)
                    &&& final(self).records() == old(self).records()
                    &&& final(self).start_offset == next_chunk(old(self).buffer@, old(self).start_offset as int)
                },
                Step::Record(c) => {
                    &&& r == Ok::<bool, DecoderError>(false)
                    &&& final(self).records() == old(self).records().push(c)
                    &&& final(self).start_offset == next_chunk(old(self).buffer@, old(self).start_offset as int)
                },
            },
    {
        if self.buffer.len() - self.start_offset < 8 {
            return Err(DecoderError::UnexpectedEnd);
        }
        let start = self.start_offset;
        let length = big_endian_to_uint32(slice_subrange(self.buffer.as_slice(), start, start + 4));
        let tag = tag_at(self.buffer.as_slice(), start + 4);
        self.start_offset = start + 8;
        let r = match tag {
            ChunkTag::End => return Ok(true),
            ChunkTag::Header => self.parse_ihdr(length),
            ChunkTag::Text => self.parse_text(length),
            ChunkTag::InternationalText => self.parse_itxt(length),
            ChunkTag::Other => self.ignore_chunk(length),
        };
        match r {
            Ok(()) => Ok(false),
            Err(e) => Err(e),
        }
    }

    /// Decodes the buffer: checks the signature, then reads chunks up to the
    /// terminal one and returns their records in file order.
    pub fn decode(&mut self) -> (r: Result<Vec<Chunk>, DecoderError>)
        requires
            old(self).is_fresh(),
        ensures
            final(self).input() == old(self).input(),
            match r {
                Ok(v) => decode_model(old(self).input()) == Ok::<Seq<ChunkModel>, DecoderError>(
                    chunks_view(v@),
                ),
                Err(e) => decode_model(old(self).input()) == Err::<Seq<ChunkModel>, DecoderError>(e),
            },
    {
        if !starts_with_signature(self.buffer.as_slice()) {
            return Err(DecoderError::IsNotPngImage);
        }
        self.start_offset = 8;
        proof {
            assert(self.records() =~= Seq::<ChunkModel>::empty());
            assert(prepend(self.records(), decode_from(self.buffer@, 8)) == decode_from(self.buffer@, 8));
        }
        loop
            invariant_except_break
                self.wf(),
                8 <= self.start_offset,
                decode_from(self.buffer@, 8) == prepend(
                    self.records(),
                    decode_from(self.buffer@, self.start_offset as int),
                ),
            invariant
                self.buffer@ == old(self).buffer@,
                has_signature(self.buffer@),
            ensures
                decode_from(self.buffer@, 8) == Ok::<Seq<ChunkModel>, DecoderError>(self.records()),
            decreases self.buffer@.len() - self.start_offset,
        {
            let ghost before = self.records();
            let ghost pos = self.start_offset as int;
            let step = self.parse_chunks();
            proof {
                let b = self.buffer@;
                lemma_decode_step(b, pos);
                match step_at(b, pos) {
                    Step::Record(c) => {
                        lemma_prepend_twice(before, seq![c], decode_from(b, next_chunk(b, pos)));
                        assert(before + seq![c] =~= before.push(c));
                    },
                    Step::End => {
                        lemma_prepend_twice(before, Seq::empty(), Ok(Seq::empty()));
                        assert(before + Seq::<ChunkModel>::empty() =~= before);
                    },
                    _ => {},
                }
            }
            match step {
                Err(e) => return Err(e),
                Ok(true) => break,
                Ok(false) => {},
            }
        }
        let mut out: Vec<Chunk> = Vec::new();
        std::mem::swap(&mut out, &mut self.chunks);
        Ok(out)
    }
}

} // verus!
