//! Null-terminated fields and lenient text decoding.

use vstd::prelude::*;
use vstd::utf8::{decode_utf8, valid_utf8};

verus! {

/// `i` is the position of the first zero byte of `s`.
pub open spec fn is_first_null(s: Seq<u8>, i: int) -> bool {
    &&& 0 <= i < s.len()
    &&& s[i] == 0
    &&& forall|j: int| 0 <= j < i ==> s[j] != 0
}

/// `s` holds a zero byte, so a null-terminated field in it ends.
pub open spec fn has_null(s: Seq<u8>) -> bool {
    exists|i: int| is_first_null(s, i)
}

/// The position of the first zero byte of `s`.
pub open spec fn first_null(s: Seq<u8>) -> int
    recommends
        has_null(s),
{
    choose|i: int| is_first_null(s, i)
}

/// There is only one first zero byte.
pub proof fn lemma_first_null_unique(s: Seq<u8>, i: int)
    requires
        is_first_null(s, i),
    ensures
        has_null(s),
        first_null(s) == i,
{
    let k = first_null(s);
    assert(is_first_null(s, k));
    if k < i {
        assert(s[k] != 0);
    } else if i < k {
        assert(s[i] != 0);
    }
}

/// What lenient decoding makes of bytes that are not valid UTF-8: the valid
/// parts as they are, each invalid run as a replacement character.
pub uninterp spec fn lossy_of(b: Seq<u8>) -> Seq<char>;

/// The text that a byte field holds once decoded leniently.
pub open spec fn decoded_text(b: Seq<u8>) -> Seq<char> {
    if valid_utf8(b) {
        decode_utf8(b)
    } else {
        lossy_of(b)
    }
}

/// Relies on `String::from_utf8_lossy`: valid UTF-8 comes back as the
/// characters it encodes, anything else is decoded with replacement
/// characters, and the result depends on the bytes alone.
#[verifier::external_body]
pub(crate) fn lossy_string(b: &[u8]) -> (r: String)
    ensures
        valid_utf8(b@) ==> r@ == decode_utf8(b@),
        !valid_utf8(b@) ==> r@ == lossy_of(b@),
{
    String::from_utf8_lossy(b).into_owned()
}

/// Text decoded leniently from a byte field.
pub fn decode_field(b: &[u8]) -> (r: String)
    ensures
        r@ == decoded_text(b@),
{
    lossy_string(b)
}

/// Finds the first zero byte of `raw` and returns how many bytes the
/// null-terminated field at its start takes, terminator included.
pub fn null_terminated_len(raw: &[u8]) -> (r: Option<usize>)
    ensures
        match r {
            Some(n) => has_null(raw@) && n == first_null(raw@) + 1,
            None => !has_null(raw@),
        },
{
    let mut i: usize = 0;
    while i < raw.len()
        invariant
            i <= raw@.len(),
            forall|j: int| 0 <= j < i ==> raw@[j] != 0,
        decreases raw@.len() - i,
    {
        if raw[i] == 0 {
            proof {
                lemma_first_null_unique(raw@, i as int);
            }
            return Some(i + 1);
        }
        i += 1;
    }
    assert(!has_null(raw@)) by {
        if has_null(raw@) {
            let k = first_null(raw@);
            assert(is_first_null(raw@, k));
        }
    }
    None
}

} // verus!
