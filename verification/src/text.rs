//! Small string helpers: finding the first word of a string and handing a
//! string back with its byte length.

use vstd::prelude::*;
use vstd::string::StringSliceAdditionalSpecFns;
use vstd::utf8::{
    encode_utf8, is_char_boundary_iff_not_is_continuation_byte, is_char_boundary_start_end_of_seq,
    encode_utf8_valid_utf8,
};

verus! {

/// The byte index where the first word of `bytes` ends: the index of the
/// first space byte, or the whole length when no space occurs.
pub open spec fn word_end(bytes: Seq<u8>) -> int
    decreases bytes.len(),
{
    if bytes.len() == 0 {
        0
    } else if bytes.first() == 32u8 {
        0
    } else {
        1 + word_end(bytes.drop_first())
    }
}

/// `word_end` is the one index with no space before it that sits on a space
/// or at the end.
proof fn lemma_word_end_unique(bytes: Seq<u8>, i: int)
    requires
        0 <= i <= bytes.len(),
        forall|j: int| 0 <= j < i ==> bytes[j] != 32u8,
        i < bytes.len() ==> bytes[i] == 32u8,
    ensures
        word_end(bytes) == i,
    decreases bytes.len(),
{
    if bytes.len() == 0 {
    } else if bytes.first() == 32u8 {
    } else {
        lemma_word_end_unique(bytes.drop_first(), i - 1);
    }
}

/// What holds of `word_end` itself.
proof fn lemma_word_end_props(bytes: Seq<u8>)
    ensures
        0 <= word_end(bytes) <= bytes.len(),
        word_end(bytes) < bytes.len() ==> bytes[word_end(bytes)] == 32u8,
    decreases bytes.len(),
{
    if bytes.len() == 0 {
    } else if bytes.first() == 32u8 {
    } else {
        lemma_word_end_props(bytes.drop_first());
    }
}

/// The byte index where the first word of `s` ends: the index of the first
/// space byte of its UTF-8 form, or the byte length when no space occurs.
pub fn first_word(s: &String) -> (i: usize)
    ensures
        i == word_end(encode_utf8(s@)),
{
    let bytes = s.as_str().as_bytes();
    let n = bytes.len();
    for i in 0..n
        invariant
            n == bytes@.len(),
            bytes@ == encode_utf8(s@),
            forall|j: int| 0 <= j < i ==> bytes@[j] != 32u8,
    {
        if bytes[i] == 32 {
            proof {
                lemma_word_end_unique(bytes@, i as int);
            }
            return i;
        }
    }
    proof {
        lemma_word_end_unique(bytes@, n as int);
    }
    n
}

/// The first word of `s` as a slice: everything before the first space, or
/// all of `s` when no space occurs.
pub fn sliced_first_word(s: &String) -> (w: &str)
    ensures
        w.spec_bytes() == encode_utf8(s@).subrange(0, word_end(encode_utf8(s@))),
{
    let i = first_word(s);
    let st = s.as_str();
    proof {
        let b = encode_utf8(s@);
        encode_utf8_valid_utf8(s@);
        lemma_word_end_props(b);
        if i < b.len() {
            is_char_boundary_iff_not_is_continuation_byte(b, i as int);
        } else {
            is_char_boundary_start_end_of_seq(b);
        }
    }
    let parts = st.split_at(i);
    parts.0
}

/// Hand the string back, paired with its length in bytes.
pub fn calculate_length(s: String) -> (r: (String, usize))
    ensures
        r.0 == s,
        r.1 == encode_utf8(s@).len(),
{
    let bytes = s.as_str().as_bytes();
    let length = bytes.len();
    (s, length)
}

} // verus!
