//! Decoding of fixed-size, null-terminated byte buffers into text.
//!
//! A raw identity field is a byte buffer of a fixed, platform-dependent
//! length. Its text is the bytes before the first null byte, which must
//! form valid UTF-8. This module finds the terminator, validates the
//! prefix, and decodes it into an owned string.

use vstd::prelude::*;
use vstd::utf8::{valid_utf8, decode_utf8, encode_utf8, decode_utf8_encode_utf8};

verus! {

/// `i` is the position of the first null byte in `bytes`.
pub open spec fn is_first_null(bytes: Seq<u8>, i: int) -> bool {
    &&& 0 <= i < bytes.len()
    &&& bytes[i] == 0
    &&& forall|j: int| 0 <= j < i ==> bytes[j] != 0
}

/// `bytes` contains a null byte somewhere.
pub open spec fn has_null(bytes: Seq<u8>) -> bool {
    exists|i: int| is_first_null(bytes, i)
}

/// Position of the first null byte in `bytes`.
pub open spec fn first_null(bytes: Seq<u8>) -> int
    recommends
        has_null(bytes),
{
    choose|i: int| is_first_null(bytes, i)
}

/// The bytes of a raw field before its terminating null.
pub open spec fn field_prefix(bytes: Seq<u8>) -> Seq<u8>
    recommends
        has_null(bytes),
{
    bytes.subrange(0, first_null(bytes))
}

/// There is at most one first null, so a found position pins `first_null` down.
pub proof fn lemma_first_null_is(bytes: Seq<u8>, i: int)
    requires
        is_first_null(bytes, i),
    ensures
        has_null(bytes),
        first_null(bytes) == i,
{
    let f = first_null(bytes);
    assert(is_first_null(bytes, f));
    if f < i {
        assert(bytes[f] != 0);
    }
    if f > i {
        assert(bytes[i] != 0);
    }
}

/// Position of the first null byte of `buf`, if any.
fn find_null(buf: &Vec<u8>) -> (r: Option<usize>)
    ensures
        match r {
            Some(i) => is_first_null(buf@, i as int),
            None => !has_null(buf@),
        },
{
    let n = buf.len();
    let mut i: usize = 0;
    while i < n
        invariant
            n == buf@.len(),
            i <= n,
            forall|j: int| 0 <= j < i ==> buf@[j] != 0,
        decreases n - i,
    {
        if buf[i] == 0 {
            return Some(i);
        }
        i = i + 1;
    }
    assert forall|k: int| !is_first_null(buf@, k) by {
        if 0 <= k < buf@.len() {
            assert(buf@[k] != 0);
        }
    }
    None
}

/// `bytes` is a well-formed raw field buffer of length `len`: it holds a
/// null terminator, and the bytes before it are valid UTF-8.
pub open spec fn raw_field_ok(bytes: Seq<u8>, len: int) -> bool {
    &&& bytes.len() == len
    &&& has_null(bytes)
    &&& valid_utf8(field_prefix(bytes))
}

/// The text of a well-formed raw field buffer.
pub open spec fn decoded_field(bytes: Seq<u8>) -> Seq<char>
    recommends
        has_null(bytes),
{
    decode_utf8(field_prefix(bytes))
}

/// `text` fits a field of a buffer of length `len`: it has fewer
/// characters than the buffer has bytes, and its UTF-8 encoding holds no
/// null byte and is strictly shorter than the buffer.
pub open spec fn wf_field(text: Seq<char>, len: int) -> bool {
    &&& text.len() < len
    &&& encode_utf8(text).len() < len
    &&& forall|i: int| 0 <= i < encode_utf8(text).len() ==> encode_utf8(text)[i] != 0
}

/// A UTF-8 encoding is at least as long as the text it encodes: every
/// character takes at least one byte.
pub proof fn lemma_encode_len_ge_chars(text: Seq<char>)
    ensures
        text.len() <= encode_utf8(text).len(),
    decreases text.len(),
{
    if text.len() > 0 {
        lemma_encode_len_ge_chars(text.drop_first());
    }
}

/// The text decoded from a well-formed raw field buffer fits a field of
/// that buffer's length.
pub proof fn lemma_decoded_field_wf(bytes: Seq<u8>, len: int)
    requires
        raw_field_ok(bytes, len),
    ensures
        wf_field(decoded_field(bytes), len),
{
    let f = first_null(bytes);
    assert(is_first_null(bytes, f));
    let prefix = field_prefix(bytes);
    decode_utf8_encode_utf8(prefix);
    assert(encode_utf8(decoded_field(bytes)) == prefix);
    assert(prefix.len() == f);
    lemma_encode_len_ge_chars(decoded_field(bytes));
    assert forall|i: int| 0 <= i < prefix.len() implies prefix[i] != 0 by {
        assert(prefix[i] == bytes[i]);
    }
}

/// Relies on `String::from_utf8` from std: it succeeds exactly on valid
/// UTF-8 input, and then returns the characters those bytes encode.
#[verifier::external_body]
fn string_from_utf8(bytes: Vec<u8>) -> (r: Option<String>)
    ensures
        r is Some <==> valid_utf8(bytes@),
        r matches Some(s) ==> s@ == decode_utf8(bytes@),
{
    match String::from_utf8(bytes) {
        Ok(s) => Some(s),
        Err(_) => None,
    }
}

/// Decode one raw field buffer, expected to be `len` bytes long, into its
/// text: the valid-UTF-8 bytes before the first null. Returns `None` when
/// the buffer has the wrong length, holds no null terminator, or holds
/// bytes before the terminator that are not valid UTF-8.
pub fn decode_field(buf: &Vec<u8>, len: usize) -> (r: Option<String>)
    ensures
        match r {
            Some(s) => raw_field_ok(buf@, len as int) && s@ == decoded_field(buf@),
            None => !raw_field_ok(buf@, len as int),
        },
{
    if buf.len() != len {
        return None;
    }
    let i = match find_null(buf) {
        Some(i) => i,
        None => {
            return None;
        },
    };
    proof {
        lemma_first_null_is(buf@, i as int);
    }
    let mut prefix: Vec<u8> = Vec::new();
    let mut j: usize = 0;
    while j < i
        invariant
            j <= i,
            i < buf@.len(),
            prefix@ == buf@.subrange(0, j as int),
        decreases i - j,
    {
        prefix.push(buf[j]);
        proof {
            assert(prefix@ =~= buf@.subrange(0, j + 1));
        }
        j = j + 1;
    }
    assert(prefix@ == field_prefix(buf@));
    match string_from_utf8(prefix) {
        Some(s) => Some(s),
        None => None,
    }
}

} // verus!
