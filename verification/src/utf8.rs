//! Strict UTF-8: a buffer is text only when every byte of it belongs to a
//! well-formed character.

use crate::scan::locate_invalid;
use vstd::prelude::*;
use vstd::slice::slice_to_vec;
use vstd::string::StrSliceExecFns;
use vstd::utf8::{
    decode_utf8, encode_utf8, length_of_first_scalar, partial_valid_utf8, valid_first_scalar,
    valid_utf8,
};

verus! {

/// Where strict decoding of a buffer stopped.
#[derive(Debug, Clone, Copy, PartialEq, Eq)]
pub struct InvalidUtf8 {
    /// The length of the longest prefix of the buffer that is valid UTF-8.
    pub valid_up_to: usize,
    /// The length of the malformed sequence that starts at `valid_up_to`, or
    /// `None` where the buffer ends in the middle of a character.
    pub error_len: Option<usize>,
}

/// `index` is the length of the longest prefix of `bytes` that is valid
/// UTF-8.
pub open spec fn is_valid_up_to(bytes: Seq<u8>, index: int) -> bool {
    &&& partial_valid_utf8(bytes, index)
    &&& forall|longer: int|
        index < longer <= bytes.len() ==> !valid_utf8(#[trigger] bytes.subrange(0, longer))
}

/// `bytes` are one well-formed character, no more and no less.
pub open spec fn is_one_scalar(bytes: Seq<u8>) -> bool {
    valid_first_scalar(bytes) && length_of_first_scalar(bytes) == bytes.len()
}

/// `prefix` begins a well-formed character and does not finish it: some
/// bytes after it would.
pub open spec fn begins_scalar(prefix: Seq<u8>) -> bool {
    exists|more: Seq<u8>| more.len() > 0 && is_one_scalar(#[trigger] (prefix + more))
}

/// `error_len` measures the malformed sequence at the start of `rest`.
///
/// `None`: all of `rest` begins a character, which the end of the buffer cuts
/// short. `Some(len)`: the malformed sequence is the longest start of `rest`
/// that begins a character, or the first byte alone where not even that byte
/// begins one; the byte after it, if there is one, is where a reader would
/// go on.
pub open spec fn stops_with(rest: Seq<u8>, error_len: Option<usize>) -> bool {
    match error_len {
        None => begins_scalar(rest),
        Some(len) => {
            &&& 1 <= len <= rest.len()
            &&& len == 1 || begins_scalar(rest.take(len as int))
            &&& !begins_scalar(
                if len < rest.len() {
                    rest.take(len + 1)
                } else {
                    rest
                },
            )
        },
    }
}

impl InvalidUtf8 {
    /// This failure is the one that strict decoding of `bytes` ends with.
    pub open spec fn describes(self, bytes: Seq<u8>) -> bool {
        &&& !valid_utf8(bytes)
        &&& self.valid_up_to < bytes.len()
        &&& is_valid_up_to(bytes, self.valid_up_to as int)
        &&& stops_with(bytes.subrange(self.valid_up_to as int, bytes.len() as int), self.error_len)
    }
}

/// `String::from_utf8`, with its error left out.
///
/// Believed, not proved: the call succeeds exactly on valid UTF-8, and the
/// string then holds the given bytes.
#[verifier::external_body]
fn string_from_utf8(bytes: Vec<u8>) -> (res: Option<String>)
    ensures
        match res {
            Some(text) => valid_utf8(bytes@) && encode_utf8(text@) == bytes@,
            None => !valid_utf8(bytes@),
        },
{
    String::from_utf8(bytes).ok()
}

/// Decodes `bytes` as UTF-8, or says where they stop being UTF-8. Nothing is
/// replaced or skipped: one malformed byte fails the whole buffer.
pub fn decode_strict(bytes: &[u8]) -> (res: Result<String, InvalidUtf8>)
    ensures
        match res {
            Ok(text) => valid_utf8(bytes@) && text@ == decode_utf8(bytes@),
            Err(failure) => failure.describes(bytes@),
        },
{
    match string_from_utf8(slice_to_vec(bytes)) {
        Some(text) => {
            proof {
                vstd::utf8::encode_utf8_decode_utf8(text@);
            }
            Ok(text)
        },
        None => Err(locate_invalid(bytes)),
    }
}

/// The bytes that store `text` as UTF-8.
pub fn utf8_bytes(text: &str) -> (bytes: Vec<u8>)
    ensures
        bytes@ == encode_utf8(text@),
{
    text.as_bytes_vec()
}

/// A buffer has one longest valid prefix.
pub proof fn lemma_valid_up_to_unique(bytes: Seq<u8>, first: int, second: int)
    requires
        is_valid_up_to(bytes, first),
        is_valid_up_to(bytes, second),
    ensures
        first == second,
{
}

/// The whole of a buffer is its longest valid prefix exactly when the buffer
/// is valid.
pub proof fn lemma_valid_up_to_end(bytes: Seq<u8>)
    ensures
        is_valid_up_to(bytes, bytes.len() as int) <==> valid_utf8(bytes),
{
    assert(bytes.subrange(0, bytes.len() as int) =~= bytes);
}

} // verus!
