//! Finding the place at which a buffer stops being UTF-8.
//!
//! The scan goes by the byte ranges of well-formed UTF-8; the lemmas here tie
//! those ranges to the grammar in which the contracts are written.

use crate::utf8::{begins_scalar, is_one_scalar, is_valid_up_to, stops_with, InvalidUtf8};
use vstd::prelude::*;
use vstd::utf8::{
    codepoint_width_2, codepoint_width_3, codepoint_width_4, is_continuation_byte,
    is_leading_byte_width_2, is_leading_byte_width_3, is_leading_byte_width_4,
    length_of_first_scalar, not_overlong_encoding, not_surrogate, partial_valid_utf8,
    valid_first_scalar, valid_utf8,
};

verus! {

/// The number of bytes of a character whose first byte is `first`.
spec fn width_of(first: u8) -> int {
    if first < 0x80 {
        1
    } else if first < 0xE0 {
        2
    } else if first < 0xF0 {
        3
    } else {
        4
    }
}

/// `first` is the first byte of some character of more than one byte.
spec fn is_lead(first: u8) -> bool {
    0xC2 <= first <= 0xF4
}

/// `second` can follow `first` in a well-formed character.
spec fn second_fits(first: u8, second: u8) -> bool {
    &&& second >= (if first == 0xE0 { 0xA0u8 } else if first == 0xF0 { 0x90u8 } else { 0x80u8 })
    &&& second <= (if first == 0xED { 0x9Fu8 } else if first == 0xF4 { 0x8Fu8 } else { 0xBFu8 })
}

/// By byte ranges: `bytes` start with a well-formed character.
spec fn starts_well_formed(bytes: Seq<u8>) -> bool {
    &&& bytes.len() >= 1
    &&& bytes[0] >= 0x80 ==> {
        &&& is_lead(bytes[0])
        &&& bytes.len() >= width_of(bytes[0])
        &&& second_fits(bytes[0], bytes[1])
        &&& width_of(bytes[0]) >= 3 ==> is_continuation_byte(bytes[2])
        &&& width_of(bytes[0]) >= 4 ==> is_continuation_byte(bytes[3])
    }
}

/// By byte ranges: `prefix` begins a well-formed character and does not
/// finish it.
spec fn is_viable(prefix: Seq<u8>) -> bool {
    &&& prefix.len() >= 1
    &&& is_lead(prefix[0])
    &&& prefix.len() < width_of(prefix[0])
    &&& prefix.len() >= 2 ==> second_fits(prefix[0], prefix[1])
    &&& prefix.len() >= 3 ==> is_continuation_byte(prefix[2])
}

/// Two bytes of the right form are a character unless they spell a code
/// point that one byte holds.
proof fn lemma_two_bytes(b0: u8, b1: u8)
    by (bit_vector)
    requires
        is_leading_byte_width_2(b0),
        is_continuation_byte(b1),
    ensures
        not_overlong_encoding(codepoint_width_2(b0, b1), 2) <==> b0 >= 0xC2,
        not_surrogate(codepoint_width_2(b0, b1)),
{
}

/// Three bytes of the right form are a character unless they spell a code
/// point that two bytes hold, or a surrogate.
proof fn lemma_three_bytes(b0: u8, b1: u8, b2: u8)
    by (bit_vector)
    requires
        is_leading_byte_width_3(b0),
        is_continuation_byte(b1),
        is_continuation_byte(b2),
    ensures
        not_overlong_encoding(codepoint_width_3(b0, b1, b2), 3) <==> (b0 == 0xE0 ==> b1 >= 0xA0),
        not_surrogate(codepoint_width_3(b0, b1, b2)) <==> (b0 == 0xED ==> b1 <= 0x9F),
{
}

/// Four bytes of the right form are a character unless they spell a code
/// point that three bytes hold, or one beyond `U+10FFFF`.
proof fn lemma_four_bytes(b0: u8, b1: u8, b2: u8, b3: u8)
    by (bit_vector)
    requires
        is_leading_byte_width_4(b0),
        is_continuation_byte(b1),
        is_continuation_byte(b2),
        is_continuation_byte(b3),
    ensures
        not_overlong_encoding(codepoint_width_4(b0, b1, b2, b3), 4) <==> (b0 <= 0xF4 && (b0 == 0xF0
            ==> b1 >= 0x90) && (b0 == 0xF4 ==> b1 <= 0x8F)),
        not_overlong_encoding(codepoint_width_4(b0, b1, b2, b3), 4) ==> not_surrogate(
            codepoint_width_4(b0, b1, b2, b3),
        ),
{
}

/// The byte ranges say what the grammar says: where a well-formed character
/// starts, and how long it is.
proof fn lemma_starts_well_formed(bytes: Seq<u8>)
    ensures
        valid_first_scalar(bytes) <==> starts_well_formed(bytes),
        valid_first_scalar(bytes) ==> length_of_first_scalar(bytes) == width_of(bytes[0]),
{
    if bytes.len() >= 2 && is_leading_byte_width_2(bytes[0]) && is_continuation_byte(bytes[1]) {
        lemma_two_bytes(bytes[0], bytes[1]);
    }
    if bytes.len() >= 3 && is_leading_byte_width_3(bytes[0]) && is_continuation_byte(bytes[1])
        && is_continuation_byte(bytes[2]) {
        lemma_three_bytes(bytes[0], bytes[1], bytes[2]);
    }
    if bytes.len() >= 4 && is_leading_byte_width_4(bytes[0]) && is_continuation_byte(bytes[1])
        && is_continuation_byte(bytes[2]) && is_continuation_byte(bytes[3]) {
        lemma_four_bytes(bytes[0], bytes[1], bytes[2], bytes[3]);
    }
}

/// The byte ranges say what the grammar says: which bytes begin a character
/// that they do not finish.
proof fn lemma_is_viable(prefix: Seq<u8>)
    requires
        prefix.len() >= 1,
    ensures
        begins_scalar(prefix) <==> is_viable(prefix),
{
    if begins_scalar(prefix) {
        let more = choose|more: Seq<u8>| more.len() > 0 && is_one_scalar(#[trigger] (prefix + more));
        let whole = prefix + more;
        lemma_starts_well_formed(whole);
        assert(whole[0] == prefix[0]);
        if prefix.len() >= 2 {
            assert(whole[1] == prefix[1]);
        }
        if prefix.len() >= 3 {
            assert(whole[2] == prefix[2]);
        }
    }
    if is_viable(prefix) {
        let first = prefix[0];
        let second: u8 = if first == 0xE0 {
            0xA0
        } else if first == 0xF0 {
            0x90
        } else {
            0x80
        };
        let more = if prefix.len() == 3 {
            seq![0x80u8]
        } else if prefix.len() == 2 {
            if width_of(first) == 3 {
                seq![0x80u8]
            } else {
                seq![0x80u8, 0x80u8]
            }
        } else {
            if width_of(first) == 2 {
                seq![second]
            } else if width_of(first) == 3 {
                seq![second, 0x80u8]
            } else {
                seq![second, 0x80u8, 0x80u8]
            }
        };
        let whole = prefix + more;
        assert(whole.len() == width_of(first));
        assert(whole[0] == first);
        lemma_starts_well_formed(whole);
        assert(is_one_scalar(whole));
    }
}

/// Where a character is malformed, no longer prefix of the buffer is valid.
proof fn lemma_stops(bytes: Seq<u8>, at: int)
    requires
        partial_valid_utf8(bytes, at),
        at < bytes.len(),
        !valid_first_scalar(bytes.subrange(at, bytes.len() as int)),
    ensures
        is_valid_up_to(bytes, at),
        !valid_utf8(bytes),
{
    let rest = bytes.subrange(at, bytes.len() as int);
    assert forall|longer: int| at < longer <= bytes.len() implies !valid_utf8(
        #[trigger] bytes.subrange(0, longer),
    ) by {
        let front = bytes.subrange(0, longer);
        let tail = front.subrange(at, front.len() as int);
        assert(front.subrange(0, at) =~= bytes.subrange(0, at));
        assert(tail =~= rest.take(longer - at));
        lemma_starts_well_formed(tail);
        lemma_starts_well_formed(rest);
        assert(!valid_utf8(tail));
        vstd::utf8::partial_valid_partial_invalid_utf8(front, at);
    }
    assert(bytes.subrange(0, bytes.len() as int) =~= bytes);
}

/// Reads the character that starts at `at`: its width, or how it is
/// malformed.
fn scalar_at(bytes: &[u8], at: usize) -> (res: Result<usize, Option<usize>>)
    requires
        at < bytes.len(),
    ensures
        match res {
            Ok(width) => valid_first_scalar(bytes@.subrange(at as int, bytes.len() as int))
                && width == length_of_first_scalar(bytes@.subrange(at as int, bytes.len() as int)),
            Err(error_len) => !valid_first_scalar(bytes@.subrange(at as int, bytes.len() as int))
                && stops_with(bytes@.subrange(at as int, bytes.len() as int), error_len),
        },
{
    let ghost rest = bytes@.subrange(at as int, bytes.len() as int);
    let left = bytes.len() - at;
    let first = bytes[at];
    proof {
        lemma_starts_well_formed(rest);
        lemma_is_viable(rest);
        lemma_is_viable(rest.take(1));
        if left >= 2 {
            lemma_is_viable(rest.take(2));
        }
        if left >= 3 {
            lemma_is_viable(rest.take(3));
        }
        if left >= 4 {
            lemma_is_viable(rest.take(4));
        }
        assert(rest.take(left as int) =~= rest);
    }
    if first < 0x80 {
        return Ok(1);
    }
    if first < 0xC2 || first > 0xF4 {
        return Err(Some(1));
    }
    if left < 2 {
        return Err(None);
    }
    let second = bytes[at + 1];
    let lowest: u8 = if first == 0xE0 {
        0xA0
    } else if first == 0xF0 {
        0x90
    } else {
        0x80
    };
    let highest: u8 = if first == 0xED {
        0x9F
    } else if first == 0xF4 {
        0x8F
    } else {
        0xBF
    };
    if second < lowest || second > highest {
        return Err(Some(1));
    }
    if first < 0xE0 {
        return Ok(2);
    }
    if left < 3 {
        return Err(None);
    }
    let third = bytes[at + 2];
    if third < 0x80 || third > 0xBF {
        return Err(Some(2));
    }
    if first < 0xF0 {
        return Ok(3);
    }
    if left < 4 {
        return Err(None);
    }
    let fourth = bytes[at + 3];
    if fourth < 0x80 || fourth > 0xBF {
        return Err(Some(3));
    }
    Ok(4)
}

/// Finds where a buffer that is not UTF-8 stops being UTF-8.
pub(crate) fn locate_invalid(bytes: &[u8]) -> (failure: InvalidUtf8)
    requires
        !valid_utf8(bytes@),
    ensures
        failure.describes(bytes@),
{
    let mut at: usize = 0;
    assert(bytes@.subrange(0, 0) =~= Seq::<u8>::empty());
    assert(bytes@.subrange(0, bytes.len() as int) =~= bytes@);
    loop
        invariant
            at < bytes.len(),
            partial_valid_utf8(bytes@, at as int),
            !valid_utf8(bytes@),
        decreases bytes.len() - at,
    {
        match scalar_at(bytes, at) {
            Ok(width) => {
                proof {
                    vstd::utf8::partial_valid_utf8_extend(bytes@, at as int);
                    assert(bytes@.subrange(0, bytes.len() as int) =~= bytes@);
                }
                at += width;
            },
            Err(error_len) => {
                proof {
                    lemma_stops(bytes@, at as int);
                }
                return InvalidUtf8 { valid_up_to: at, error_len };
            },
        }
    }
}

/// The malformed sequence that a failure names lies within the buffer and
/// has one to three bytes; where the buffer ends in the middle of a
/// character, one to three bytes of that character are there.
pub proof fn lemma_failure_bounds(failure: InvalidUtf8, bytes: Seq<u8>)
    requires
        failure.describes(bytes),
    ensures
        match failure.error_len {
            Some(len) => 1 <= len <= 3 && failure.valid_up_to + len <= bytes.len(),
            None => 1 <= bytes.len() - failure.valid_up_to <= 3,
        },
{
    let rest = bytes.subrange(failure.valid_up_to as int, bytes.len() as int);
    match failure.error_len {
        Some(len) => {
            if len > 1 {
                lemma_is_viable(rest.take(len as int));
            }
        },
        None => {
            lemma_is_viable(rest);
        },
    }
}

/// A buffer that is not UTF-8 has one failure: two that describe the same
/// buffer are equal.
pub proof fn lemma_failure_unique(first: InvalidUtf8, second: InvalidUtf8, bytes: Seq<u8>)
    requires
        first.describes(bytes),
        second.describes(bytes),
    ensures
        first == second,
{
    crate::utf8::lemma_valid_up_to_unique(
        bytes,
        first.valid_up_to as int,
        second.valid_up_to as int,
    );
    let rest = bytes.subrange(first.valid_up_to as int, bytes.len() as int);
    lemma_same_error_len(rest, first.error_len, second.error_len);
    lemma_same_error_len(rest, second.error_len, first.error_len);
}

/// Of two measures of one malformed sequence, the second is not the longer.
proof fn lemma_same_error_len(rest: Seq<u8>, first: Option<usize>, second: Option<usize>)
    requires
        rest.len() >= 1,
        stops_with(rest, first),
        stops_with(rest, second),
    ensures
        first is None ==> second is None,
        first matches Some(short) ==> (second matches Some(long) ==> long <= short),
{
    lemma_is_viable(rest);
    if let Some(short) = first {
        let tested = if short < rest.len() {
            rest.take(short + 1)
        } else {
            rest
        };
        lemma_is_viable(tested);
        if let Some(long) = second {
            if long > short {
                lemma_is_viable(rest.take(long as int));
                assert(is_viable(tested));
            }
        }
    } else {
        if let Some(long) = second {
            let tested = if long < rest.len() {
                rest.take(long + 1)
            } else {
                rest
            };
            lemma_is_viable(tested);
            assert(is_viable(tested));
        }
    }
}

} // verus!
