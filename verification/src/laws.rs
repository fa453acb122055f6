//! What holds of decoding in general, proved from the definitions that the
//! contracts of the decoding functions use.

use crate::encoding::{
    auto_decoded, decoded, utf8_decoded, windows_1256_decoded, DecodedText, InputEncoding,
};
use crate::windows_1256::text_of;
use vstd::prelude::*;
use vstd::utf8::{decode_utf8, encode_utf8, is_ascii_chars, valid_utf8};

verus! {

/// Windows-1256 decoding is total: every buffer, the empty one and one that
/// holds no text at all included, decodes, and to one character for each of
/// its bytes.
pub proof fn lemma_windows_1256_total(bytes: Seq<u8>)
    ensures
        decoded(bytes, InputEncoding::Windows1256) == Some(windows_1256_decoded(bytes)),
        windows_1256_decoded(bytes).text.len() == bytes.len(),
        bytes.len() == 0 ==> windows_1256_decoded(bytes).text == Seq::<char>::empty(),
{
    assert(text_of(bytes).len() == bytes.len());
    if bytes.len() == 0 {
        assert(text_of(bytes) =~= Seq::<char>::empty());
    }
}

/// Automatic detection never fails either.
pub proof fn lemma_auto_total(bytes: Seq<u8>)
    ensures
        decoded(bytes, InputEncoding::Auto) is Some,
{
}

/// On a buffer of valid UTF-8, automatic detection gives what strict UTF-8
/// decoding gives, and names UTF-8 as the encoding.
pub proof fn lemma_auto_agrees_with_utf8(bytes: Seq<u8>)
    requires
        valid_utf8(bytes),
    ensures
        decoded(bytes, InputEncoding::Auto) == decoded(bytes, InputEncoding::Utf8),
        auto_decoded(bytes) == utf8_decoded(bytes),
        auto_decoded(bytes).used_encoding == InputEncoding::Utf8,
{
}

/// On a buffer that is not valid UTF-8, automatic detection gives what
/// Windows-1256 decoding gives, and names Windows-1256, whatever the bytes
/// are. Strict UTF-8 decoding fails on the same buffer.
pub proof fn lemma_auto_falls_back(bytes: Seq<u8>)
    requires
        !valid_utf8(bytes),
    ensures
        decoded(bytes, InputEncoding::Auto) == decoded(bytes, InputEncoding::Windows1256),
        auto_decoded(bytes).text == text_of(bytes),
        auto_decoded(bytes).used_encoding == InputEncoding::Windows1256,
        decoded(bytes, InputEncoding::Utf8) is None,
{
}

/// The encoding that a decoded file names is never `Auto`: it is the one
/// asked for, or, where `Auto` was asked for, the one that was chosen.
pub proof fn lemma_used_encoding(bytes: Seq<u8>, encoding: InputEncoding)
    requires
        decoded(bytes, encoding) is Some,
    ensures
        decoded(bytes, encoding)->0.used_encoding.is_concrete(),
        encoding.is_concrete() ==> decoded(bytes, encoding)->0.used_encoding == encoding,
{
}

/// Text that is stored as UTF-8 and then decoded, strictly or with automatic
/// detection, comes back unchanged.
pub proof fn lemma_utf8_round_trip(text: Seq<char>)
    ensures
        decoded(encode_utf8(text), InputEncoding::Utf8) == Some(
            DecodedText { text, used_encoding: InputEncoding::Utf8 },
        ),
        decoded(encode_utf8(text), InputEncoding::Auto) == Some(
            DecodedText { text, used_encoding: InputEncoding::Utf8 },
        ),
{
    vstd::utf8::encode_utf8_valid_utf8(text);
    vstd::utf8::encode_utf8_decode_utf8(text);
}

/// A file that was decoded as Windows-1256 and stored as UTF-8 reads back,
/// with automatic detection, as the same text, and now as UTF-8.
pub proof fn lemma_converted_file_reads_back(bytes: Seq<u8>)
    ensures
        decoded(encode_utf8(text_of(bytes)), InputEncoding::Auto) == Some(
            DecodedText { text: text_of(bytes), used_encoding: InputEncoding::Utf8 },
        ),
{
    lemma_utf8_round_trip(text_of(bytes));
}

/// A buffer of ASCII bytes is the same text in both encodings, character for
/// byte: line breaks, digits and the marks between them come through
/// unchanged under every mode.
pub proof fn lemma_ascii_decodes_alike(bytes: Seq<u8>)
    requires
        forall|i: int| 0 <= i < bytes.len() ==> bytes[i] < 0x80,
    ensures
        valid_utf8(bytes),
        decode_utf8(bytes) == text_of(bytes),
        forall|i: int| 0 <= i < bytes.len() ==> text_of(bytes)[i] as u32 == bytes[i] as u32,
        decoded(bytes, InputEncoding::Auto)->0.text == text_of(bytes),
        decoded(bytes, InputEncoding::Utf8)->0.text == text_of(bytes),
{
    let text = text_of(bytes);
    assert(is_ascii_chars(text));
    vstd::utf8::is_ascii_chars_encode_utf8(text);
    assert(encode_utf8(text) =~= bytes);
    vstd::utf8::encode_utf8_valid_utf8(text);
    vstd::utf8::encode_utf8_decode_utf8(text);
}

/// The list of modes is `Auto`, `Utf8`, `Windows1256`, in this order, and a
/// mode's position is its index in the list.
pub proof fn lemma_modes_in_order()
    ensures
        InputEncoding::ALL@ =~= seq![
            InputEncoding::Auto,
            InputEncoding::Utf8,
            InputEncoding::Windows1256,
        ],
        forall|mode: InputEncoding|
            0 <= #[trigger] mode.spec_position() < 3 && InputEncoding::ALL[mode.spec_position()]
                == mode,
{
}

/// Modes and the indices of the list correspond one to one.
pub proof fn lemma_position_round_trip(mode: InputEncoding, index: int)
    ensures
        InputEncoding::spec_from_index(mode.spec_position()) == mode,
        0 <= index < 3 ==> InputEncoding::spec_from_index(index).spec_position() == index,
{
}

/// Each mode has one label, which is not empty, and no two modes share one.
pub proof fn lemma_labels_distinct(first: InputEncoding, second: InputEncoding)
    ensures
        first.spec_label().len() > 0,
        first == second <==> first.spec_label() == second.spec_label(),
{
    reveal_strlit("Auto-detect (UTF-8 → Windows-1256)");
    reveal_strlit("UTF-8");
    reveal_strlit("Windows-1256 (Arabic)");
    assert(InputEncoding::Auto.spec_label().len() == 34);
    assert(InputEncoding::Utf8.spec_label().len() == 5);
    assert(InputEncoding::Windows1256.spec_label().len() == 21);
}

} // verus!
