//! The Windows-1256 code page: one byte, one character.
//!
//! Bytes below `0x80` are ASCII. The upper half follows the code page's
//! published index, in which every byte value is assigned.

use vstd::prelude::*;

verus! {

/// The characters of the bytes `0x80` to `0xFF`, in byte order.
pub const HIGH_HALF: [char; 128] = [
    // 0x80
    '\u{20AC}', '\u{067E}', '\u{201A}', '\u{0192}', '\u{201E}', '\u{2026}', '\u{2020}', '\u{2021}',
    // 0x88
    '\u{02C6}', '\u{2030}', '\u{0679}', '\u{2039}', '\u{0152}', '\u{0686}', '\u{0698}', '\u{0688}',
    // 0x90
    '\u{06AF}', '\u{2018}', '\u{2019}', '\u{201C}', '\u{201D}', '\u{2022}', '\u{2013}', '\u{2014}',
    // 0x98
    '\u{06A9}', '\u{2122}', '\u{0691}', '\u{203A}', '\u{0153}', '\u{200C}', '\u{200D}', '\u{06BA}',
    // 0xA0
    '\u{00A0}', '\u{060C}', '\u{00A2}', '\u{00A3}', '\u{00A4}', '\u{00A5}', '\u{00A6}', '\u{00A7}',
    // 0xA8
    '\u{00A8}', '\u{00A9}', '\u{06BE}', '\u{00AB}', '\u{00AC}', '\u{00AD}', '\u{00AE}', '\u{00AF}',
    // 0xB0
    '\u{00B0}', '\u{00B1}', '\u{00B2}', '\u{00B3}', '\u{00B4}', '\u{00B5}', '\u{00B6}', '\u{00B7}',
    // 0xB8
    '\u{00B8}', '\u{00B9}', '\u{061B}', '\u{00BB}', '\u{00BC}', '\u{00BD}', '\u{00BE}', '\u{061F}',
    // 0xC0
    '\u{06C1}', '\u{0621}', '\u{0622}', '\u{0623}', '\u{0624}', '\u{0625}', '\u{0626}', '\u{0627}',
    // 0xC8
    '\u{0628}', '\u{0629}', '\u{062A}', '\u{062B}', '\u{062C}', '\u{062D}', '\u{062E}', '\u{062F}',
    // 0xD0
    '\u{0630}', '\u{0631}', '\u{0632}', '\u{0633}', '\u{0634}', '\u{0635}', '\u{0636}', '\u{00D7}',
    // 0xD8
    '\u{0637}', '\u{0638}', '\u{0639}', '\u{063A}', '\u{0640}', '\u{0641}', '\u{0642}', '\u{0643}',
    // 0xE0
    '\u{00E0}', '\u{0644}', '\u{00E2}', '\u{0645}', '\u{0646}', '\u{0647}', '\u{0648}', '\u{00E7}',
    // 0xE8
    '\u{00E8}', '\u{00E9}', '\u{00EA}', '\u{00EB}', '\u{0649}', '\u{064A}', '\u{00EE}', '\u{00EF}',
    // 0xF0
    '\u{064B}', '\u{064C}', '\u{064D}', '\u{064E}', '\u{00F4}', '\u{064F}', '\u{0650}', '\u{00F7}',
    // 0xF8
    '\u{0651}', '\u{00F9}', '\u{0652}', '\u{00FB}', '\u{00FC}', '\u{200E}', '\u{200F}', '\u{06D2}',
];

/// The character that the code page gives to `byte`.
pub open spec fn char_of(byte: u8) -> char {
    if byte < 0x80 {
        byte as char
    } else {
        HIGH_HALF[byte - 0x80]
    }
}

/// The text that a buffer holds when each byte is read as one character of
/// the code page.
pub open spec fn text_of(bytes: Seq<u8>) -> Seq<char> {
    bytes.map_values(|byte: u8| char_of(byte))
}

/// Looks `byte` up in the code page.
pub fn decode_byte(byte: u8) -> (c: char)
    ensures
        c == char_of(byte),
{
    if byte < 0x80 {
        byte as char
    } else {
        HIGH_HALF[(byte - 0x80) as usize]
    }
}

/// Every byte value has a character of its own in the code page: none is
/// left to the replacement character `U+FFFD`.
pub proof fn lemma_every_byte_assigned(byte: u8)
    ensures
        char_of(byte) != '\u{FFFD}',
{
}

/// The ASCII half of the code page is ASCII itself.
pub proof fn lemma_ascii_unchanged(byte: u8)
    requires
        byte < 0x80,
    ensures
        char_of(byte) as u32 == byte as u32,
{
}

/// No two byte values share a character.
pub proof fn lemma_char_of_injective(a: u8, b: u8)
    requires
        char_of(a) == char_of(b),
    ensures
        a == b,
{
}

/// Decoding keeps the length: the text has one character for each byte, the
/// one that the code page gives to that byte.
pub proof fn lemma_text_of_pointwise(bytes: Seq<u8>)
    ensures
        text_of(bytes).len() == bytes.len(),
        forall|i: int| 0 <= i < bytes.len() ==> #[trigger] text_of(bytes)[i] == char_of(bytes[i]),
{
}

} // verus!
