//! The decoding modes, and the decoding of a file's bytes under each.

use crate::utf8::{decode_strict, InvalidUtf8};
use crate::windows_1256::{decode_byte, text_of};
use vstd::prelude::*;
use vstd::utf8::{decode_utf8, valid_utf8};

verus! {

/// How the bytes of a subtitle file are turned into text.
#[derive(Debug, Clone, Copy, PartialEq, Eq, Structural)]
pub enum InputEncoding {
    /// Strict UTF-8 first, Windows-1256 when that fails.
    Auto,
    /// Strict UTF-8.
    Utf8,
    /// The Windows-1256 code page.
    Windows1256,
}

impl InputEncoding {
    /// The modes in the order in which a selection list offers them. A mode's
    /// place in this array is its index in such a list.
    pub const ALL: [InputEncoding; 3] = [
        InputEncoding::Auto,
        InputEncoding::Utf8,
        InputEncoding::Windows1256,
    ];

    /// The characters of this mode's label.
    pub open spec fn spec_label(self) -> Seq<char> {
        match self {
            InputEncoding::Auto => "Auto-detect (UTF-8 → Windows-1256)"@,
            InputEncoding::Utf8 => "UTF-8"@,
            InputEncoding::Windows1256 => "Windows-1256 (Arabic)"@,
        }
    }

    /// The label under which a selection list shows this mode.
    pub fn label(self) -> (res: &'static str)
        ensures
            res@ == self.spec_label(),
            res@.len() > 0,
    {
        proof {
            reveal_strlit("Auto-detect (UTF-8 → Windows-1256)");
            reveal_strlit("UTF-8");
            reveal_strlit("Windows-1256 (Arabic)");
        }
        match self {
            InputEncoding::Auto => "Auto-detect (UTF-8 → Windows-1256)",
            InputEncoding::Utf8 => "UTF-8",
            InputEncoding::Windows1256 => "Windows-1256 (Arabic)",
        }
    }

    /// This mode names one encoding, where `Auto` names a way to choose one.
    pub open spec fn is_concrete(self) -> bool {
        self != InputEncoding::Auto
    }

    /// The place of this mode in `ALL`.
    pub open spec fn spec_position(self) -> int {
        match self {
            InputEncoding::Auto => 0,
            InputEncoding::Utf8 => 1,
            InputEncoding::Windows1256 => 2,
        }
    }

    /// The mode at `index` of `ALL`, and `Auto` for an index outside it.
    pub open spec fn spec_from_index(index: int) -> InputEncoding {
        if 0 <= index < 3 {
            Self::ALL[index]
        } else {
            InputEncoding::Auto
        }
    }

    /// The index at which a selection list shows this mode.
    pub fn position(self) -> (index: usize)
        ensures
            index == self.spec_position(),
            index < 3,
            Self::ALL[index as int] == self,
    {
        match self {
            InputEncoding::Auto => 0,
            InputEncoding::Utf8 => 1,
            InputEncoding::Windows1256 => 2,
        }
    }

    /// The mode that a selection list shows at `index`; `Auto` where the list
    /// has no such entry.
    pub fn from_index(index: usize) -> (mode: InputEncoding)
        ensures
            mode == Self::spec_from_index(index as int),
    {
        if index < 3 {
            Self::ALL[index]
        } else {
            InputEncoding::Auto
        }
    }

    /// The labels of all modes, in the order of `ALL`.
    pub fn labels() -> (labels: Vec<&'static str>)
        ensures
            labels@.len() == 3,
            forall|i: int| 0 <= i < 3 ==> (#[trigger] labels@[i])@ == Self::ALL[i].spec_label(),
    {
        let mut labels: Vec<&'static str> = Vec::new();
        let mut next: usize = 0;
        while next < 3
            invariant
                next <= 3,
                labels@.len() == next,
                forall|i: int|
                    0 <= i < next ==> (#[trigger] labels@[i])@ == Self::ALL[i].spec_label(),
            decreases 3 - next,
        {
            labels.push(Self::ALL[next].label());
            next += 1;
        }
        labels
    }
}

/// The text of a file and the encoding under which its bytes gave that text.
#[derive(Debug, PartialEq, Eq)]
pub struct DecodedFile {
    pub text: String,
    /// The encoding that was applied; never `Auto`.
    pub used_encoding: InputEncoding,
}

/// A decoded file as contracts see it.
pub struct DecodedText {
    pub text: Seq<char>,
    pub used_encoding: InputEncoding,
}

impl View for DecodedFile {
    type V = DecodedText;

    open spec fn view(&self) -> DecodedText {
        DecodedText { text: self.text@, used_encoding: self.used_encoding }
    }
}

/// Why a file could not be read, written or decoded.
#[derive(Debug, PartialEq, Eq)]
pub enum SubtitleError {
    /// The file at `path` could not be read; `source` is the system's reason.
    Read { path: String, source: String },
    /// The file at `path` could not be written; `source` is the system's
    /// reason.
    Write { path: String, source: String },
    /// The bytes are not UTF-8, and UTF-8 was asked for.
    Utf8(InvalidUtf8),
}

/// What a buffer holds when it is read as Windows-1256.
pub open spec fn windows_1256_decoded(bytes: Seq<u8>) -> DecodedText {
    DecodedText { text: text_of(bytes), used_encoding: InputEncoding::Windows1256 }
}

/// What a buffer of valid UTF-8 holds.
pub open spec fn utf8_decoded(bytes: Seq<u8>) -> DecodedText
    recommends
        valid_utf8(bytes),
{
    DecodedText { text: decode_utf8(bytes), used_encoding: InputEncoding::Utf8 }
}

/// What a buffer holds when the encoding is chosen by the bytes: UTF-8 if
/// they are valid UTF-8, Windows-1256 in every other case.
pub open spec fn auto_decoded(bytes: Seq<u8>) -> DecodedText {
    if valid_utf8(bytes) {
        utf8_decoded(bytes)
    } else {
        windows_1256_decoded(bytes)
    }
}

/// What a buffer holds under `encoding`; `None` where UTF-8 is asked for and
/// the bytes are not UTF-8.
pub open spec fn decoded(bytes: Seq<u8>, encoding: InputEncoding) -> Option<DecodedText> {
    match encoding {
        InputEncoding::Utf8 => if valid_utf8(bytes) {
            Some(utf8_decoded(bytes))
        } else {
            None
        },
        InputEncoding::Windows1256 => Some(windows_1256_decoded(bytes)),
        InputEncoding::Auto => Some(auto_decoded(bytes)),
    }
}

/// `res` is what decoding `bytes` under `encoding` comes to: the decoded file,
/// or the failure of strict UTF-8.
pub open spec fn is_decoding_of(
    res: Result<DecodedFile, SubtitleError>,
    bytes: Seq<u8>,
    encoding: InputEncoding,
) -> bool {
    match decoded(bytes, encoding) {
        Some(text) => res matches Ok(file) && file@ == text,
        None => res matches Err(SubtitleError::Utf8(failure)) && failure.describes(bytes),
    }
}

/// `String::push`.
///
/// Believed, not proved: the string afterwards is the string before with `c`
/// added at its end.
#[verifier::external_body]
fn push_char(text: &mut String, c: char)
    ensures
        final(text)@ == old(text)@.push(c),
{
    text.push(c)
}

/// Decodes a buffer as Windows-1256. Every buffer is text in this code page,
/// so this cannot fail.
pub fn decode_windows_1256(bytes: &[u8]) -> (text: String)
    ensures
        text@ == text_of(bytes@),
        text@.len() == bytes@.len(),
{
    let mut text = String::new();
    let mut done: usize = 0;
    while done < bytes.len()
        invariant
            done <= bytes.len(),
            text@ == text_of(bytes@.subrange(0, done as int)),
        decreases bytes.len() - done,
    {
        push_char(&mut text, decode_byte(bytes[done]));
        assert(bytes@.subrange(0, done + 1) == bytes@.subrange(0, done as int).push(
            bytes@[done as int],
        ));
        done += 1;
    }
    assert(bytes@.subrange(0, done as int) == bytes@);
    text
}

/// Decodes a buffer under the encoding that its bytes choose: as UTF-8 if
/// they are valid UTF-8, as Windows-1256 in every other case. Always `Ok`.
pub fn try_auto(bytes: &[u8]) -> (res: Result<DecodedFile, SubtitleError>)
    ensures
        res matches Ok(file) && file@ == auto_decoded(bytes@),
        res matches Ok(file) && file.used_encoding.is_concrete(),
{
    if let Ok(text) = decode_strict(bytes) {
        Ok(DecodedFile { text, used_encoding: InputEncoding::Utf8 })
    } else {
        Ok(
            DecodedFile {
                text: decode_windows_1256(bytes),
                used_encoding: InputEncoding::Windows1256,
            },
        )
    }
}

/// Decodes a buffer under `encoding`.
///
/// Fails only where `encoding` is `Utf8` and the bytes are not valid UTF-8;
/// the error then says where they stop being valid.
pub fn decode_bytes(bytes: &[u8], encoding: InputEncoding) -> (res: Result<
    DecodedFile,
    SubtitleError,
>)
    ensures
        is_decoding_of(res, bytes@, encoding),
        res matches Ok(file) ==> file.used_encoding.is_concrete(),
{
    match encoding {
        InputEncoding::Utf8 => {
            match decode_strict(bytes) {
                Ok(text) => Ok(DecodedFile { text, used_encoding: InputEncoding::Utf8 }),
                Err(failure) => Err(SubtitleError::Utf8(failure)),
            }
        },
        InputEncoding::Windows1256 => Ok(
            DecodedFile {
                text: decode_windows_1256(bytes),
                used_encoding: InputEncoding::Windows1256,
            },
        ),
        InputEncoding::Auto => try_auto(bytes),
    }
}

/// What reading the file at `path` comes to, once the file system has
/// answered: `read` holds the file's bytes, or the system's reason for not
/// giving them.
///
/// A failed read comes back as `Read`, with `path` and the reason; bytes that
/// were read are decoded under `encoding`.
pub fn finish_read(path: &str, read: Result<Vec<u8>, String>, encoding: InputEncoding) -> (res:
    Result<DecodedFile, SubtitleError>)
    ensures
        match read {
            Ok(bytes) => is_decoding_of(res, bytes@, encoding),
            Err(reason) => res matches Err(SubtitleError::Read { path: at, source })
                && at@ == path@ && source@ == reason@,
        },
        res matches Ok(file) ==> file.used_encoding.is_concrete(),
{
    match read {
        Ok(bytes) => decode_bytes(bytes.as_slice(), encoding),
        Err(source) => Err(SubtitleError::Read { path: path.to_owned(), source }),
    }
}

/// What writing the file at `path` comes to, once the file system has
/// answered: `written` is `Ok`, or holds the system's reason for not writing.
///
/// A failed write comes back as `Write`, with `path` and the reason.
pub fn finish_write(path: &str, written: Result<(), String>) -> (res: Result<(), SubtitleError>)
    ensures
        match written {
            Ok(_) => res is Ok,
            Err(reason) => res matches Err(SubtitleError::Write { path: at, source })
                && at@ == path@ && source@ == reason@,
        },
{
    match written {
        Ok(_) => Ok(()),
        Err(source) => Err(SubtitleError::Write { path: path.to_owned(), source }),
    }
}

} // verus!
