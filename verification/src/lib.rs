//! Decoding of subtitle files that are stored either as UTF-8 or in the
//! Windows-1256 code page.
//!
//! [`encoding`] holds the decoding modes and the decoding of a buffer under
//! each of them, [`windows_1256`] the code page, [`utf8`] and [`scan`] strict
//! UTF-8 and the place where a buffer fails it, [`laws`] what holds of
//! decoding in general, and [`captions`] the text that a window shows about a
//! file.

pub mod captions;
pub mod encoding;
pub mod laws;
pub mod scan;
pub mod utf8;
pub mod windows_1256;
