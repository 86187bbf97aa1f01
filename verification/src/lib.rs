//! Decoding of binary primitives from an in-memory buffer.
//!
//! A [`cursor::Cursor`] walks a borrowed byte buffer; the functions of
//! [`primitives`] read little-endian integers, booleans, characters, text and
//! raw byte runs through it. Every read either returns the decoded value and
//! advances the cursor by the bytes it consumed, or returns a
//! [`errors::ParseError`].

pub mod cursor;
pub mod endian;
pub mod errors;
pub mod primitives;
pub mod text;
pub mod types;
