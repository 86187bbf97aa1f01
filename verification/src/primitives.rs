//! Readers of fixed-width values, text and raw bytes.
//!
//! Multi-byte numbers are little-endian. A fixed-width read is atomic: it
//! consumes all of its bytes and returns the value, or consumes none and
//! reports `InsufficientData`.

use crate::cursor::{Cursor, CursorView};
use crate::endian::{
    decode_i16, decode_i32, decode_i64, decode_u16, decode_u32, decode_u64, le_bytes, le_i16,
    le_i32, le_i64, le_i8, le_u16, le_u32, le_u64, lemma_i16_round_trip, lemma_i32_round_trip,
    lemma_i64_round_trip, lemma_i8_round_trip, lemma_u16_round_trip, lemma_u32_round_trip,
    lemma_u64_round_trip,
};
use crate::errors::{ParseError, ParseFault};
use crate::text::{
    before_zero, decode_text, lemma_before_zero_is_prefix, lemma_before_zero_stops_at_zero,
    text_outcome, text_result_view,
};
use vstd::prelude::*;
use vstd::slice::{slice_subrange, slice_to_vec};
use vstd::string::StringExecFns;

verus! {

/// What an atomic read of `width` bytes does. With enough bytes left it
/// returns `value` and moves the cursor `width` bytes on; otherwise it reports
/// `InsufficientData` and leaves the cursor where it was.
pub open spec fn fixed_read<T>(
    before: CursorView,
    after: CursorView,
    res: Result<T, ParseError>,
    width: nat,
    value: T,
) -> bool {
    if before.remaining() >= width {
        res == Ok::<T, ParseError>(value) && after == before.advanced(width)
    } else {
        res == Err::<T, ParseError>(ParseError::InsufficientData) && after == before
    }
}

/// Reads one byte as a signed integer. A value reads back from its
/// encoding as itself.
pub fn read_i8(cursor: &mut Cursor) -> (res: Result<i8, ParseError>)
    ensures
        fixed_read(old(cursor)@, final(cursor)@, res, 1, le_i8(old(cursor)@.window(1))),
        forall|value: i8|
            old(cursor)@.starts_with(#[trigger] le_bytes(value as int, 1)) ==> res == Ok::<
                i8,
                ParseError,
            >(value),
{
    proof {
        assert forall|value: i8|
            old(cursor)@.starts_with(#[trigger] le_bytes(value as int, 1)) implies {
            &&& le_bytes(value as int, 1).len() == 1
            &&& le_i8(old(cursor)@.window(1)) == value
        } by {
            lemma_i8_round_trip(value);
        }
    }
    match cursor.take(1) {
        Some(bytes) => {
            let byte: u8 = bytes[0];
            if byte < 0x80 {
                Ok(byte as i8)
            } else {
                Ok((byte as i16 - 0x100) as i8)
            }
        },
        None => Err(ParseError::InsufficientData),
    }
}

/// Reads one byte as an unsigned integer.
pub fn read_u8(cursor: &mut Cursor) -> (res: Result<u8, ParseError>)
    ensures
        fixed_read(old(cursor)@, final(cursor)@, res, 1, old(cursor)@.window(1)[0]),
        forall|value: u8|
            old(cursor)@.starts_with(#[trigger] le_bytes(value as int, 1)) ==> res == Ok::<
                u8,
                ParseError,
            >(value),
{
    proof {
        reveal_with_fuel(le_bytes, 2);
    }
    match cursor.take(1) {
        Some(bytes) => Ok(bytes[0]),
        None => Err(ParseError::InsufficientData),
    }
}

/// Reads two bytes as a signed integer. A value reads back from its
/// encoding as itself.
pub fn read_i16(cursor: &mut Cursor) -> (res: Result<i16, ParseError>)
    ensures
        fixed_read(old(cursor)@, final(cursor)@, res, 2, le_i16(old(cursor)@.window(2))),
        forall|value: i16|
            old(cursor)@.starts_with(#[trigger] le_bytes(value as int, 2)) ==> res == Ok::<
                i16,
                ParseError,
            >(value),
{
    proof {
        assert forall|value: i16|
            old(cursor)@.starts_with(#[trigger] le_bytes(value as int, 2)) implies {
            &&& le_bytes(value as int, 2).len() == 2
            &&& le_i16(old(cursor)@.window(2)) == value
        } by {
            lemma_i16_round_trip(value);
        }
    }
    match cursor.take(2) {
        Some(bytes) => Ok(decode_i16(bytes)),
        None => Err(ParseError::InsufficientData),
    }
}

/// Reads four bytes as a signed integer. A value reads back from its
/// encoding as itself.
pub fn read_i32(cursor: &mut Cursor) -> (res: Result<i32, ParseError>)
    ensures
        fixed_read(old(cursor)@, final(cursor)@, res, 4, le_i32(old(cursor)@.window(4))),
        forall|value: i32|
            old(cursor)@.starts_with(#[trigger] le_bytes(value as int, 4)) ==> res == Ok::<
                i32,
                ParseError,
            >(value),
{
    proof {
        assert forall|value: i32|
            old(cursor)@.starts_with(#[trigger] le_bytes(value as int, 4)) implies {
            &&& le_bytes(value as int, 4).len() == 4
            &&& le_i32(old(cursor)@.window(4)) == value
        } by {
            lemma_i32_round_trip(value);
        }
    }
    match cursor.take(4) {
        Some(bytes) => Ok(decode_i32(bytes)),
        None => Err(ParseError::InsufficientData),
    }
}

/// Reads eight bytes as a signed integer. A value reads back from its
/// encoding as itself.
pub fn read_i64(cursor: &mut Cursor) -> (res: Result<i64, ParseError>)
    ensures
        fixed_read(old(cursor)@, final(cursor)@, res, 8, le_i64(old(cursor)@.window(8))),
        forall|value: i64|
            old(cursor)@.starts_with(#[trigger] le_bytes(value as int, 8)) ==> res == Ok::<
                i64,
                ParseError,
            >(value),
{
    proof {
        assert forall|value: i64|
            old(cursor)@.starts_with(#[trigger] le_bytes(value as int, 8)) implies {
            &&& le_bytes(value as int, 8).len() == 8
            &&& le_i64(old(cursor)@.window(8)) == value
        } by {
            lemma_i64_round_trip(value);
        }
    }
    match cursor.take(8) {
        Some(bytes) => Ok(decode_i64(bytes)),
        None => Err(ParseError::InsufficientData),
    }
}

/// Reads two bytes as an unsigned integer. A value reads back from its
/// encoding as itself.
pub fn read_u16(cursor: &mut Cursor) -> (res: Result<u16, ParseError>)
    ensures
        fixed_read(old(cursor)@, final(cursor)@, res, 2, le_u16(old(cursor)@.window(2))),
        forall|value: u16|
            old(cursor)@.starts_with(#[trigger] le_bytes(value as int, 2)) ==> res == Ok::<
                u16,
                ParseError,
            >(value),
{
    proof {
        assert forall|value: u16|
            old(cursor)@.starts_with(#[trigger] le_bytes(value as int, 2)) implies {
            &&& le_bytes(value as int, 2).len() == 2
            &&& le_u16(old(cursor)@.window(2)) == value
        } by {
            lemma_u16_round_trip(value);
        }
    }
    match cursor.take(2) {
        Some(bytes) => Ok(decode_u16(bytes)),
        None => Err(ParseError::InsufficientData),
    }
}

/// Reads four bytes as an unsigned integer. A value reads back from its
/// encoding as itself.
pub fn read_u32(cursor: &mut Cursor) -> (res: Result<u32, ParseError>)
    ensures
        fixed_read(old(cursor)@, final(cursor)@, res, 4, le_u32(old(cursor)@.window(4))),
        forall|value: u32|
            old(cursor)@.starts_with(#[trigger] le_bytes(value as int, 4)) ==> res == Ok::<
                u32,
                ParseError,
            >(value),
{
    proof {
        assert forall|value: u32|
            old(cursor)@.starts_with(#[trigger] le_bytes(value as int, 4)) implies {
            &&& le_bytes(value as int, 4).len() == 4
            &&& le_u32(old(cursor)@.window(4)) == value
        } by {
            lemma_u32_round_trip(value);
        }
    }
    match cursor.take(4) {
        Some(bytes) => Ok(decode_u32(bytes)),
        None => Err(ParseError::InsufficientData),
    }
}

/// Reads eight bytes as an unsigned integer. A value reads back from its
/// encoding as itself.
pub fn read_u64(cursor: &mut Cursor) -> (res: Result<u64, ParseError>)
    ensures
        fixed_read(old(cursor)@, final(cursor)@, res, 8, le_u64(old(cursor)@.window(8))),
        forall|value: u64|
            old(cursor)@.starts_with(#[trigger] le_bytes(value as int, 8)) ==> res == Ok::<
                u64,
                ParseError,
            >(value),
{
    proof {
        assert forall|value: u64|
            old(cursor)@.starts_with(#[trigger] le_bytes(value as int, 8)) implies {
            &&& le_bytes(value as int, 8).len() == 8
            &&& le_u64(old(cursor)@.window(8)) == value
        } by {
            lemma_u64_round_trip(value);
        }
    }
    match cursor.take(8) {
        Some(bytes) => Ok(decode_u64(bytes)),
        None => Err(ParseError::InsufficientData),
    }
}

/// What a character read does. It needs one byte, which it consumes. A byte
/// up to 127 is the ASCII character of that code; a larger one is rejected.
pub open spec fn char_read(
    before: CursorView,
    after: CursorView,
    res: Result<char, ParseError>,
) -> bool {
    if before.remaining() < 1 {
        res == Err::<char, ParseError>(ParseError::InsufficientData) && after == before
    } else if before.window(1)[0] <= 127 {
        res == Ok::<char, ParseError>(before.window(1)[0] as char) && after == before.advanced(1)
    } else {
        &&& res matches Err(error) && error@ == ParseFault::InvalidData("non-ASCII character"@)
        &&& after == before.advanced(1)
    }
}

/// Reads one byte as an ASCII character.
pub fn read_char(cursor: &mut Cursor) -> (res: Result<char, ParseError>)
    ensures
        char_read(old(cursor)@, final(cursor)@, res),
{
    match cursor.take(1) {
        Some(bytes) => {
            let byte: u8 = bytes[0];
            if byte > 127 {
                Err(ParseError::InvalidData(String::from_str("non-ASCII character")))
            } else {
                Ok(byte as char)
            }
        },
        None => Err(ParseError::InsufficientData),
    }
}

/// Reads one byte as a boolean: zero is `false`, every other byte is `true`.
pub fn read_bool(cursor: &mut Cursor) -> (res: Result<bool, ParseError>)
    ensures
        fixed_read(old(cursor)@, final(cursor)@, res, 1, old(cursor)@.window(1)[0] != 0),
{
    match cursor.take(1) {
        Some(bytes) => Ok(bytes[0] != 0),
        None => Err(ParseError::InsufficientData),
    }
}

/// Reads a pointer-width value, which is eight bytes wide on the wire
/// whatever the width of a pointer on the machine that reads it.
pub fn read_ptr(cursor: &mut Cursor) -> (res: Result<u64, ParseError>)
    ensures
        fixed_read(old(cursor)@, final(cursor)@, res, 8, le_u64(old(cursor)@.window(8))),
        forall|value: u64|
            old(cursor)@.starts_with(#[trigger] le_bytes(value as int, 8)) ==> res == Ok::<
                u64,
                ParseError,
            >(value),
{
    read_u64(cursor)
}

/// Reads a size-width value, which is laid out like a pointer-width one.
pub fn read_size_t(cursor: &mut Cursor) -> (res: Result<u64, ParseError>)
    ensures
        fixed_read(old(cursor)@, final(cursor)@, res, 8, le_u64(old(cursor)@.window(8))),
        forall|value: u64|
            old(cursor)@.starts_with(#[trigger] le_bytes(value as int, 8)) ==> res == Ok::<
                u64,
                ParseError,
            >(value),
{
    read_ptr(cursor)
}

/// What a read of zero-terminated text does. Where a zero byte is left, the
/// bytes in front of the first one are the text, and the cursor ends behind
/// that zero byte, whether or not the text is valid. Where none is left, the
/// read consumes the rest of the buffer and reports `InsufficientData`.
pub open spec fn cstring_read(
    before: CursorView,
    after: CursorView,
    res: Result<String, ParseError>,
) -> bool {
    let run = before_zero(before.rest());
    if before.rest().contains(0u8) {
        &&& after == before.advanced(run.len() + 1)
        &&& text_result_view(res) == text_outcome(run, "Invalid UTF-8 in string: "@)
    } else {
        &&& after == before.advanced(before.remaining() as nat)
        &&& res == Err::<String, ParseError>(ParseError::InsufficientData)
    }
}

/// Reads text that ends at the first zero byte. The zero byte is consumed and
/// is not part of the text.
pub fn read_cstring(cursor: &mut Cursor) -> (res: Result<String, ParseError>)
    ensures
        cstring_read(old(cursor)@, final(cursor)@, res),
{
    let mut bytes: Vec<u8> = Vec::new();
    proof {
        use_type_invariant(&*cursor);
    }
    loop
        invariant_except_break
            cursor@.pos == old(cursor)@.pos + bytes@.len(),
        invariant
            cursor@.buffer == old(cursor)@.buffer,
            old(cursor)@.pos <= cursor@.pos <= cursor@.buffer.len(),
            forall|i: int| 0 <= i < bytes@.len() ==> bytes@[i] == #[trigger] old(cursor)@.rest()[i],
            forall|i: int| 0 <= i < bytes@.len() ==> bytes@[i] != 0,
        ensures
            cursor@.pos == old(cursor)@.pos + bytes@.len() + 1,
            old(cursor)@.rest()[bytes@.len() as int] == 0,
        decreases cursor@.remaining(),
    {
        match read_u8(cursor) {
            Ok(byte) => {
                if byte == 0 {
                    break ;
                }
                bytes.push(byte);
            },
            Err(error) => {
                proof {
                    let rest = old(cursor)@.rest();
                    assert(bytes@ =~= rest);
                    lemma_before_zero_stops_at_zero(rest);
                    lemma_before_zero_is_prefix(rest, rest.len() as int);
                }
                return Err(error);
            },
        }
    }
    proof {
        let rest = old(cursor)@.rest();
        lemma_before_zero_is_prefix(rest, bytes@.len() as int);
        lemma_before_zero_stops_at_zero(rest);
        assert(bytes@ =~= rest.take(bytes@.len() as int));
    }
    decode_text(bytes, "Invalid UTF-8 in string: ")
}

/// What a read of text in a window of `length` bytes does. With enough bytes
/// left it consumes the whole window, and the text is what stands in front of
/// the first zero byte in it, or all of it. Otherwise it reports
/// `InsufficientData` and leaves the cursor where it was.
pub open spec fn fixed_string_read(
    before: CursorView,
    after: CursorView,
    res: Result<String, ParseError>,
    length: nat,
) -> bool {
    if before.remaining() >= length {
        &&& after == before.advanced(length)
        &&& text_result_view(res) == text_outcome(
            before_zero(before.window(length)),
            "Invalid UTF-8 in fixed string: "@,
        )
    } else {
        res == Err::<String, ParseError>(ParseError::InsufficientData) && after == before
    }
}

/// Reads text from a window of exactly `length` bytes. The text ends at the
/// first zero byte in the window; what follows it there is dropped.
pub fn read_fixed_string(cursor: &mut Cursor, length: usize) -> (res: Result<String, ParseError>)
    ensures
        fixed_string_read(old(cursor)@, final(cursor)@, res, length as nat),
{
    match cursor.take(length) {
        Some(window) => {
            let mut end: usize = 0;
            while end < window.len() && window[end] != 0
                invariant
                    end <= window@.len(),
                    forall|i: int| 0 <= i < end ==> window@[i] != 0,
                decreases window@.len() - end,
            {
                end += 1;
            }
            proof {
                lemma_before_zero_is_prefix(window@, end as int);
            }
            let run: Vec<u8> = slice_to_vec(slice_subrange(window, 0, end));
            decode_text(run, "Invalid UTF-8 in fixed string: ")
        },
        None => Err(ParseError::InsufficientData),
    }
}

/// Reads `length` bytes as they are. With enough bytes left the result holds
/// exactly the next `length` bytes; otherwise the read reports
/// `InsufficientData` and leaves the cursor where it was. Asking for all that
/// is left returns all of it.
pub fn read_bytes(cursor: &mut Cursor, length: usize) -> (res: Result<Vec<u8>, ParseError>)
    ensures
        if old(cursor)@.remaining() >= length {
            &&& res matches Ok(bytes) && bytes@ == old(cursor)@.window(length as nat)
            &&& final(cursor)@ == old(cursor)@.advanced(length as nat)
        } else {
            res == Err::<Vec<u8>, ParseError>(ParseError::InsufficientData) && final(cursor)@
                == old(cursor)@
        },
        length == old(cursor)@.remaining() ==> (res matches Ok(bytes) && bytes@ == old(
            cursor,
        )@.rest()),
{
    match cursor.take(length) {
        Some(window) => Ok(slice_to_vec(window)),
        None => Err(ParseError::InsufficientData),
    }
}

} // verus!
