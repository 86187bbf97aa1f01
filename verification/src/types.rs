//! A record decoded field by field: the metadata of a file.

use crate::cursor::{Cursor, CursorView};
use crate::endian::{le_u16, le_u32, le_u64};
use crate::errors::ParseError;
use crate::primitives::{read_bool, read_cstring, read_u16, read_u32, read_u64};
use crate::text::{before_zero, text_outcome};
use vstd::prelude::*;

verus! {

/// The metadata of a file.
#[derive(Debug, Clone, PartialEq)]
pub struct ExampleFileMetadata {
    /// Size of the file in bytes.
    pub file_size: u64,
    /// When the file was created, in seconds since the Unix epoch.
    pub created_at: u32,
    /// Code of the kind of file.
    pub file_type: u16,
    /// Whether the content is compressed.
    pub is_compressed: bool,
    /// Name of the file.
    pub filename: String,
}

/// The mathematical value of an [`ExampleFileMetadata`].
pub struct MetadataView {
    pub file_size: u64,
    pub created_at: u32,
    pub file_type: u16,
    pub is_compressed: bool,
    pub filename: Seq<char>,
}

impl View for ExampleFileMetadata {
    type V = MetadataView;

    open spec fn view(&self) -> MetadataView {
        MetadataView {
            file_size: self.file_size,
            created_at: self.created_at,
            file_type: self.file_type,
            is_compressed: self.is_compressed,
            filename: self.filename@,
        }
    }
}

/// How many bytes of the fixed-width fields are consumed when `remaining`
/// bytes are left: each field is read whole or not at all, in the order
/// size (8 bytes), creation time (4), kind (2), compression flag (1).
pub open spec fn fixed_fields_consumed(remaining: int) -> nat {
    if remaining >= 15 {
        15
    } else if remaining >= 14 {
        14
    } else if remaining >= 12 {
        12
    } else if remaining >= 8 {
        8
    } else {
        0
    }
}

/// What decoding a metadata record does. The fixed-width fields take the
/// first fifteen bytes; the name follows as zero-terminated text. The first
/// field that cannot be read ends the decoding with its error, and the cursor
/// stays where that read left it.
pub open spec fn metadata_read(
    before: CursorView,
    after: CursorView,
    res: Result<ExampleFileMetadata, ParseError>,
) -> bool {
    let name_at = before.advanced(15);
    let run = before_zero(name_at.rest());
    if before.remaining() < 15 {
        &&& res == Err::<ExampleFileMetadata, ParseError>(ParseError::InsufficientData)
        &&& after == before.advanced(fixed_fields_consumed(before.remaining()))
    } else if !name_at.rest().contains(0u8) {
        &&& res == Err::<ExampleFileMetadata, ParseError>(ParseError::InsufficientData)
        &&& after == before.advanced(before.remaining() as nat)
    } else {
        &&& after == name_at.advanced(run.len() + 1)
        &&& match text_outcome(run, "Invalid UTF-8 in string: "@) {
            Ok(name) => res matches Ok(metadata) && metadata@ == (MetadataView {
                file_size: le_u64(before.window(8)),
                created_at: le_u32(before.advanced(8).window(4)),
                file_type: le_u16(before.advanced(12).window(2)),
                is_compressed: before.advanced(14).window(1)[0] != 0,
                filename: name,
            }),
            Err(fault) => res matches Err(error) && error@ == fault,
        }
    }
}

/// Decodes a metadata record: an 8-byte size, a 4-byte creation time, a
/// 2-byte kind, a 1-byte compression flag and a zero-terminated name, with
/// nothing between them.
pub fn parse_example_file_metadata(cursor: &mut Cursor) -> (res: Result<
    ExampleFileMetadata,
    ParseError,
>)
    ensures
        metadata_read(old(cursor)@, final(cursor)@, res),
{
    proof {
        use_type_invariant(&*cursor);
    }
    let file_size = read_u64(cursor)?;
    let created_at = read_u32(cursor)?;
    let file_type = read_u16(cursor)?;
    let is_compressed = read_bool(cursor)?;
    let filename = read_cstring(cursor)?;
    Ok(ExampleFileMetadata { file_size, created_at, file_type, is_compressed, filename })
}

/// The name of the kind of file that `code` stands for.
pub open spec fn file_type_label(code: u16) -> Seq<char> {
    if code == 1 {
        "Text"@
    } else if code == 2 {
        "Binary"@
    } else if code == 3 {
        "Image"@
    } else if code == 4 {
        "Audio"@
    } else if code == 5 {
        "Video"@
    } else {
        "Unknown"@
    }
}

impl ExampleFileMetadata {
    /// The kind of file, as a word.
    pub fn file_type_name(&self) -> (name: &'static str)
        ensures
            name@ == file_type_label(self.file_type),
    {
        match self.file_type {
            1 => "Text",
            2 => "Binary",
            3 => "Image",
            4 => "Audio",
            5 => "Video",
            _ => "Unknown",
        }
    }

    /// Whether the file is larger than one mebibyte.
    pub fn is_large_file(&self) -> (large: bool)
        ensures
            large == (self.file_size > 1_048_576),
    {
        self.file_size > 1_048_576
    }
}

} // verus!
