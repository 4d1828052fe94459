//! The reasons for which decoding stops.

use crate::text::{byte_list, decimal, hex_word, push_byte_list, push_decimal, push_hex_word};
use vstd::prelude::*;
use vstd::string::StringExecFns;

verus! {

/// The header fields that hold the offset of a section or table.
#[derive(Clone, Copy, Debug, PartialEq, Eq, Structural)]
pub enum OffsetField {
    /// `link_offset`
    Link,
    /// `string_ids_offset`
    StringIds,
    /// `type_ids_offset`
    TypeIds,
    /// `prototype_ids_offset`
    PrototypeIds,
    /// `field_ids_offset`
    FieldIds,
    /// `method_ids_offset`
    MethodIds,
    /// `class_defs_offset`
    ClassDefs,
}

/// An offset in the header that contradicts the sizes and offsets around it.
#[derive(Clone, Copy, Debug, PartialEq, Eq, Structural)]
pub enum OffsetMismatch {
    /// `field` holds `offset` where the rest of the header calls for `expected`.
    Section { field: OffsetField, offset: usize, expected: u64 },
    /// `map_offset` is zero.
    MapZero,
    /// `map_offset` lies outside the data section, which spans `data_offset..=data_end`.
    MapOutsideData { data_offset: usize, data_end: u64, map_offset: usize },
}

/// A header rule that is no comparison of one offset with its expected value.
#[derive(Clone, Copy, Debug, PartialEq, Eq, Structural)]
pub enum HeaderFault {
    /// `data_size`, held here, is no multiple of four.
    UnalignedDataSize(usize),
    /// There is no link section and the data section stops short of, or runs past, the
    /// end of the file.
    DataNotAtEof,
    /// The link section stops short of, or runs past, the end of the file.
    LinkNotAtEof,
}

/// What went wrong with the byte source itself.
#[derive(Clone, Copy, Debug, PartialEq, Eq, Structural)]
pub enum IoFault {
    /// Fewer bytes were left than the read asked for.
    UnexpectedEof,
}

/// Why a byte stream is not a DEX file.
#[derive(Clone, Copy, Debug, PartialEq, Eq)]
pub enum Error {
    /// The first eight bytes, held here, are not `dex\n`, three decimal digits and NUL.
    InvalidMagic([u8; 8]),
    /// The endian tag, held here, is neither of the two constants.
    InvalidEndianTag(u32),
    /// The header declares the size held here, which is not `HEADER_SIZE`.
    InvalidHeaderSize(usize),
    /// The size of the file (first) is too small for a header or, where the header
    /// declares a size (second), differs from it.
    InvalidFileSize(u64, Option<usize>),
    /// An offset contradicts the rest of the header.
    MismatchedOffsets(OffsetMismatch),
    /// Another rule on the header's fields is broken.
    Header(HeaderFault),
    /// The byte source failed.
    Io(IoFault),
}

impl OffsetField {
    /// The field's name in the file format's documentation.
    pub open spec fn name(self) -> Seq<char> {
        match self {
            OffsetField::Link => "link_offset"@,
            OffsetField::StringIds => "string_ids_offset"@,
            OffsetField::TypeIds => "type_ids_offset"@,
            OffsetField::PrototypeIds => "prototype_ids_offset"@,
            OffsetField::FieldIds => "field_ids_offset"@,
            OffsetField::MethodIds => "method_ids_offset"@,
            OffsetField::ClassDefs => "class_defs_offset"@,
        }
    }

    /// The field's name in the file format's documentation.
    pub fn as_str(self) -> (r: &'static str)
        ensures
            r@ == self.name(),
    {
        match self {
            OffsetField::Link => "link_offset",
            OffsetField::StringIds => "string_ids_offset",
            OffsetField::TypeIds => "type_ids_offset",
            OffsetField::PrototypeIds => "prototype_ids_offset",
            OffsetField::FieldIds => "field_ids_offset",
            OffsetField::MethodIds => "method_ids_offset",
            OffsetField::ClassDefs => "class_defs_offset",
        }
    }
}


impl OffsetMismatch {
    /// What the mismatch is, in words.
    pub open spec fn message_text(self) -> Seq<char> {
        match self {
            OffsetMismatch::Section { field, offset, expected } => "`"@ + field.name()
                + "` was "@ + hex_word(offset as nat) + ", and it should be "@ + hex_word(
                expected as nat,
            ),
            OffsetMismatch::MapZero => "`map_offset` was 0x00, and it can never be zero"@,
            OffsetMismatch::MapOutsideData { data_offset, data_end, map_offset } =>
                "`map_offset` section must be in the `data` section (between "@ + hex_word(
                data_offset as nat,
            ) + " and "@ + hex_word(data_end as nat) + ") but it was at "@ + hex_word(
                map_offset as nat,
            ),
        }
    }

    /// What the mismatch is, in words.
    pub fn message(&self) -> (r: String)
        ensures
            r@ == self.message_text(),
    {
        match *self {
            OffsetMismatch::Section { field, offset, expected } => {
                let mut out = String::from_str("`");
                out.append(field.as_str());
                out.append("` was ");
                push_hex_word(&mut out, offset as u64);
                out.append(", and it should be ");
                push_hex_word(&mut out, expected);
                out
            },
            OffsetMismatch::MapZero => String::from_str(
                "`map_offset` was 0x00, and it can never be zero",
            ),
            OffsetMismatch::MapOutsideData { data_offset, data_end, map_offset } => {
                let mut out = String::from_str(
                    "`map_offset` section must be in the `data` section (between ",
                );
                push_hex_word(&mut out, data_offset as u64);
                out.append(" and ");
                push_hex_word(&mut out, data_end);
                out.append(") but it was at ");
                push_hex_word(&mut out, map_offset as u64);
                out
            },
        }
    }
}

impl HeaderFault {
    /// What the broken rule is, in words.
    pub open spec fn message_text(self) -> Seq<char> {
        match self {
            HeaderFault::UnalignedDataSize(data_size) =>
                "`data_size` must be a 4-byte multiple, but it was "@ + hex_word(
                data_size as nat,
            ),
            HeaderFault::DataNotAtEof =>
                "`data` section must end at the EOF if there are no links in the file"@,
            HeaderFault::LinkNotAtEof => "`link_data` section must end at the end of file"@,
        }
    }

    /// What the broken rule is, in words.
    pub fn message(&self) -> (r: String)
        ensures
            r@ == self.message_text(),
    {
        match *self {
            HeaderFault::UnalignedDataSize(data_size) => {
                let mut out = String::from_str(
                    "`data_size` must be a 4-byte multiple, but it was ",
                );
                push_hex_word(&mut out, data_size as u64);
                out
            },
            HeaderFault::DataNotAtEof => String::from_str(
                "`data` section must end at the EOF if there are no links in the file",
            ),
            HeaderFault::LinkNotAtEof => String::from_str(
                "`link_data` section must end at the end of file",
            ),
        }
    }
}

impl Error {
    /// What the error is, in words.
    pub open spec fn message_text(self) -> Seq<char> {
        match self {
            Error::InvalidMagic(magic) => "invalid dex magic number: [ "@ + byte_list(magic@)
                + " ]"@,
            Error::InvalidEndianTag(tag) => "invalid dex endian tag: "@ + hex_word(tag as nat),
            Error::InvalidHeaderSize(size) => "invalid dex header size: "@ + decimal(size as nat)
                + " bytes, and it must be 112 bytes"@,
            Error::InvalidFileSize(size, None) => "invalid dex file size: "@ + decimal(
                size as nat,
            ) + " bytes, and a header takes 112 bytes"@,
            Error::InvalidFileSize(size, Some(declared)) => "invalid dex file size: "@ + decimal(
                size as nat,
            ) + " bytes, and the header declares "@ + decimal(declared as nat) + " bytes"@,
            Error::MismatchedOffsets(mismatch) => "mismatched offsets: "@
                + mismatch.message_text(),
            Error::Header(fault) => "invalid dex header: "@ + fault.message_text(),
            Error::Io(IoFault::UnexpectedEof) => "unexpected end of file"@,
        }
    }

    /// What the error is, in words.
    pub fn message(&self) -> (r: String)
        ensures
            r@ == self.message_text(),
    {
        match *self {
            Error::InvalidMagic(magic) => {
                let mut out = String::from_str("invalid dex magic number: [ ");
                push_byte_list(&mut out, magic.as_slice());
                out.append(" ]");
                out
            },
            Error::InvalidEndianTag(tag) => {
                let mut out = String::from_str("invalid dex endian tag: ");
                push_hex_word(&mut out, tag as u64);
                out
            },
            Error::InvalidHeaderSize(size) => {
                let mut out = String::from_str("invalid dex header size: ");
                push_decimal(&mut out, size as u64);
                out.append(" bytes, and it must be 112 bytes");
                out
            },
            Error::InvalidFileSize(size, None) => {
                let mut out = String::from_str("invalid dex file size: ");
                push_decimal(&mut out, size);
                out.append(" bytes, and a header takes 112 bytes");
                out
            },
            Error::InvalidFileSize(size, Some(declared)) => {
                let mut out = String::from_str("invalid dex file size: ");
                push_decimal(&mut out, size);
                out.append(" bytes, and the header declares ");
                push_decimal(&mut out, declared as u64);
                out.append(" bytes");
                out
            },
            Error::MismatchedOffsets(mismatch) => {
                let mut out = String::from_str("mismatched offsets: ");
                let detail = mismatch.message();
                out.append(detail.as_str());
                out
            },
            Error::Header(fault) => {
                let mut out = String::from_str("invalid dex header: ");
                let detail = fault.message();
                out.append(detail.as_str());
                out
            },
            Error::Io(IoFault::UnexpectedEof) => String::from_str("unexpected end of file"),
        }
    }
}

} // verus!
